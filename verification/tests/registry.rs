use webview_bridge::event::LuaWindowId;
use webview_bridge::registry::Registry;

#[test]
fn new_registry_is_empty() {
    let registry: Registry<String, String> = Registry::new();
    assert_eq!(registry.len(), 0);
    assert!(!registry.contains(LuaWindowId(0)));
    assert!(registry.get(LuaWindowId(0)).is_none());
}

#[test]
fn registered_window_and_view_are_found() {
    let mut registry: Registry<String, String> = Registry::new();
    registry.register(LuaWindowId(3), "window 3".to_string(), "view 3".to_string());
    assert!(registry.contains(LuaWindowId(3)));
    assert_eq!(registry.get(LuaWindowId(3)), Some(&"view 3".to_string()));
    assert_eq!(registry.window(LuaWindowId(3)), Some(&"window 3".to_string()));
    assert!(registry.get(LuaWindowId(4)).is_none());
    assert_eq!(registry.len(), 1);
}

#[test]
fn remove_releases_window_and_view_together() {
    let mut registry: Registry<String, String> = Registry::new();
    registry.register(LuaWindowId(3), "window".to_string(), "view".to_string());
    assert!(registry.remove(LuaWindowId(3)));
    assert!(registry.get(LuaWindowId(3)).is_none());
    assert!(registry.window(LuaWindowId(3)).is_none());
    assert_eq!(registry.len(), 0);
}

#[test]
fn remove_is_idempotent() {
    let mut registry: Registry<u8, u8> = Registry::new();
    registry.register(LuaWindowId(1), 10, 11);
    registry.register(LuaWindowId(2), 20, 21);
    assert!(registry.remove(LuaWindowId(1)));
    assert!(!registry.remove(LuaWindowId(1)));
    assert!(!registry.remove(LuaWindowId(99)));
    assert_eq!(registry.len(), 1);
    assert_eq!(registry.get(LuaWindowId(2)), Some(&21));
}

#[test]
fn registering_again_replaces_the_entry() {
    let mut registry: Registry<u8, u8> = Registry::new();
    registry.register(LuaWindowId(1), 10, 11);
    registry.register(LuaWindowId(1), 30, 31);
    assert_eq!(registry.len(), 1);
    assert_eq!(registry.window(LuaWindowId(1)), Some(&30));
    assert_eq!(registry.get(LuaWindowId(1)), Some(&31));
}

#[test]
fn window_identities_compare_by_value() {
    assert_eq!(LuaWindowId(5), LuaWindowId(5));
    assert_ne!(LuaWindowId(5), LuaWindowId(6));
    assert!(LuaWindowId(5).same_window(&LuaWindowId(5)));
    assert!(!LuaWindowId(5).same_window(&LuaWindowId(6)));
}
