use webview_bridge::config::{
    names_are_distinct, ConfigError, ConfigTable, ConfigValue, HeadersField, InitialContent,
    LuaWebViewConfig, LuaWebViewScript,
};
use webview_bridge::conversion::{ConversionError, ConversionTarget, IdentityValue, LuaType};
use webview_bridge::error::{FailureKind, Reach};
use webview_bridge::event::{LuaWindowEvent, LuaWindowId};
use webview_bridge::message::{EventLoopMessage, LuaDimension, LuaWebViewMessage};
use webview_bridge::surface::{create, ModuleFunction};

fn empty_table() -> ConfigTable<u32> {
    ConfigTable {
        with_devtools: None,
        init_script: None,
        html: None,
        url: None,
        headers: HeadersField::Absent,
        custom_protocols: None,
    }
}

fn message() -> LuaWebViewMessage {
    LuaWebViewMessage { __internal: true, position: None, mousebutton: None, keycode: None, pressed: None }
}

#[test]
fn window_id_converts_from_its_userdata() {
    assert_eq!(LuaWindowId::from_lua(IdentityValue::WindowId(LuaWindowId(12))), Ok(LuaWindowId(12)));
}

#[test]
fn foreign_userdata_is_not_a_window_id() {
    assert_eq!(
        LuaWindowId::from_lua(IdentityValue::Other(LuaType::UserData)),
        Err(ConversionError { from: LuaType::UserData, to: ConversionTarget::WindowId })
    );
    assert_eq!(
        LuaWindowId::from_lua(IdentityValue::Other(LuaType::Buffer)),
        Err(ConversionError { from: LuaType::Buffer, to: ConversionTarget::WindowId })
    );
}

#[test]
fn other_values_are_not_userdata() {
    let types = [
        LuaType::Nil,
        LuaType::Boolean,
        LuaType::LightUserData,
        LuaType::Integer,
        LuaType::Number,
        LuaType::Vector,
        LuaType::String,
        LuaType::Table,
        LuaType::Function,
        LuaType::Thread,
        LuaType::Error,
    ];
    for from in types {
        assert!(!from.is_userdata());
        assert_eq!(
            LuaWindowId::from_lua(IdentityValue::Other(from)),
            Err(ConversionError { from, to: ConversionTarget::UserData })
        );
    }
}

#[test]
fn type_and_target_names() {
    assert_eq!(LuaType::Nil.as_str(), "nil");
    assert_eq!(LuaType::Boolean.as_str(), "boolean");
    assert_eq!(LuaType::LightUserData.as_str(), "lightuserdata");
    assert_eq!(LuaType::Integer.as_str(), "integer");
    assert_eq!(LuaType::Number.as_str(), "number");
    assert_eq!(LuaType::Vector.as_str(), "vector");
    assert_eq!(LuaType::String.as_str(), "string");
    assert_eq!(LuaType::Table.as_str(), "table");
    assert_eq!(LuaType::Function.as_str(), "function");
    assert_eq!(LuaType::Thread.as_str(), "thread");
    assert_eq!(LuaType::UserData.as_str(), "userdata");
    assert_eq!(LuaType::Buffer.as_str(), "buffer");
    assert_eq!(LuaType::Error.as_str(), "error");
    assert_eq!(ConversionTarget::WindowId.as_str(), "LuaWindowId");
    assert_eq!(ConversionTarget::UserData.as_str(), "userdata");
    assert_eq!(ConversionTarget::Table.as_str(), "table");
}

#[test]
fn empty_table_gives_the_blank_default_configuration() {
    let config = LuaWebViewConfig::from_lua(ConfigValue::Table(empty_table())).unwrap();
    assert!(!config.with_devtools);
    assert_eq!(config.init_script, None);
    assert_eq!(config.html, None);
    assert_eq!(config.url, None);
    assert!(config.headers.is_empty());
    assert!(config.custom_protocols.is_empty());
    assert_eq!(config.initial_content(), InitialContent::Blank);
}

#[test]
fn table_options_are_taken_over() {
    let table = ConfigTable {
        with_devtools: Some(true),
        init_script: Some("init()".to_string()),
        html: Some("<p>hi</p>".to_string()),
        url: None,
        headers: HeadersField::Pairs(vec![("accept".to_string(), "text/html".to_string())]),
        custom_protocols: Some(vec![("app".to_string(), 5u32)]),
    };
    let config = LuaWebViewConfig::from_lua(ConfigValue::Table(table)).unwrap();
    assert!(config.with_devtools);
    assert_eq!(config.init_script, Some("init()".to_string()));
    assert_eq!(config.html, Some("<p>hi</p>".to_string()));
    assert_eq!(config.headers, vec![("accept".to_string(), "text/html".to_string())]);
    assert_eq!(config.custom_protocols, vec![("app".to_string(), 5u32)]);
    assert_eq!(config.initial_content(), InitialContent::Html("<p>hi</p>".to_string()));
}

#[test]
fn devtools_stay_off_unless_asked_for() {
    let mut table = empty_table();
    table.with_devtools = Some(false);
    assert!(!LuaWebViewConfig::from_lua(ConfigValue::Table(table)).unwrap().with_devtools);
}

#[test]
fn address_decides_over_document() {
    let mut table = empty_table();
    table.html = Some("<p>hi</p>".to_string());
    table.url = Some("about:blank".to_string());
    let config = LuaWebViewConfig::from_lua(ConfigValue::Table(table)).unwrap();
    assert_eq!(config.initial_content(), InitialContent::Url("about:blank".to_string()));
}

#[test]
fn value_that_is_no_table_is_refused() {
    for from in [LuaType::Nil, LuaType::String, LuaType::Function, LuaType::UserData] {
        let refused = LuaWebViewConfig::<u32>::from_lua(ConfigValue::Other(from));
        match refused {
            Err(error) => assert_eq!(
                error,
                ConfigError::Conversion(ConversionError { from, to: ConversionTarget::Table })
            ),
            Ok(_) => panic!("{:?} was taken for a configuration", from),
        }
    }
}

#[test]
fn malformed_headers_are_refused() {
    let mut table = empty_table();
    table.url = Some("about:blank".to_string());
    table.headers = HeadersField::Malformed("invalid HTTP header name".to_string());
    match LuaWebViewConfig::from_lua(ConfigValue::Table(table)) {
        Err(error) => {
            assert_eq!(error, ConfigError::MalformedHeaders("invalid HTTP header name".to_string()))
        }
        Ok(_) => panic!("malformed headers were accepted"),
    }
}

#[test]
fn protocol_names_are_told_apart() {
    let none: Vec<(String, u32)> = vec![];
    assert!(names_are_distinct(&none));
    assert!(names_are_distinct(&vec![("app".to_string(), 1u32)]));
    assert!(names_are_distinct(&vec![
        ("app".to_string(), 1u32),
        ("asset".to_string(), 1),
        ("App".to_string(), 2),
    ]));
    assert!(!names_are_distinct(&vec![
        ("app".to_string(), 1u32),
        ("asset".to_string(), 2),
        ("app".to_string(), 3),
    ]));
    assert!(!names_are_distinct(&vec![("a".to_string(), 1u32), ("a".to_string(), 1)]));
}

#[test]
fn readings_with_a_repeated_protocol_name_are_not_well_formed() {
    let mut table = empty_table();
    assert!(table.is_well_formed());
    table.custom_protocols = Some(vec![("app".to_string(), 1), ("asset".to_string(), 2)]);
    assert!(table.is_well_formed());
    assert!(ConfigValue::Table(table).is_well_formed());
    let mut repeated = empty_table();
    repeated.custom_protocols = Some(vec![("app".to_string(), 1), ("app".to_string(), 2)]);
    assert!(!repeated.is_well_formed());
    assert!(!ConfigValue::Table(repeated).is_well_formed());
    assert!(ConfigValue::<u32>::Other(webview_bridge::conversion::LuaType::Nil).is_well_formed());
}

#[test]
fn script_closes_every_piece_with_a_semicolon() {
    let mut script = LuaWebViewScript::new();
    script.write("let a = 1");
    script.write("");
    script.extract_from_option(Some("init()"));
    script.extract_from_option(None);
    assert_eq!(script.read(), "let a = 1;;init();;");
}

#[test]
fn empty_script_reads_empty() {
    assert_eq!(LuaWebViewScript::new().read(), "");
}

#[test]
fn message_with_position_is_a_cursor_move() {
    let mut posted = message();
    posted.position = Some(LuaDimension { x: 10, y: -4 });
    posted.mousebutton = Some("left".to_string());
    assert!(posted.is_convertible());
    assert_eq!(posted.into_eventloop_message(), Some(EventLoopMessage::CursorMoved { x: 10, y: -4 }));
}

#[test]
fn message_with_button_is_a_mouse_button() {
    let mut posted = message();
    posted.mousebutton = Some("left".to_string());
    posted.keycode = Some("KeyA".to_string());
    posted.pressed = Some(true);
    assert!(posted.is_convertible());
    assert_eq!(
        posted.into_eventloop_message(),
        Some(EventLoopMessage::MouseButton { button: "left".to_string(), pressed: true })
    );
}

#[test]
fn message_with_key_is_a_keycode() {
    let mut posted = message();
    posted.keycode = Some("KeyA".to_string());
    posted.pressed = Some(false);
    assert!(posted.is_convertible());
    assert_eq!(
        posted.into_eventloop_message(),
        Some(EventLoopMessage::KeyCode { keycode: "KeyA".to_string(), pressed: false })
    );
}

#[test]
fn message_without_input_is_nothing() {
    let mut posted = message();
    posted.pressed = Some(true);
    assert!(posted.is_convertible());
    assert_eq!(posted.into_eventloop_message(), None);
    assert!(message().is_convertible());
    assert_eq!(message().into_eventloop_message(), None);
}

#[test]
fn button_or_key_without_pressed_cannot_be_converted() {
    let mut button = message();
    button.mousebutton = Some("left".to_string());
    assert!(!button.is_convertible());
    let mut key = message();
    key.keycode = Some("KeyA".to_string());
    assert!(!key.is_convertible());
}

#[test]
fn event_loop_message_constructors() {
    assert_eq!(EventLoopMessage::cursor_moved(1, 2), EventLoopMessage::CursorMoved { x: 1, y: 2 });
    assert_eq!(
        EventLoopMessage::mouse_button("right".to_string(), false),
        EventLoopMessage::MouseButton { button: "right".to_string(), pressed: false }
    );
    assert_eq!(
        EventLoopMessage::keycode("Escape".to_string(), true),
        EventLoopMessage::KeyCode { keycode: "Escape".to_string(), pressed: true }
    );
}

#[test]
fn module_table_exports_tags_and_functions() {
    let table = create();
    assert_eq!(table.events, vec![LuaWindowEvent::Nothing, LuaWindowEvent::Exit]);
    assert_eq!(table.functions, vec![ModuleFunction::New, ModuleFunction::EventLoop]);
    assert_eq!(LuaWindowEvent::Nothing.as_str(), "Nothing");
    assert_eq!(LuaWindowEvent::Exit.as_str(), "Exit");
    assert_eq!(ModuleFunction::New.as_str(), "new");
    assert_eq!(ModuleFunction::EventLoop.as_str(), "event_loop");
    assert!(!ModuleFunction::New.is_async());
    assert!(ModuleFunction::EventLoop.is_async());
}

#[test]
fn only_affinity_and_callback_failures_reach_beyond_the_caller() {
    for kind in [
        FailureKind::Configuration,
        FailureKind::NativeCall,
        FailureKind::Decode,
        FailureKind::Identity,
    ] {
        assert_eq!(kind.propagation(), Reach::Caller);
        assert!(kind.is_recoverable());
    }
    assert_eq!(FailureKind::ThreadAffinity.propagation(), Reach::Process);
    assert_eq!(FailureKind::Callback.propagation(), Reach::Task);
    assert!(!FailureKind::ThreadAffinity.is_recoverable());
    assert!(!FailureKind::Callback.is_recoverable());
}
