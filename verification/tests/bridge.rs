use webview_bridge::bridge::{BridgeAction, BridgeInput, BridgePhase, CallbackReturn, EventLoopBridge};
use webview_bridge::event::{
    sweep, translate, CallbackArgs, LuaWindowEvent, LuaWindowId, NativeEvent, Sweep,
};
use webview_bridge::registry::Registry;

const MAIN: u64 = 1;

fn exit_of(window_id: u64) -> CallbackArgs {
    CallbackArgs { window: Some(LuaWindowId(window_id)), event: LuaWindowEvent::Exit }
}

fn idle() -> CallbackArgs {
    CallbackArgs { window: None, event: LuaWindowEvent::Nothing }
}

#[test]
fn translate_close_request_is_exit_with_identity() {
    assert_eq!(translate(NativeEvent::CloseRequested { window_id: 42 }), Some(exit_of(42)));
}

#[test]
fn translate_about_to_wait_is_nothing() {
    assert_eq!(translate(NativeEvent::AboutToWait), Some(idle()));
}

#[test]
fn translate_other_event_is_ignored() {
    assert_eq!(translate(NativeEvent::Other), None);
}

#[test]
fn empty_sweep_delivers_nothing() {
    let done = sweep(&vec![]);
    assert_eq!(done.args(), idle());
    assert!(!done.exit_requested());
}

#[test]
fn sweep_of_n_events_then_close_delivers_exit() {
    for n in 0..6usize {
        let mut events = Vec::new();
        for i in 0..n {
            events.push(if i % 2 == 0 { NativeEvent::Other } else { NativeEvent::AboutToWait });
        }
        events.push(NativeEvent::CloseRequested { window_id: 9 });
        let done = sweep(&events);
        assert_eq!(done.args(), exit_of(9));
        assert!(done.exit_requested());
    }
}

#[test]
fn sweep_keeps_only_the_last_close_request() {
    let events = vec![
        NativeEvent::CloseRequested { window_id: 1 },
        NativeEvent::Other,
        NativeEvent::CloseRequested { window_id: 2 },
        NativeEvent::Other,
    ];
    let done = sweep(&events);
    assert_eq!(done.args(), exit_of(2));
    assert!(done.exit_requested());
}

#[test]
fn idle_marker_after_close_does_not_displace_it() {
    let events = vec![
        NativeEvent::Other,
        NativeEvent::CloseRequested { window_id: 3 },
        NativeEvent::Other,
        NativeEvent::AboutToWait,
    ];
    let done = sweep(&events);
    assert_eq!(done.args(), exit_of(3));
    assert!(done.exit_requested());
}

#[test]
fn sweep_of_idle_markers_delivers_nothing() {
    let done = sweep(&vec![NativeEvent::AboutToWait, NativeEvent::Other, NativeEvent::AboutToWait]);
    assert_eq!(done.args(), idle());
    assert!(!done.exit_requested());
}

#[test]
fn observe_asks_for_exit_only_on_close() {
    let mut running = Sweep::new();
    assert!(!running.observe(NativeEvent::Other));
    assert!(!running.observe(NativeEvent::AboutToWait));
    assert!(running.observe(NativeEvent::CloseRequested { window_id: 5 }));
    assert!(!running.observe(NativeEvent::Other));
    assert_eq!(running.args(), exit_of(5));
    assert!(running.exit_requested());
}

#[test]
fn event_loop_completes_after_one_exit_invocation() {
    let mut registry: Registry<&str, &str> = Registry::new();
    registry.register(LuaWindowId(7), "window", "view");
    let mut bridge = EventLoopBridge::new(MAIN);
    let mut invocations_with_exit = 0;
    let mut invocations = 0;

    // First turn: nothing but the idle marker.
    assert_eq!(bridge.step(MAIN, BridgeInput::Turn, &mut registry), BridgeAction::Pump);
    assert_eq!(
        bridge.step(MAIN, BridgeInput::Native(NativeEvent::AboutToWait), &mut registry),
        BridgeAction::Continue
    );
    match bridge.step(MAIN, BridgeInput::SweepDone, &mut registry) {
        BridgeAction::Invoke(args) => {
            invocations += 1;
            assert_eq!(args, idle());
        }
        other => panic!("unexpected action {:?}", other),
    }
    assert_eq!(
        bridge.step(MAIN, BridgeInput::Returned(CallbackReturn::Boolean(false)), &mut registry),
        BridgeAction::Yield
    );
    assert_eq!(bridge.phase(), BridgePhase::Idle);

    // Second turn: the window is closed.
    assert_eq!(bridge.step(MAIN, BridgeInput::Turn, &mut registry), BridgeAction::Pump);
    assert_eq!(
        bridge.step(MAIN, BridgeInput::Native(NativeEvent::Other), &mut registry),
        BridgeAction::Continue
    );
    assert_eq!(
        bridge.step(
            MAIN,
            BridgeInput::Native(NativeEvent::CloseRequested { window_id: 7 }),
            &mut registry
        ),
        BridgeAction::RequestExit(LuaWindowId(7))
    );
    assert!(bridge.exit_requested());
    match bridge.step(MAIN, BridgeInput::SweepDone, &mut registry) {
        BridgeAction::Invoke(args) => {
            invocations += 1;
            if args.event == LuaWindowEvent::Exit {
                invocations_with_exit += 1;
            }
            assert_eq!(args, exit_of(7));
        }
        other => panic!("unexpected action {:?}", other),
    }
    assert_eq!(
        bridge.step(MAIN, BridgeInput::Returned(CallbackReturn::Boolean(true)), &mut registry),
        BridgeAction::Finish
    );
    assert!(bridge.is_finished());
    assert_eq!(invocations, 2);
    assert_eq!(invocations_with_exit, 1);
}

#[test]
fn close_request_releases_window_and_view() {
    let mut registry: Registry<&str, &str> = Registry::new();
    registry.register(LuaWindowId(7), "window", "view");
    registry.register(LuaWindowId(8), "other window", "other view");
    let mut bridge = EventLoopBridge::new(MAIN);
    bridge.step(MAIN, BridgeInput::Turn, &mut registry);
    bridge.step(MAIN, BridgeInput::Native(NativeEvent::CloseRequested { window_id: 7 }), &mut registry);
    assert!(registry.get(LuaWindowId(7)).is_none());
    assert!(registry.window(LuaWindowId(7)).is_none());
    assert_eq!(registry.get(LuaWindowId(8)), Some(&"other view"));
    assert_eq!(registry.len(), 1);
}

#[test]
fn truthy_returns_of_any_type_end_the_loop() {
    for value in [CallbackReturn::Other, CallbackReturn::Boolean(true)] {
        assert!(value.is_truthy());
        let mut registry: Registry<u8, u8> = Registry::new();
        let mut bridge = EventLoopBridge::new(MAIN);
        bridge.step(MAIN, BridgeInput::Turn, &mut registry);
        bridge.step(MAIN, BridgeInput::SweepDone, &mut registry);
        assert_eq!(bridge.step(MAIN, BridgeInput::Returned(value), &mut registry), BridgeAction::Finish);
        assert_eq!(bridge.phase(), BridgePhase::Terminal);
        // No further sweep and no further callback invocation.
        assert_eq!(bridge.step(MAIN, BridgeInput::Turn, &mut registry), BridgeAction::Rejected);
        assert_eq!(bridge.step(MAIN, BridgeInput::SweepDone, &mut registry), BridgeAction::Rejected);
    }
}

#[test]
fn sweep_and_yield_wait_for_no_time() {
    assert_eq!(BridgeAction::Pump.timeout_millis(), Some(0));
    assert_eq!(BridgeAction::Yield.timeout_millis(), Some(0));
    let others = [
        BridgeAction::Continue,
        BridgeAction::RequestExit(LuaWindowId(1)),
        BridgeAction::Invoke(idle()),
        BridgeAction::Finish,
        BridgeAction::Propagate,
        BridgeAction::Rejected,
        BridgeAction::Abort,
    ];
    for action in others {
        assert_eq!(action.timeout_millis(), None);
    }
    // What the bridge answers to a turn is a sweep without waiting.
    let mut registry: Registry<u8, u8> = Registry::new();
    let mut bridge = EventLoopBridge::new(MAIN);
    assert_eq!(bridge.step(MAIN, BridgeInput::Turn, &mut registry).timeout_millis(), Some(0));
}

#[test]
fn nil_and_false_returns_keep_the_loop_running() {
    for value in [CallbackReturn::Nil, CallbackReturn::Boolean(false)] {
        assert!(!value.is_truthy());
        let mut registry: Registry<u8, u8> = Registry::new();
        let mut bridge = EventLoopBridge::new(MAIN);
        bridge.step(MAIN, BridgeInput::Turn, &mut registry);
        bridge.step(MAIN, BridgeInput::SweepDone, &mut registry);
        assert_eq!(bridge.step(MAIN, BridgeInput::Returned(value), &mut registry), BridgeAction::Yield);
        assert_eq!(bridge.phase(), BridgePhase::Idle);
        assert_eq!(bridge.step(MAIN, BridgeInput::Turn, &mut registry), BridgeAction::Pump);
    }
}

#[test]
fn callback_error_ends_the_bridge_and_propagates() {
    let mut registry: Registry<u8, u8> = Registry::new();
    let mut bridge = EventLoopBridge::new(MAIN);
    bridge.step(MAIN, BridgeInput::Turn, &mut registry);
    bridge.step(MAIN, BridgeInput::SweepDone, &mut registry);
    assert_eq!(bridge.step(MAIN, BridgeInput::Raised, &mut registry), BridgeAction::Propagate);
    assert_eq!(bridge.phase(), BridgePhase::Terminal);
}

#[test]
fn terminal_bridge_rejects_every_input() {
    let mut registry: Registry<u8, u8> = Registry::new();
    registry.register(LuaWindowId(1), 0, 0);
    let mut bridge = EventLoopBridge::new(MAIN);
    bridge.step(MAIN, BridgeInput::Turn, &mut registry);
    bridge.step(MAIN, BridgeInput::SweepDone, &mut registry);
    bridge.step(MAIN, BridgeInput::Returned(CallbackReturn::Boolean(true)), &mut registry);
    let inputs = [
        BridgeInput::Turn,
        BridgeInput::Native(NativeEvent::CloseRequested { window_id: 1 }),
        BridgeInput::SweepDone,
        BridgeInput::Returned(CallbackReturn::Boolean(true)),
        BridgeInput::Raised,
    ];
    for input in inputs {
        assert_eq!(bridge.step(MAIN, input, &mut registry), BridgeAction::Rejected);
        assert_eq!(bridge.phase(), BridgePhase::Terminal);
    }
    assert!(registry.contains(LuaWindowId(1)));
}

#[test]
fn inputs_out_of_turn_are_rejected_and_change_nothing() {
    let mut registry: Registry<u8, u8> = Registry::new();
    registry.register(LuaWindowId(1), 0, 0);
    let mut bridge = EventLoopBridge::new(MAIN);
    assert_eq!(bridge.step(MAIN, BridgeInput::SweepDone, &mut registry), BridgeAction::Rejected);
    assert_eq!(
        bridge.step(MAIN, BridgeInput::Native(NativeEvent::CloseRequested { window_id: 1 }), &mut registry),
        BridgeAction::Rejected
    );
    assert!(registry.contains(LuaWindowId(1)));
    assert_eq!(bridge.step(MAIN, BridgeInput::Raised, &mut registry), BridgeAction::Rejected);
    assert_eq!(bridge.phase(), BridgePhase::Idle);
    bridge.step(MAIN, BridgeInput::Turn, &mut registry);
    assert_eq!(bridge.step(MAIN, BridgeInput::Turn, &mut registry), BridgeAction::Rejected);
    assert_eq!(bridge.phase(), BridgePhase::Pumping);
    bridge.step(MAIN, BridgeInput::SweepDone, &mut registry);
    assert_eq!(bridge.step(MAIN, BridgeInput::Turn, &mut registry), BridgeAction::Rejected);
    assert_eq!(
        bridge.step(MAIN, BridgeInput::Native(NativeEvent::Other), &mut registry),
        BridgeAction::Rejected
    );
    assert_eq!(bridge.phase(), BridgePhase::Dispatching);
}

#[test]
fn step_from_another_thread_aborts_and_touches_nothing() {
    let mut registry: Registry<u8, u8> = Registry::new();
    registry.register(LuaWindowId(1), 0, 0);
    let mut bridge = EventLoopBridge::new(MAIN);
    assert_eq!(bridge.owner(), MAIN);
    assert_eq!(bridge.step(2, BridgeInput::Turn, &mut registry), BridgeAction::Abort);
    assert_eq!(bridge.phase(), BridgePhase::Idle);
    bridge.step(MAIN, BridgeInput::Turn, &mut registry);
    assert_eq!(
        bridge.step(2, BridgeInput::Native(NativeEvent::CloseRequested { window_id: 1 }), &mut registry),
        BridgeAction::Abort
    );
    assert!(registry.contains(LuaWindowId(1)));
    assert!(!bridge.exit_requested());
    assert_eq!(bridge.phase(), BridgePhase::Pumping);
}

#[test]
fn phases_follow_the_turn() {
    let mut registry: Registry<u8, u8> = Registry::new();
    let mut bridge = EventLoopBridge::new(MAIN);
    assert_eq!(bridge.phase(), BridgePhase::Idle);
    bridge.step(MAIN, BridgeInput::Turn, &mut registry);
    assert_eq!(bridge.phase(), BridgePhase::Pumping);
    bridge.step(MAIN, BridgeInput::Native(NativeEvent::Other), &mut registry);
    assert_eq!(bridge.phase(), BridgePhase::Translating);
    bridge.step(MAIN, BridgeInput::SweepDone, &mut registry);
    assert_eq!(bridge.phase(), BridgePhase::Dispatching);
    bridge.step(MAIN, BridgeInput::Returned(CallbackReturn::Nil), &mut registry);
    assert_eq!(bridge.phase(), BridgePhase::Idle);
}

#[test]
fn each_sweep_starts_afresh() {
    let mut registry: Registry<u8, u8> = Registry::new();
    let mut bridge = EventLoopBridge::new(MAIN);
    bridge.step(MAIN, BridgeInput::Turn, &mut registry);
    bridge.step(MAIN, BridgeInput::Native(NativeEvent::CloseRequested { window_id: 4 }), &mut registry);
    bridge.step(MAIN, BridgeInput::SweepDone, &mut registry);
    bridge.step(MAIN, BridgeInput::Returned(CallbackReturn::Boolean(false)), &mut registry);
    bridge.step(MAIN, BridgeInput::Turn, &mut registry);
    assert!(!bridge.exit_requested());
    assert_eq!(bridge.step(MAIN, BridgeInput::SweepDone, &mut registry), BridgeAction::Invoke(idle()));
}
