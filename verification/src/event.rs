//! Native events, the tagged events handed to the script callback, and the
//! rule that turns one sweep of the native loop into one callback invocation.

use vstd::prelude::*;

verus! {

/// Identity of a native window: an opaque number, compared only for equality.
#[derive(Clone, Copy, Debug, PartialEq, Eq, Structural, Hash)]
pub struct LuaWindowId(pub u64);

/// The event tag the script callback receives.
#[derive(Clone, Copy, Debug, PartialEq, Eq, Structural)]
pub enum LuaWindowEvent {
    /// Nothing happened this turn.
    Nothing,
    /// A window asked to be closed.
    Exit,
}

/// One event of the native loop, reduced to what the bridge reads from it.
#[derive(Clone, Copy, Debug, PartialEq, Eq, Structural)]
pub enum NativeEvent {
    /// The user or the platform asked to close the window `window_id`.
    CloseRequested { window_id: u64 },
    /// The native loop has drained its queue and is about to wait.
    AboutToWait,
    /// Any event the bridge does not translate.
    Other,
}

/// The arguments of one callback invocation: the window the event came from,
/// if it came from one, and the event tag.
#[derive(Clone, Copy, Debug, PartialEq, Eq, Structural)]
pub struct CallbackArgs {
    pub window: Option<LuaWindowId>,
    pub event: LuaWindowEvent,
}

impl CallbackArgs {
    /// The arguments of a turn in which no window asked to be closed.
    pub open spec fn idle() -> CallbackArgs {
        CallbackArgs { window: None, event: LuaWindowEvent::Nothing }
    }

    /// The arguments announcing that `window_id` asked to be closed.
    pub open spec fn exit(window_id: u64) -> CallbackArgs {
        CallbackArgs { window: Some(LuaWindowId(window_id)), event: LuaWindowEvent::Exit }
    }
}

/// The translation of a single native event, `None` for an event the bridge
/// ignores.
pub open spec fn translated(event: NativeEvent) -> Option<CallbackArgs> {
    match event {
        NativeEvent::CloseRequested { window_id } => Some(CallbackArgs::exit(window_id)),
        NativeEvent::AboutToWait => Some(CallbackArgs::idle()),
        NativeEvent::Other => None,
    }
}

/// What a sweep retains after seeing `event`, having retained `before`.
///
/// A close request takes precedence: it replaces whatever was retained. The
/// idle marker translates to `Nothing`, which is what a sweep amounts to
/// anyway when nothing else happened, so it never displaces a close request
/// seen earlier in the same sweep. Ignored events change nothing.
pub open spec fn retained_after(before: CallbackArgs, event: NativeEvent) -> CallbackArgs {
    match translated(event) {
        Some(args) => if args.event is Exit {
            args
        } else {
            before
        },
        None => before,
    }
}

/// The callback arguments of a whole sweep: `Exit` for the window of the last
/// close request in it, and the idle arguments when it holds none.
pub open spec fn sweep_args(events: Seq<NativeEvent>) -> CallbackArgs
    decreases events.len(),
{
    if events.len() == 0 {
        CallbackArgs::idle()
    } else {
        retained_after(sweep_args(events.drop_last()), events.last())
    }
}

/// Whether a sweep asks the native loop to stop: it does as soon as any of
/// its events is a close request.
pub open spec fn sweep_requests_exit(events: Seq<NativeEvent>) -> bool {
    exists|i: int| 0 <= i < events.len() && (#[trigger] events[i]) is CloseRequested
}

/// Translates one native event.
pub fn translate(event: NativeEvent) -> (out: Option<CallbackArgs>)
    ensures
        out == translated(event),
{
    match event {
        NativeEvent::CloseRequested { window_id } => Some(
            CallbackArgs { window: Some(LuaWindowId(window_id)), event: LuaWindowEvent::Exit },
        ),
        NativeEvent::AboutToWait => Some(
            CallbackArgs { window: None, event: LuaWindowEvent::Nothing },
        ),
        NativeEvent::Other => None,
    }
}

/// The running result of one sweep of the native loop.
///
/// The native loop hands its events to a handler one at a time; the handler
/// feeds each to [`Sweep::observe`] and, when the sweep is over, reads the
/// callback arguments with [`Sweep::args`].
#[derive(Clone, Copy, Debug)]
pub struct Sweep {
    args: CallbackArgs,
    exit_requested: bool,
}

impl Sweep {
    /// The arguments retained so far.
    pub closed spec fn retained(&self) -> CallbackArgs {
        self.args
    }

    /// Whether a close request was seen so far.
    pub closed spec fn wants_exit(&self) -> bool {
        self.exit_requested
    }

    /// A sweep that has seen no event yet.
    pub fn new() -> (sweep: Sweep)
        ensures
            sweep.retained() == CallbackArgs::idle(),
            !sweep.wants_exit(),
    {
        Sweep {
            args: CallbackArgs { window: None, event: LuaWindowEvent::Nothing },
            exit_requested: false,
        }
    }

    /// Takes in the next event of the sweep. Returns `true` when the handler
    /// must ask the native loop to stop, which is the case exactly for a close
    /// request.
    pub fn observe(&mut self, event: NativeEvent) -> (request_exit: bool)
        ensures
            final(self).retained() == retained_after(old(self).retained(), event),
            final(self).wants_exit() == (old(self).wants_exit() || event is CloseRequested),
            request_exit == (event is CloseRequested),
    {
        match event {
            NativeEvent::CloseRequested { window_id } => {
                self.args = CallbackArgs {
                    window: Some(LuaWindowId(window_id)),
                    event: LuaWindowEvent::Exit,
                };
                self.exit_requested = true;
                true
            },
            _ => false,
        }
    }

    /// The callback arguments of the sweep as seen so far.
    pub fn args(&self) -> (args: CallbackArgs)
        ensures
            args == self.retained(),
    {
        self.args
    }

    /// Whether any event seen so far was a close request.
    pub fn exit_requested(&self) -> (wanted: bool)
        ensures
            wanted == self.wants_exit(),
    {
        self.exit_requested
    }
}

/// Runs a whole sweep over `events`, in order.
pub fn sweep(events: &Vec<NativeEvent>) -> (done: Sweep)
    ensures
        done.retained() == sweep_args(events@),
        done.wants_exit() == sweep_requests_exit(events@),
{
    let mut acc = Sweep::new();
    let mut i: usize = 0;
    while i < events.len()
        invariant
            i <= events.len(),
            acc.retained() == sweep_args(events@.take(i as int)),
            acc.wants_exit() == sweep_requests_exit(events@.take(i as int)),
        decreases events.len() - i,
    {
        let ghost before = events@.take(i as int);
        let ghost after = events@.take(i + 1);
        let event = events[i];
        let _ = acc.observe(event);
        proof {
            assert(after.drop_last() == before);
            assert(after.last() == event);
            if sweep_requests_exit(before) {
                let k = choose|k: int| 0 <= k < before.len() && (#[trigger] before[k]) is CloseRequested;
                assert(after[k] is CloseRequested);
            }
            if event is CloseRequested {
                assert(after[i as int] is CloseRequested);
            }
            if sweep_requests_exit(after) {
                let k = choose|k: int| 0 <= k < after.len() && (#[trigger] after[k]) is CloseRequested;
                if k < i {
                    assert(before[k] is CloseRequested);
                }
            }
        }
        i += 1;
    }
    proof {
        assert(events@.take(i as int) == events@);
    }
    acc
}

/// A sweep that ends in a close request delivers `Exit` for the window that
/// asked, whatever came before it in the same sweep, and asks the native loop
/// to stop.
pub proof fn lemma_close_at_end_is_delivered(earlier: Seq<NativeEvent>, window_id: u64)
    ensures
        sweep_args(earlier.push(NativeEvent::CloseRequested { window_id }))
            == CallbackArgs::exit(window_id),
        sweep_requests_exit(earlier.push(NativeEvent::CloseRequested { window_id })),
{
    let events = earlier.push(NativeEvent::CloseRequested { window_id });
    assert(events.last() == NativeEvent::CloseRequested { window_id });
    assert(events[earlier.len() as int] is CloseRequested);
}

/// Only close requests count: any other event leaves the result of a sweep
/// as it was.
pub proof fn lemma_other_events_change_nothing(events: Seq<NativeEvent>, event: NativeEvent)
    requires
        !(event is CloseRequested),
    ensures
        sweep_args(events.push(event)) == sweep_args(events),
        sweep_requests_exit(events.push(event)) == sweep_requests_exit(events),
{
    let longer = events.push(event);
    assert(longer.drop_last() == events);
    if sweep_requests_exit(events) {
        let k = choose|k: int| 0 <= k < events.len() && (#[trigger] events[k]) is CloseRequested;
        assert(longer[k] is CloseRequested);
    }
    if sweep_requests_exit(longer) {
        let k = choose|k: int| 0 <= k < longer.len() && (#[trigger] longer[k]) is CloseRequested;
        assert(events[k] is CloseRequested);
    }
}

/// The last close request of a sweep is the one that is delivered, wherever
/// in the sweep it stands: if the event at `last` is a close request and no
/// close request follows it, the sweep delivers `Exit` for its window.
pub proof fn lemma_last_close_request_is_delivered(events: Seq<NativeEvent>, last: int)
    requires
        0 <= last < events.len(),
        events[last] is CloseRequested,
        forall|i: int| last < i < events.len() ==> !((#[trigger] events[i]) is CloseRequested),
    ensures
        sweep_args(events) == CallbackArgs::exit(events[last]->window_id),
        sweep_requests_exit(events),
    decreases events.len(),
{
    if last < events.len() - 1 {
        let earlier = events.drop_last();
        assert(earlier[last] == events[last]);
        assert forall|i: int| last < i < earlier.len() implies !((#[trigger] earlier[i])
            is CloseRequested) by {
            assert(earlier[i] == events[i]);
        }
        lemma_last_close_request_is_delivered(earlier, last);
        assert(!(events[events.len() - 1] is CloseRequested));
    }
}

/// A sweep without a close request delivers `Nothing` and does not ask the
/// native loop to stop.
pub proof fn lemma_sweep_without_close_is_idle(events: Seq<NativeEvent>)
    requires
        !sweep_requests_exit(events),
    ensures
        sweep_args(events) == CallbackArgs::idle(),
    decreases events.len(),
{
    if events.len() > 0 {
        let earlier = events.drop_last();
        assert(!(events[events.len() - 1] is CloseRequested));
        if sweep_requests_exit(earlier) {
            let k = choose|k: int| 0 <= k < earlier.len() && (#[trigger] earlier[k]) is CloseRequested;
            assert(events[k] is CloseRequested);
        }
        lemma_sweep_without_close_is_idle(earlier);
    }
}

} // verus!
