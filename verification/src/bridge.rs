//! The event loop bridge: the state machine that decides, turn by turn, when
//! the native loop is swept, what the script callback is told, and when the
//! bridge is done.
//!
//! The bridge performs no outside work itself. Its driver reports what
//! happened as a [`BridgeInput`] and carries out the [`BridgeAction`] it gets
//! back:
//!
//! ```text
//! Idle --Turn--> Pumping --Native*--> Translating --SweepDone--> Dispatching
//!   ^                                                                 |
//!   +---------------- Returned(nil or false): Yield -----------------+
//!                     Returned(truthy) or Raised: Terminal
//! ```
//!
//! A bridge belongs to the thread that made it. Every step names the calling
//! thread, and a step from any other thread is refused before it can touch
//! the bridge or the registry.

use vstd::prelude::*;
use crate::event::{
    lemma_close_at_end_is_delivered, retained_after, sweep_args, sweep_requests_exit, CallbackArgs,
    LuaWindowId, NativeEvent, Sweep,
};
use crate::registry::Registry;

verus! {

/// The phases of the bridge.
#[derive(Clone, Copy, Debug, PartialEq, Eq, Structural)]
pub enum BridgePhase {
    /// Waiting for the next scheduling turn.
    Idle,
    /// One sweep of the native loop has been started; no event seen yet.
    Pumping,
    /// The sweep is handing over its events.
    Translating,
    /// The script callback is running with the result of the sweep.
    Dispatching,
    /// The bridge is done. A new bridge has to be made to pump again.
    Terminal,
}

/// What the script callback handed back.
#[derive(Clone, Copy, Debug, PartialEq, Eq, Structural)]
pub enum CallbackReturn {
    /// Nothing, or nil.
    Nil,
    /// A boolean.
    Boolean(bool),
    /// A value of any other type.
    Other,
}

impl CallbackReturn {
    /// Whether the value is the completion signal. Every truthy value is:
    /// all values but nil and `false`.
    pub open spec fn completes(self) -> bool {
        !(self is Nil) && self != CallbackReturn::Boolean(false)
    }

    /// Whether the value is the completion signal.
    pub fn is_truthy(self) -> (truthy: bool)
        ensures
            truthy == self.completes(),
    {
        match self {
            CallbackReturn::Nil => false,
            CallbackReturn::Boolean(flag) => flag,
            CallbackReturn::Other => true,
        }
    }
}

/// What the driver reports to the bridge.
#[derive(Clone, Copy, Debug, PartialEq, Eq, Structural)]
pub enum BridgeInput {
    /// The scheduler gave the bridge its turn.
    Turn,
    /// The native loop handed over one event of the running sweep.
    Native(NativeEvent),
    /// The sweep returned.
    SweepDone,
    /// The script callback returned this.
    Returned(CallbackReturn),
    /// The script callback raised an error.
    Raised,
}

/// What the driver has to do next.
#[derive(Clone, Copy, Debug, PartialEq, Eq, Structural)]
pub enum BridgeAction {
    /// Sweep the pending native events once, with the timeout that
    /// [`BridgeAction::timeout_millis`] gives, which is zero, handing each
    /// event over as `Native` and ending with `SweepDone`.
    Pump,
    /// Go on with the sweep.
    Continue,
    /// Ask the native loop to set its exit flag, then go on with the sweep.
    /// The window that asked to be closed has been released.
    RequestExit(LuaWindowId),
    /// Call the script callback with these arguments, then report what it
    /// returned.
    Invoke(CallbackArgs),
    /// Yield to the scheduler for one full turn, by a suspension of the
    /// duration that [`BridgeAction::timeout_millis`] gives, which is zero,
    /// then report `Turn`.
    Yield,
    /// End the bridge task without error.
    Finish,
    /// End the bridge task with the error the callback raised.
    Propagate,
    /// The input does not fit the phase. Nothing was changed.
    Rejected,
    /// The step came from a thread that does not own the bridge. Nothing was
    /// changed; the caller must not go on.
    Abort,
}

impl BridgeAction {
    /// How long the action may block, in milliseconds, for the two actions
    /// that wait on something outside: a sweep of the native loop and a yield
    /// to the scheduler. Both wait for no time at all, so that a sweep
    /// returns even when no native event is pending and a yield lasts one
    /// scheduler turn and no longer.
    pub open spec fn timeout(self) -> Option<u64> {
        match self {
            BridgeAction::Pump => Some(0),
            BridgeAction::Yield => Some(0),
            _ => None,
        }
    }

    /// The timeout to carry the action out with, in milliseconds: zero for a
    /// sweep and for a yield, none for every other action.
    pub fn timeout_millis(self) -> (millis: Option<u64>)
        ensures
            millis == self.timeout(),
            self is Pump || self is Yield <==> millis == Some(0u64),
    {
        match self {
            BridgeAction::Pump => Some(0),
            BridgeAction::Yield => Some(0),
            _ => None,
        }
    }
}

/// The mathematical content of an [`EventLoopBridge`].
pub struct BridgeModel {
    /// The thread that owns the bridge.
    pub owner: u64,
    pub phase: BridgePhase,
    /// The callback arguments retained by the running sweep.
    pub retained: CallbackArgs,
    /// Whether the running sweep has asked the native loop to stop.
    pub exit_requested: bool,
}

impl BridgeModel {
    /// A bridge owned by `owner`, waiting for its first turn.
    pub open spec fn fresh(owner: u64) -> BridgeModel {
        BridgeModel {
            owner,
            phase: BridgePhase::Idle,
            retained: CallbackArgs::idle(),
            exit_requested: false,
        }
    }

    /// Whether a sweep is under way.
    pub open spec fn sweeping(self) -> bool {
        self.phase is Pumping || self.phase is Translating
    }

    /// Whether `input` fits the phase the bridge is in.
    pub open spec fn accepts(self, input: BridgeInput) -> bool {
        match input {
            BridgeInput::Turn => self.phase is Idle,
            BridgeInput::Native(_) => self.sweeping(),
            BridgeInput::SweepDone => self.sweeping(),
            BridgeInput::Returned(_) => self.phase is Dispatching,
            BridgeInput::Raised => self.phase is Dispatching,
        }
    }

    /// The bridge after `input`, reported by the owning thread.
    pub open spec fn next(self, input: BridgeInput) -> BridgeModel {
        if !self.accepts(input) {
            self
        } else {
            match input {
                BridgeInput::Turn => BridgeModel {
                    phase: BridgePhase::Pumping,
                    retained: CallbackArgs::idle(),
                    exit_requested: false,
                    ..self
                },
                BridgeInput::Native(event) => BridgeModel {
                    phase: BridgePhase::Translating,
                    retained: retained_after(self.retained, event),
                    exit_requested: self.exit_requested || event is CloseRequested,
                    ..self
                },
                BridgeInput::SweepDone => BridgeModel { phase: BridgePhase::Dispatching, ..self },
                BridgeInput::Returned(value) => if value.completes() {
                    BridgeModel { phase: BridgePhase::Terminal, ..self }
                } else {
                    BridgeModel { phase: BridgePhase::Idle, ..self }
                },
                BridgeInput::Raised => BridgeModel { phase: BridgePhase::Terminal, ..self },
            }
        }
    }

    /// What the driver is told to do in answer to `input`.
    pub open spec fn action(self, input: BridgeInput) -> BridgeAction {
        if !self.accepts(input) {
            BridgeAction::Rejected
        } else {
            match input {
                BridgeInput::Turn => BridgeAction::Pump,
                BridgeInput::Native(event) => match event {
                    NativeEvent::CloseRequested { window_id } => BridgeAction::RequestExit(
                        LuaWindowId(window_id),
                    ),
                    _ => BridgeAction::Continue,
                },
                BridgeInput::SweepDone => BridgeAction::Invoke(self.retained),
                BridgeInput::Returned(value) => if value.completes() {
                    BridgeAction::Finish
                } else {
                    BridgeAction::Yield
                },
                BridgeInput::Raised => BridgeAction::Propagate,
            }
        }
    }

    /// The windows left after `input`: an accepted close request releases the
    /// window that sent it, together with its content view.
    pub open spec fn windows_after<W, C>(
        self,
        input: BridgeInput,
        windows: Map<u64, (W, C)>,
    ) -> Map<u64, (W, C)> {
        match input {
            BridgeInput::Native(NativeEvent::CloseRequested { window_id }) => if self.accepts(input) {
                windows.remove(window_id)
            } else {
                windows
            },
            _ => windows,
        }
    }

    /// The bridge after the owning thread reported `inputs`, in order.
    pub open spec fn after_inputs(self, inputs: Seq<BridgeInput>) -> BridgeModel
        decreases inputs.len(),
    {
        if inputs.len() == 0 {
            self
        } else {
            self.after_inputs(inputs.drop_last()).next(inputs.last())
        }
    }

    /// The bridge after the native loop handed over `events`, in order.
    pub open spec fn after_events(self, events: Seq<NativeEvent>) -> BridgeModel
        decreases events.len(),
    {
        if events.len() == 0 {
            self
        } else {
            self.after_events(events.drop_last()).next(BridgeInput::Native(events.last()))
        }
    }
}

/// The bridge between the scheduler, the native loop and the script callback.
#[derive(Clone, Copy, Debug)]
pub struct EventLoopBridge {
    owner: u64,
    phase: BridgePhase,
    sweep: Sweep,
}

impl View for EventLoopBridge {
    type V = BridgeModel;

    closed spec fn view(&self) -> BridgeModel {
        BridgeModel {
            owner: self.owner,
            phase: self.phase,
            retained: self.sweep.retained(),
            exit_requested: self.sweep.wants_exit(),
        }
    }
}

impl EventLoopBridge {
    /// Makes the bridge of the thread `owner`, waiting for its first turn.
    pub fn new(owner: u64) -> (bridge: EventLoopBridge)
        ensures
            bridge@ == BridgeModel::fresh(owner),
    {
        EventLoopBridge { owner, phase: BridgePhase::Idle, sweep: Sweep::new() }
    }

    /// The phase the bridge is in.
    pub fn phase(&self) -> (phase: BridgePhase)
        ensures
            phase == self@.phase,
    {
        self.phase
    }

    /// The thread that owns the bridge.
    pub fn owner(&self) -> (owner: u64)
        ensures
            owner == self@.owner,
    {
        self.owner
    }

    /// Whether the running sweep has asked the native loop to stop.
    pub fn exit_requested(&self) -> (wanted: bool)
        ensures
            wanted == self@.exit_requested,
    {
        self.sweep.exit_requested()
    }

    /// Whether the bridge has reached its terminal phase.
    pub fn is_finished(&self) -> (finished: bool)
        ensures
            finished == (self@.phase is Terminal),
    {
        match self.phase {
            BridgePhase::Terminal => true,
            _ => false,
        }
    }

    /// Takes one input from `thread` and answers with the action to carry
    /// out.
    ///
    /// A step from a thread other than the owner is answered with `Abort` and
    /// touches nothing. Otherwise the bridge moves as [`BridgeModel::next`]
    /// says, the answer is [`BridgeModel::action`], and an accepted close
    /// request releases its window from `registry`.
    pub fn step<W, C>(
        &mut self,
        thread: u64,
        input: BridgeInput,
        registry: &mut Registry<W, C>,
    ) -> (action: BridgeAction)
        ensures
            thread != old(self)@.owner ==> {
                &&& action is Abort
                &&& final(self)@ == old(self)@
                &&& final(registry)@ == old(registry)@
            },
            thread == old(self)@.owner ==> {
                &&& action == old(self)@.action(input)
                &&& final(self)@ == old(self)@.next(input)
                &&& final(registry)@ == old(self)@.windows_after(input, old(registry)@)
            },
    {
        if thread != self.owner {
            return BridgeAction::Abort;
        }
        match input {
            BridgeInput::Turn => match self.phase {
                BridgePhase::Idle => {
                    self.phase = BridgePhase::Pumping;
                    self.sweep = Sweep::new();
                    BridgeAction::Pump
                },
                _ => BridgeAction::Rejected,
            },
            BridgeInput::Native(event) => match self.phase {
                BridgePhase::Pumping | BridgePhase::Translating => {
                    self.phase = BridgePhase::Translating;
                    let _ = self.sweep.observe(event);
                    match event {
                        NativeEvent::CloseRequested { window_id } => {
                            let _ = registry.remove(LuaWindowId(window_id));
                            BridgeAction::RequestExit(LuaWindowId(window_id))
                        },
                        _ => BridgeAction::Continue,
                    }
                },
                _ => BridgeAction::Rejected,
            },
            BridgeInput::SweepDone => match self.phase {
                BridgePhase::Pumping | BridgePhase::Translating => {
                    self.phase = BridgePhase::Dispatching;
                    BridgeAction::Invoke(self.sweep.args())
                },
                _ => BridgeAction::Rejected,
            },
            BridgeInput::Returned(value) => match self.phase {
                BridgePhase::Dispatching => {
                    if value.is_truthy() {
                        self.phase = BridgePhase::Terminal;
                        BridgeAction::Finish
                    } else {
                        self.phase = BridgePhase::Idle;
                        BridgeAction::Yield
                    }
                },
                _ => BridgeAction::Rejected,
            },
            BridgeInput::Raised => match self.phase {
                BridgePhase::Dispatching => {
                    self.phase = BridgePhase::Terminal;
                    BridgeAction::Propagate
                },
                _ => BridgeAction::Rejected,
            },
        }
    }
}

/// While a sweep runs, the bridge retains exactly what the events seen so
/// far amount to: after the events `events` of a sweep that has just been
/// started, the retained arguments are those of the whole sweep, and the
/// native loop has been asked to stop exactly if one of them was a close
/// request.
pub proof fn lemma_bridge_tracks_the_sweep(bridge: BridgeModel, events: Seq<NativeEvent>)
    requires
        bridge.phase is Pumping,
        bridge.retained == CallbackArgs::idle(),
        !bridge.exit_requested,
    ensures
        bridge.after_events(events).sweeping(),
        bridge.after_events(events).owner == bridge.owner,
        bridge.after_events(events).retained == sweep_args(events),
        bridge.after_events(events).exit_requested == sweep_requests_exit(events),
    decreases events.len(),
{
    if events.len() > 0 {
        let earlier = events.drop_last();
        lemma_bridge_tracks_the_sweep(bridge, earlier);
        if sweep_requests_exit(earlier) {
            let k = choose|k: int| 0 <= k < earlier.len() && (#[trigger] earlier[k]) is CloseRequested;
            assert(events[k] is CloseRequested);
        }
        if events.last() is CloseRequested {
            assert(events[events.len() - 1] is CloseRequested);
        }
        if sweep_requests_exit(events) {
            let k = choose|k: int| 0 <= k < events.len() && (#[trigger] events[k]) is CloseRequested;
            if k < earlier.len() {
                assert(earlier[k] is CloseRequested);
            }
        }
    }
}

/// A close request that ends a sweep is delivered.
///
/// Give an idle bridge its turn, let the sweep hand over any events followed
/// by a close request of window `window_id`, and end the sweep: the callback
/// is invoked with `Exit` for that window, and the native loop has been asked
/// to stop.
pub proof fn lemma_close_request_reaches_the_callback(
    bridge: BridgeModel,
    earlier: Seq<NativeEvent>,
    window_id: u64,
)
    requires
        bridge.phase is Idle,
    ensures
        ({
            let events = earlier.push(NativeEvent::CloseRequested { window_id });
            let swept = bridge.next(BridgeInput::Turn).after_events(events);
            &&& bridge.action(BridgeInput::Turn) == BridgeAction::Pump
            &&& swept.exit_requested
            &&& swept.action(BridgeInput::SweepDone) == BridgeAction::Invoke(
                CallbackArgs::exit(window_id),
            )
            &&& swept.next(BridgeInput::SweepDone).phase is Dispatching
        }),
{
    let events = earlier.push(NativeEvent::CloseRequested { window_id });
    lemma_bridge_tracks_the_sweep(bridge.next(BridgeInput::Turn), events);
    lemma_close_at_end_is_delivered(earlier, window_id);
}

/// Sweeps and callback invocations never overlap.
///
/// A sweep is only started from the idle phase; the callback is only invoked
/// when a sweep ends; and while the callback runs, nothing but its return or
/// its error moves the bridge.
pub proof fn lemma_sweeps_and_callbacks_alternate(bridge: BridgeModel, input: BridgeInput)
    ensures
        bridge.action(input) is Pump ==> bridge.phase is Idle && bridge.next(input).phase is Pumping,
        bridge.action(input) is Invoke ==> bridge.sweeping() && bridge.next(input).phase
            is Dispatching,
        bridge.phase is Dispatching && !(input is Returned) && !(input is Raised) ==> bridge.action(
            input,
        ) is Rejected && bridge.next(input) == bridge,
        bridge.action(input) is Yield ==> bridge.phase is Dispatching && bridge.next(input).phase
            is Idle,
{
}

/// The bridge ends exactly when the callback returns a truthy value or
/// raises: those are the only steps into the terminal phase, and no input
/// leads out of it.
pub proof fn lemma_terminal_is_final(bridge: BridgeModel, input: BridgeInput)
    ensures
        bridge.phase is Terminal ==> bridge.next(input) == bridge && bridge.action(input)
            is Rejected,
        !(bridge.phase is Terminal) && bridge.next(input).phase is Terminal ==> {
            &&& bridge.phase is Dispatching
            &&& ((input matches BridgeInput::Returned(value) && value.completes()) || input
                is Raised)
        },
        bridge.action(input) is Finish <==> bridge.phase is Dispatching && (input
            matches BridgeInput::Returned(value) && value.completes()),
        bridge.action(input) is Yield <==> bridge.phase is Dispatching && (input
            matches BridgeInput::Returned(value) && !value.completes()),
        bridge.action(input) is Propagate <==> bridge.phase is Dispatching && input is Raised,
{
}

/// A truthy return of any type ends the loop, and only nil and `false` keep
/// it running.
pub proof fn lemma_truthy_return_ends_the_loop(bridge: BridgeModel, value: CallbackReturn)
    requires
        bridge.phase is Dispatching,
    ensures
        value is Other || value == CallbackReturn::Boolean(true) ==> {
            &&& bridge.action(BridgeInput::Returned(value)) is Finish
            &&& bridge.next(BridgeInput::Returned(value)).phase is Terminal
        },
        value is Nil || value == CallbackReturn::Boolean(false) ==> {
            &&& bridge.action(BridgeInput::Returned(value)) is Yield
            &&& bridge.next(BridgeInput::Returned(value)).phase is Idle
        },
{
}

/// Once the bridge is done it stays done: no history of inputs moves it or
/// makes it ask for another sweep or another callback invocation.
pub proof fn lemma_finished_bridge_stays_finished(bridge: BridgeModel, inputs: Seq<BridgeInput>)
    requires
        bridge.phase is Terminal,
    ensures
        bridge.after_inputs(inputs) == bridge,
        forall|input: BridgeInput| #[trigger] bridge.after_inputs(inputs).action(input) is Rejected,
    decreases inputs.len(),
{
    if inputs.len() > 0 {
        lemma_finished_bridge_stays_finished(bridge, inputs.drop_last());
    }
}

} // verus!
