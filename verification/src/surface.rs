//! What the library exports to scripts: the event tags and the functions of
//! the module table.

use vstd::prelude::*;
use crate::event::LuaWindowEvent;

verus! {

/// A function of the module table.
#[derive(Clone, Copy, Debug, PartialEq, Eq, Structural)]
pub enum ModuleFunction {
    /// `new(config)`: creates a window and returns its handle.
    New,
    /// `event_loop(callback)`: runs the event loop bridge with `callback`.
    EventLoop,
}

impl ModuleFunction {
    /// The name under which the function is exported.
    pub open spec fn name(self) -> Seq<char> {
        match self {
            ModuleFunction::New => "new"@,
            ModuleFunction::EventLoop => "event_loop"@,
        }
    }

    /// Whether a call of the function may suspend the calling script.
    pub open spec fn suspends(self) -> bool {
        self is EventLoop
    }

    /// The name under which the function is exported.
    pub fn as_str(self) -> (name: &'static str)
        ensures
            name@ == self.name(),
    {
        match self {
            ModuleFunction::New => "new",
            ModuleFunction::EventLoop => "event_loop",
        }
    }

    /// Whether a call of the function may suspend the calling script.
    pub fn is_async(self) -> (asynchronous: bool)
        ensures
            asynchronous == self.suspends(),
    {
        match self {
            ModuleFunction::New => false,
            ModuleFunction::EventLoop => true,
        }
    }
}

impl LuaWindowEvent {
    /// The name under which the tag is exported.
    pub open spec fn name(self) -> Seq<char> {
        match self {
            LuaWindowEvent::Nothing => "Nothing"@,
            LuaWindowEvent::Exit => "Exit"@,
        }
    }

    /// The name under which the tag is exported.
    pub fn as_str(self) -> (name: &'static str)
        ensures
            name@ == self.name(),
    {
        match self {
            LuaWindowEvent::Nothing => "Nothing",
            LuaWindowEvent::Exit => "Exit",
        }
    }
}

/// The contents of the module table.
#[derive(Clone, Debug)]
pub struct ModuleTable {
    /// The event tags, exported under `events`.
    pub events: Vec<LuaWindowEvent>,
    /// The functions.
    pub functions: Vec<ModuleFunction>,
}

/// The module table: the two event tags and the two functions.
pub fn create() -> (table: ModuleTable)
    ensures
        table.events@ == seq![LuaWindowEvent::Nothing, LuaWindowEvent::Exit],
        table.functions@ == seq![ModuleFunction::New, ModuleFunction::EventLoop],
{
    let mut events: Vec<LuaWindowEvent> = Vec::new();
    events.push(LuaWindowEvent::Nothing);
    events.push(LuaWindowEvent::Exit);
    let mut functions: Vec<ModuleFunction> = Vec::new();
    functions.push(ModuleFunction::New);
    functions.push(ModuleFunction::EventLoop);
    assert(events@ =~= seq![LuaWindowEvent::Nothing, LuaWindowEvent::Exit]);
    assert(functions@ =~= seq![ModuleFunction::New, ModuleFunction::EventLoop]);
    ModuleTable { events, functions }
}

} // verus!
