//! Input messages that the page inside a content view posts to the bridge,
//! and the event loop messages they turn into.

use vstd::prelude::*;

verus! {

/// A position inside a window, in pixels.
#[derive(Clone, Copy, Debug, PartialEq, Eq, Structural)]
pub struct LuaDimension {
    pub x: i32,
    pub y: i32,
}

/// An input event, ready for the event loop.
#[derive(Clone, Debug, PartialEq, Eq)]
pub enum EventLoopMessage {
    /// The pointer moved to this position.
    CursorMoved { x: i32, y: i32 },
    /// A pointer button went down or up.
    MouseButton { button: String, pressed: bool },
    /// A key went down or up.
    KeyCode { keycode: String, pressed: bool },
}

impl EventLoopMessage {
    /// The pointer moved to (`x`, `y`).
    pub fn cursor_moved(x: i32, y: i32) -> (message: EventLoopMessage)
        ensures
            message == (EventLoopMessage::CursorMoved { x, y }),
    {
        EventLoopMessage::CursorMoved { x, y }
    }

    /// The pointer button `button` is now down (`pressed`) or up.
    pub fn mouse_button(button: String, pressed: bool) -> (message: EventLoopMessage)
        ensures
            message == (EventLoopMessage::MouseButton { button, pressed }),
    {
        EventLoopMessage::MouseButton { button, pressed }
    }

    /// The key `keycode` is now down (`pressed`) or up.
    pub fn keycode(keycode: String, pressed: bool) -> (message: EventLoopMessage)
        ensures
            message == (EventLoopMessage::KeyCode { keycode, pressed }),
    {
        EventLoopMessage::KeyCode { keycode, pressed }
    }
}

/// One message posted by the page, as decoded from its JSON form. Which of
/// the optional fields are present says what kind of input it reports.
#[derive(Clone, Debug)]
pub struct LuaWebViewMessage {
    pub __internal: bool,
    pub position: Option<LuaDimension>,
    pub mousebutton: Option<String>,
    pub keycode: Option<String>,
    pub pressed: Option<bool>,
}

impl LuaWebViewMessage {
    /// Whether the message reports a button or a key, which makes the
    /// `pressed` field mandatory. A position takes precedence over both.
    pub open spec fn needs_pressed(&self) -> bool {
        self.position is None && (self.mousebutton is Some || self.keycode is Some)
    }

    /// Whether the message can be converted: it has the `pressed` field if
    /// it needs one.
    pub open spec fn convertible(&self) -> bool {
        self.needs_pressed() ==> self.pressed is Some
    }

    /// The event loop message that the message stands for: a position wins
    /// over a button, a button over a key, and a message with none of them
    /// stands for nothing.
    pub open spec fn as_eventloop_message(&self) -> Option<EventLoopMessage> {
        if let Some(position) = self.position {
            Some(EventLoopMessage::CursorMoved { x: position.x, y: position.y })
        } else if let Some(button) = self.mousebutton {
            Some(EventLoopMessage::MouseButton { button, pressed: self.pressed->0 })
        } else if let Some(keycode) = self.keycode {
            Some(EventLoopMessage::KeyCode { keycode, pressed: self.pressed->0 })
        } else {
            None
        }
    }

    /// Whether the message can be converted.
    pub fn is_convertible(&self) -> (ok: bool)
        ensures
            ok == self.convertible(),
    {
        if self.position.is_some() {
            true
        } else if self.mousebutton.is_some() || self.keycode.is_some() {
            self.pressed.is_some()
        } else {
            true
        }
    }

    /// Converts the message into the event loop message it stands for.
    pub fn into_eventloop_message(self) -> (message: Option<EventLoopMessage>)
        requires
            self.convertible(),
        ensures
            message == self.as_eventloop_message(),
    {
        if let Some(position) = self.position {
            Some(EventLoopMessage::cursor_moved(position.x, position.y))
        } else if let Some(mousebutton) = self.mousebutton {
            let pressed = self.pressed.unwrap();
            Some(EventLoopMessage::mouse_button(mousebutton, pressed))
        } else if let Some(keycode) = self.keycode {
            let pressed = self.pressed.unwrap();
            Some(EventLoopMessage::keycode(keycode, pressed))
        } else {
            None
        }
    }
}

} // verus!
