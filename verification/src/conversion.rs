//! Conversions of script values into the types of this library.
//!
//! The scripting runtime's values never enter the library. The program
//! around it reads from a value what a conversion needs, which is its type
//! and, for a window handle, the identity it carries, and hands that over.

use vstd::prelude::*;
use crate::event::LuaWindowId;

verus! {

/// The types of script values, as the runtime names them.
#[derive(Clone, Copy, Debug, PartialEq, Eq, Structural)]
pub enum LuaType {
    Nil,
    Boolean,
    LightUserData,
    Integer,
    Number,
    Vector,
    String,
    Table,
    Function,
    Thread,
    UserData,
    Buffer,
    Error,
}

impl LuaType {
    /// The runtime's name of the type.
    pub open spec fn name(self) -> Seq<char> {
        match self {
            LuaType::Nil => "nil"@,
            LuaType::Boolean => "boolean"@,
            LuaType::LightUserData => "lightuserdata"@,
            LuaType::Integer => "integer"@,
            LuaType::Number => "number"@,
            LuaType::Vector => "vector"@,
            LuaType::String => "string"@,
            LuaType::Table => "table"@,
            LuaType::Function => "function"@,
            LuaType::Thread => "thread"@,
            LuaType::UserData => "userdata"@,
            LuaType::Buffer => "buffer"@,
            LuaType::Error => "error"@,
        }
    }

    /// Whether values of the type are userdata objects. Buffers are.
    pub open spec fn holds_userdata(self) -> bool {
        self is UserData || self is Buffer
    }

    /// The runtime's name of the type.
    pub fn as_str(self) -> (name: &'static str)
        ensures
            name@ == self.name(),
    {
        match self {
            LuaType::Nil => "nil",
            LuaType::Boolean => "boolean",
            LuaType::LightUserData => "lightuserdata",
            LuaType::Integer => "integer",
            LuaType::Number => "number",
            LuaType::Vector => "vector",
            LuaType::String => "string",
            LuaType::Table => "table",
            LuaType::Function => "function",
            LuaType::Thread => "thread",
            LuaType::UserData => "userdata",
            LuaType::Buffer => "buffer",
            LuaType::Error => "error",
        }
    }

    /// Whether values of the type are userdata objects.
    pub fn is_userdata(self) -> (held: bool)
        ensures
            held == self.holds_userdata(),
    {
        match self {
            LuaType::UserData | LuaType::Buffer => true,
            _ => false,
        }
    }
}

/// What a conversion was asked to produce.
#[derive(Clone, Copy, Debug, PartialEq, Eq, Structural)]
pub enum ConversionTarget {
    /// A window identity.
    WindowId,
    /// Any userdata object.
    UserData,
    /// A table.
    Table,
}

impl ConversionTarget {
    /// The name under which the target appears in error messages.
    pub open spec fn name(self) -> Seq<char> {
        match self {
            ConversionTarget::WindowId => "LuaWindowId"@,
            ConversionTarget::UserData => "userdata"@,
            ConversionTarget::Table => "table"@,
        }
    }

    /// The name under which the target appears in error messages.
    pub fn as_str(self) -> (name: &'static str)
        ensures
            name@ == self.name(),
    {
        match self {
            ConversionTarget::WindowId => "LuaWindowId",
            ConversionTarget::UserData => "userdata",
            ConversionTarget::Table => "table",
        }
    }
}

/// A script value that could not be converted: the type it had and what was
/// wanted of it.
#[derive(Clone, Copy, Debug, PartialEq, Eq, Structural)]
pub struct ConversionError {
    pub from: LuaType,
    pub to: ConversionTarget,
}

/// A script value offered as a window identity.
#[derive(Clone, Copy, Debug, PartialEq, Eq, Structural)]
pub enum IdentityValue {
    /// A userdata object that carries this window identity.
    WindowId(LuaWindowId),
    /// Any other value, of this type.
    Other(LuaType),
}

impl LuaWindowId {
    /// What [`LuaWindowId::from_lua`] makes of `value`.
    pub open spec fn converted(value: IdentityValue) -> Result<LuaWindowId, ConversionError> {
        match value {
            IdentityValue::WindowId(identity) => Ok(identity),
            IdentityValue::Other(from) => if from.holds_userdata() {
                Err(ConversionError { from, to: ConversionTarget::WindowId })
            } else {
                Err(ConversionError { from, to: ConversionTarget::UserData })
            },
        }
    }

    /// Converts a script value into a window identity.
    ///
    /// Only a userdata object that carries an identity converts. A userdata
    /// object of another kind is reported as not being a window identity, a
    /// value of any other type as not being userdata at all.
    pub fn from_lua(value: IdentityValue) -> (converted: Result<LuaWindowId, ConversionError>)
        ensures
            converted == LuaWindowId::converted(value),
    {
        match value {
            IdentityValue::WindowId(identity) => Ok(identity),
            IdentityValue::Other(from) => {
                if from.is_userdata() {
                    Err(ConversionError { from, to: ConversionTarget::WindowId })
                } else {
                    Err(ConversionError { from, to: ConversionTarget::UserData })
                }
            },
        }
    }

    /// Whether two handles name the same window.
    pub fn same_window(&self, other: &LuaWindowId) -> (same: bool)
        ensures
            same == (self.0 == other.0),
    {
        self.0 == other.0
    }
}

} // verus!
