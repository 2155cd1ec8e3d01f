//! The closed taxonomy of property scopes and their OS numeric codes.
//!
//! A scope names the signal path an attribute applies to. Device-level
//! properties use an input, output or play-through scope; object-level
//! properties use the global scope. The mapping to numeric codes is one
//! directional: the system always knows which scope it asked about, so the
//! codes are never decoded coming back from the OS.

use vstd::prelude::*;

verus! {

/// Scope of a device-level property: which signal path it applies to.
#[derive(Debug, Clone, Copy, PartialEq, Eq, Structural, PartialOrd, Ord, Hash)]
pub enum AudioDevPropScope {
    Input,
    Output,
    PlayThrough,
}

impl AudioDevPropScope {
    /// The OS numeric code of this scope (the four-character codes
    /// `inpt`, `outp` and `ptru`).
    pub open spec fn code_spec(self) -> u32 {
        match self {
            AudioDevPropScope::Input => 0x696E7074u32,
            AudioDevPropScope::Output => 0x6F757470u32,
            AudioDevPropScope::PlayThrough => 0x70747275u32,
        }
    }

    pub fn code(self) -> (r: u32)
        ensures
            r == self.code_spec(),
    {
        match self {
            AudioDevPropScope::Input => 0x696E7074u32,
            AudioDevPropScope::Output => 0x6F757470u32,
            AudioDevPropScope::PlayThrough => 0x70747275u32,
        }
    }
}

/// Scope of an object-level property; only the global scope exists.
#[derive(Debug, Clone, Copy, PartialEq, Eq, Structural, PartialOrd, Ord, Hash)]
pub enum AudioObjPropScope {
    Global,
}

impl AudioObjPropScope {
    /// The OS numeric code of this scope (the four-character code `glob`).
    pub open spec fn code_spec(self) -> u32 {
        match self {
            AudioObjPropScope::Global => 0x676C6F62u32,
        }
    }

    pub fn code(self) -> (r: u32)
        ensures
            r == self.code_spec(),
    {
        match self {
            AudioObjPropScope::Global => 0x676C6F62u32,
        }
    }
}

/// Either kind of scope, as stored in a property address.
#[derive(Debug, Clone, Copy, PartialEq, Eq, Structural, PartialOrd, Ord, Hash)]
pub enum PropertyScope {
    Device(AudioDevPropScope),
    Object(AudioObjPropScope),
}

impl PropertyScope {
    /// The OS numeric code of this scope.
    pub open spec fn code_spec(self) -> u32 {
        match self {
            PropertyScope::Device(dev) => dev.code_spec(),
            PropertyScope::Object(obj) => obj.code_spec(),
        }
    }

    pub fn code(self) -> (r: u32)
        ensures
            r == self.code_spec(),
    {
        match self {
            PropertyScope::Device(dev) => dev.code(),
            PropertyScope::Object(obj) => obj.code(),
        }
    }

    /// The scope carrying the given OS code, if any; the inverse of
    /// `code_spec`.
    pub open spec fn from_code_spec(code: u32) -> Option<PropertyScope> {
        if code == 0x696E7074u32 {
            Some(PropertyScope::Device(AudioDevPropScope::Input))
        } else if code == 0x6F757470u32 {
            Some(PropertyScope::Device(AudioDevPropScope::Output))
        } else if code == 0x70747275u32 {
            Some(PropertyScope::Device(AudioDevPropScope::PlayThrough))
        } else if code == 0x676C6F62u32 {
            Some(PropertyScope::Object(AudioObjPropScope::Global))
        } else {
            None
        }
    }

    pub fn from_code(code: u32) -> (r: Option<PropertyScope>)
        ensures
            r == Self::from_code_spec(code),
    {
        if code == 0x696E7074u32 {
            Some(PropertyScope::Device(AudioDevPropScope::Input))
        } else if code == 0x6F757470u32 {
            Some(PropertyScope::Device(AudioDevPropScope::Output))
        } else if code == 0x70747275u32 {
            Some(PropertyScope::Device(AudioDevPropScope::PlayThrough))
        } else if code == 0x676C6F62u32 {
            Some(PropertyScope::Object(AudioObjPropScope::Global))
        } else {
            None
        }
    }

    /// Shorthand for the device input scope.
    pub fn dev_input() -> (r: Self)
        ensures
            r == PropertyScope::Device(AudioDevPropScope::Input),
    {
        PropertyScope::Device(AudioDevPropScope::Input)
    }

    /// Shorthand for the device output scope.
    pub fn dev_output() -> (r: Self)
        ensures
            r == PropertyScope::Device(AudioDevPropScope::Output),
    {
        PropertyScope::Device(AudioDevPropScope::Output)
    }

    /// Shorthand for the object global scope.
    pub fn obj_global() -> (r: Self)
        ensures
            r == PropertyScope::Object(AudioObjPropScope::Global),
    {
        PropertyScope::Object(AudioObjPropScope::Global)
    }
}

/// Every scope's code decodes back to that scope: the code mapping loses
/// nothing.
pub proof fn lemma_scope_code_round_trip(scope: PropertyScope)
    ensures
        PropertyScope::from_code_spec(scope.code_spec()) == Some(scope),
{
}

} // verus!
