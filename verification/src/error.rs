//! The error type shared by every fallible operation of this crate.

use vstd::prelude::*;

verus! {

/// Everything that can go wrong when accessing the property store.
///
/// Volumes are carried as integer millionths of full scale, so the rejected
/// level in `InvalidVolume` is reported in that unit.
#[derive(Debug, Clone, Copy, PartialEq, Eq, Structural)]
pub enum Error {
    /// A raw call returned this non-zero OS status code, surfaced verbatim.
    Raw(i32),
    /// Fetched name bytes were not valid UTF-8.
    Utf8Error,
    /// A set-volume request lay outside the accepted range.
    InvalidVolume(i64),
    /// A size or count did not fit the required integer width.
    IntConversion,
    /// A scope or selector combination was structurally invalid for the
    /// requested operation.
    UnexpectedParam,
    /// A device-to-output-device refinement was attempted on a device that
    /// lacks output capability.
    NotOutput,
    /// The device with this identifier could not be classified as input or
    /// output.
    UnknownDeviceType(u32),
    /// Listener registration or removal reported failure.
    CallbackRegister,
}

impl Error {
    /// A short fixed description of the error kind, without its payload.
    pub fn kind_message(&self) -> (r: &'static str)
        ensures
            r@ == self.kind_message_spec(),
    {
        match self {
            Error::Raw(_) => "OS call returned a non-zero status code",
            Error::Utf8Error => "failed to parse UTF-8 bytes",
            Error::InvalidVolume(_) => "invalid scalar volume value",
            Error::IntConversion => "failed to convert integer values",
            Error::UnexpectedParam => "unexpected parameter",
            Error::NotOutput => "device is not output capable",
            Error::UnknownDeviceType(_) => "unable to determine device type",
            Error::CallbackRegister => "callback registration failed",
        }
    }

    /// What `kind_message` returns for each error kind.
    pub open spec fn kind_message_spec(self) -> Seq<char> {
        match self {
            Error::Raw(_) => "OS call returned a non-zero status code"@,
            Error::Utf8Error => "failed to parse UTF-8 bytes"@,
            Error::InvalidVolume(_) => "invalid scalar volume value"@,
            Error::IntConversion => "failed to convert integer values"@,
            Error::UnexpectedParam => "unexpected parameter"@,
            Error::NotOutput => "device is not output capable"@,
            Error::UnknownDeviceType(_) => "unable to determine device type"@,
            Error::CallbackRegister => "callback registration failed"@,
        }
    }
}

} // verus!
