//! The default-output-device-changed notification registry.
//!
//! The OS delivers change notifications for the watched property through a
//! fixed native trampoline. This module keeps the bookkeeping that trampoline
//! and the registration calls need: one replaceable callback slot, moved
//! between its empty and filled states only by `register` and `unregister`,
//! and read by `deliver`. The native add-listener and remove-listener calls
//! happen outside; their status codes are handed in, and the slot changes
//! only when the native side reported success. A registry is an explicit
//! value owned by the application, not process-wide state.

use crate::aopa::AudioObjPropAddress;
use crate::devices::AudioDevice;
use crate::error::Error;
use crate::mscope::{AudioObjPropScope, PropertyScope};
use crate::mselector::{AudioHwPropSelector, PropertySelector};
use vstd::prelude::*;

verus! {

/// The watched property: the default-output-device selector at global scope,
/// master element.
pub open spec fn watched_addr_spec() -> AudioObjPropAddress {
    AudioObjPropAddress {
        select: PropertySelector::Hardware(AudioHwPropSelector::DefaultOutputDevice),
        scope: PropertyScope::Object(AudioObjPropScope::Global),
        element: 0u32,
    }
}

/// The address the native listener is registered under.
pub fn watched_address() -> (r: AudioObjPropAddress)
    ensures
        r == watched_addr_spec(),
{
    let r = AudioObjPropAddress::new(
        PropertySelector::hw_default_output_dev(),
        PropertyScope::obj_global(),
    );
    proof {
        assert(r == watched_addr_spec());
    }
    r
}

/// The registry for default-output-device-changed notifications: at most one
/// stored callback, replaced last-write-wins by a successful `register`.
pub struct OutputChangedRegistry<F: Fn(AudioDevice)> {
    pub slot: Option<F>,
}

impl<F: Fn(AudioDevice)> OutputChangedRegistry<F> {
    /// A stored callback accepts every device snapshot, so `deliver` may
    /// invoke it on whatever the trampoline resolved.
    pub open spec fn wf(&self) -> bool {
        match self.slot {
            Some(f) => forall|d: AudioDevice| call_requires(f, (d,)),
            None => true,
        }
    }

    /// Whether a callback is currently stored.
    pub open spec fn is_registered_spec(&self) -> bool {
        self.slot is Some
    }

    /// A fresh registry in the unregistered state.
    pub fn new() -> (r: OutputChangedRegistry<F>)
        ensures
            r.slot is None,
            r.wf(),
    {
        OutputChangedRegistry { slot: None }
    }

    pub fn is_registered(&self) -> (r: bool)
        ensures
            r == self.is_registered_spec(),
    {
        self.slot.is_some()
    }

    /// Record the outcome of a native add-listener call. On success the
    /// callback is stored, replacing any earlier one, last write wins; on a
    /// non-zero status nothing changes and the failure is reported.
    pub fn register(&mut self, callback: F, status: i32) -> (r: Result<(), Error>)
        requires
            old(self).wf(),
            forall|d: AudioDevice| #[trigger] call_requires(callback, (d,)),
        ensures
            final(self).wf(),
            status == 0 ==> r == Ok::<(), Error>(()) && final(self).slot == Some(callback),
            status != 0 ==> r == Err::<(), Error>(Error::CallbackRegister) && final(self).slot
                == old(self).slot,
    {
        if status != 0 {
            return Err(Error::CallbackRegister);
        }
        self.slot = Some(callback);
        Ok(())
    }

    /// Record the outcome of a native remove-listener call. On success the
    /// stored callback is cleared; on a non-zero status it is left in place,
    /// since clearing happens only after a successful native removal.
    pub fn unregister(&mut self, status: i32) -> (r: Result<(), Error>)
        requires
            old(self).wf(),
        ensures
            final(self).wf(),
            status == 0 ==> r == Ok::<(), Error>(()) && final(self).slot is None,
            status != 0 ==> r == Err::<(), Error>(Error::CallbackRegister) && final(self).slot
                == old(self).slot,
    {
        if status != 0 {
            return Err(Error::CallbackRegister);
        }
        self.slot = None;
        Ok(())
    }

    /// Deliver one notification: invoke the stored callback on the resolved
    /// device snapshot, synchronously, on the calling thread. A notification
    /// whose snapshot could not be resolved (`None`) is dropped rather than
    /// aborting anything, and nothing is invoked without a stored callback.
    /// Returns whether the callback was invoked.
    pub fn deliver(&self, snapshot: Option<AudioDevice>) -> (delivered: bool)
        requires
            self.wf(),
        ensures
            delivered == (self.is_registered_spec() && snapshot is Some),
    {
        match snapshot {
            Some(dev) => match &self.slot {
                Some(f) => {
                    f(dev);
                    true
                },
                None => false,
            },
            None => false,
        }
    }
}

} // verus!
