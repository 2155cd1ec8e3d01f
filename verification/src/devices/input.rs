//! The input-device view: a device regarded as an input.

use super::AudioDevice;
use vstd::prelude::*;

verus! {

/// A device regarded as an input device.
#[derive(Debug)]
pub struct AudioInputDevice {
    pub device: AudioDevice,
}

impl AudioInputDevice {
    pub fn new(device: AudioDevice) -> (r: AudioInputDevice)
        ensures
            r.device == device,
    {
        AudioInputDevice { device }
    }

    /// The underlying device.
    pub fn device(&self) -> (r: &AudioDevice)
        ensures
            r == self.device,
    {
        &self.device
    }
}

} // verus!
