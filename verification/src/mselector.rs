//! The closed taxonomy of property selectors and their OS numeric codes.
//!
//! A selector names which attribute of an audio object is addressed. The
//! device-level selectors cover the per-device attributes this system reads
//! and writes; the hardware-level selectors cover the system-object
//! indirections (default devices, the device list). The taxonomy is closed:
//! no constructor accepts an unrecognized code.

use vstd::prelude::*;

verus! {

/// Selector of a device-level property.
#[derive(Debug, Clone, Copy, PartialEq, Eq, Structural, PartialOrd, Ord, Hash)]
pub enum AudioDevPropSelector {
    VolumeScalar,
    Mute,
    Name,
    Streams,
}

impl AudioDevPropSelector {
    /// The OS numeric code of this selector (the four-character codes
    /// `volm`, `mute`, `name` and `stm#`).
    pub open spec fn code_spec(self) -> u32 {
        match self {
            AudioDevPropSelector::VolumeScalar => 0x766F6C6Du32,
            AudioDevPropSelector::Mute => 0x6D757465u32,
            AudioDevPropSelector::Name => 0x6E616D65u32,
            AudioDevPropSelector::Streams => 0x73746D23u32,
        }
    }

    pub fn code(self) -> (r: u32)
        ensures
            r == self.code_spec(),
    {
        match self {
            AudioDevPropSelector::VolumeScalar => 0x766F6C6Du32,
            AudioDevPropSelector::Mute => 0x6D757465u32,
            AudioDevPropSelector::Name => 0x6E616D65u32,
            AudioDevPropSelector::Streams => 0x73746D23u32,
        }
    }
}

/// Selector of a hardware-level (system object) property.
#[derive(Debug, Clone, Copy, PartialEq, Eq, Structural, PartialOrd, Ord, Hash)]
pub enum AudioHwPropSelector {
    DefaultInputDevice,
    DefaultOutputDevice,
    Devices,
}

impl AudioHwPropSelector {
    /// The OS numeric code of this selector (the four-character codes
    /// `dIn `, `dOut` and `dev#`).
    pub open spec fn code_spec(self) -> u32 {
        match self {
            AudioHwPropSelector::DefaultInputDevice => 0x64496E20u32,
            AudioHwPropSelector::DefaultOutputDevice => 0x644F7574u32,
            AudioHwPropSelector::Devices => 0x64657623u32,
        }
    }

    pub fn code(self) -> (r: u32)
        ensures
            r == self.code_spec(),
    {
        match self {
            AudioHwPropSelector::DefaultInputDevice => 0x64496E20u32,
            AudioHwPropSelector::DefaultOutputDevice => 0x644F7574u32,
            AudioHwPropSelector::Devices => 0x64657623u32,
        }
    }
}

/// Either kind of selector, as stored in a property address.
#[derive(Debug, Clone, Copy, PartialEq, Eq, Structural, PartialOrd, Ord, Hash)]
pub enum PropertySelector {
    Device(AudioDevPropSelector),
    Hardware(AudioHwPropSelector),
}

impl PropertySelector {
    /// The OS numeric code of this selector.
    pub open spec fn code_spec(self) -> u32 {
        match self {
            PropertySelector::Device(dev) => dev.code_spec(),
            PropertySelector::Hardware(hw) => hw.code_spec(),
        }
    }

    pub fn code(self) -> (r: u32)
        ensures
            r == self.code_spec(),
    {
        match self {
            PropertySelector::Device(dev) => dev.code(),
            PropertySelector::Hardware(hw) => hw.code(),
        }
    }

    /// The selector carrying the given OS code, if any; the inverse of
    /// `code_spec`.
    pub open spec fn from_code_spec(code: u32) -> Option<PropertySelector> {
        if code == 0x766F6C6Du32 {
            Some(PropertySelector::Device(AudioDevPropSelector::VolumeScalar))
        } else if code == 0x6D757465u32 {
            Some(PropertySelector::Device(AudioDevPropSelector::Mute))
        } else if code == 0x6E616D65u32 {
            Some(PropertySelector::Device(AudioDevPropSelector::Name))
        } else if code == 0x73746D23u32 {
            Some(PropertySelector::Device(AudioDevPropSelector::Streams))
        } else if code == 0x64496E20u32 {
            Some(PropertySelector::Hardware(AudioHwPropSelector::DefaultInputDevice))
        } else if code == 0x644F7574u32 {
            Some(PropertySelector::Hardware(AudioHwPropSelector::DefaultOutputDevice))
        } else if code == 0x64657623u32 {
            Some(PropertySelector::Hardware(AudioHwPropSelector::Devices))
        } else {
            None
        }
    }

    pub fn from_code(code: u32) -> (r: Option<PropertySelector>)
        ensures
            r == Self::from_code_spec(code),
    {
        if code == 0x766F6C6Du32 {
            Some(PropertySelector::Device(AudioDevPropSelector::VolumeScalar))
        } else if code == 0x6D757465u32 {
            Some(PropertySelector::Device(AudioDevPropSelector::Mute))
        } else if code == 0x6E616D65u32 {
            Some(PropertySelector::Device(AudioDevPropSelector::Name))
        } else if code == 0x73746D23u32 {
            Some(PropertySelector::Device(AudioDevPropSelector::Streams))
        } else if code == 0x64496E20u32 {
            Some(PropertySelector::Hardware(AudioHwPropSelector::DefaultInputDevice))
        } else if code == 0x644F7574u32 {
            Some(PropertySelector::Hardware(AudioHwPropSelector::DefaultOutputDevice))
        } else if code == 0x64657623u32 {
            Some(PropertySelector::Hardware(AudioHwPropSelector::Devices))
        } else {
            None
        }
    }

    /// Shorthand for the device volume-scalar selector.
    pub fn dev_volume_scalar() -> (r: Self)
        ensures
            r == PropertySelector::Device(AudioDevPropSelector::VolumeScalar),
    {
        PropertySelector::Device(AudioDevPropSelector::VolumeScalar)
    }

    /// Shorthand for the device mute selector.
    pub fn dev_mute() -> (r: Self)
        ensures
            r == PropertySelector::Device(AudioDevPropSelector::Mute),
    {
        PropertySelector::Device(AudioDevPropSelector::Mute)
    }

    /// Shorthand for the device name selector.
    pub fn dev_name() -> (r: Self)
        ensures
            r == PropertySelector::Device(AudioDevPropSelector::Name),
    {
        PropertySelector::Device(AudioDevPropSelector::Name)
    }

    /// Shorthand for the device streams selector.
    pub fn dev_streams() -> (r: Self)
        ensures
            r == PropertySelector::Device(AudioDevPropSelector::Streams),
    {
        PropertySelector::Device(AudioDevPropSelector::Streams)
    }

    /// Shorthand for the hardware default-input-device selector.
    pub fn hw_default_input_dev() -> (r: Self)
        ensures
            r == PropertySelector::Hardware(AudioHwPropSelector::DefaultInputDevice),
    {
        PropertySelector::Hardware(AudioHwPropSelector::DefaultInputDevice)
    }

    /// Shorthand for the hardware default-output-device selector.
    pub fn hw_default_output_dev() -> (r: Self)
        ensures
            r == PropertySelector::Hardware(AudioHwPropSelector::DefaultOutputDevice),
    {
        PropertySelector::Hardware(AudioHwPropSelector::DefaultOutputDevice)
    }

    /// Shorthand for the hardware all-devices selector.
    pub fn hw_all_devices() -> (r: Self)
        ensures
            r == PropertySelector::Hardware(AudioHwPropSelector::Devices),
    {
        PropertySelector::Hardware(AudioHwPropSelector::Devices)
    }
}

/// Every selector's code decodes back to that selector: the code mapping
/// loses nothing.
pub proof fn lemma_selector_code_round_trip(selector: PropertySelector)
    ensures
        PropertySelector::from_code_spec(selector.code_spec()) == Some(selector),
{
}

} // verus!
