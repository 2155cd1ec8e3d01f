//! The device model: an audio object identifier together with the attributes
//! introspected at construction time.
//!
//! A device is assembled from plain values that the marshaling layer decoded:
//! its name, its per-direction channel lists, and its per-direction stream
//! counts. The identifier is the opaque integer handle the OS assigned to
//! the device; it is stable while the device stays attached, not across
//! reboots or reattachment.

pub mod input;
pub mod output;

use crate::error::Error;
use vstd::prelude::*;

pub use output::AudioOutputDevice;

verus! {

/// An audio device and its introspected attributes.
#[derive(Debug)]
pub struct AudioDevice {
    pub device_id: u32,
    pub name: String,
    pub input_channels: Vec<u32>,
    pub output_channels: Vec<u32>,
    pub input_streams: u32,
    pub output_streams: u32,
}

impl AudioDevice {
    /// Assemble a device from its identifier and the attributes fetched for
    /// it: the name, the valid channel lists discovered per direction, and
    /// the stream counts per direction.
    pub fn from_parts(
        device_id: u32,
        name: String,
        input_channels: Vec<u32>,
        output_channels: Vec<u32>,
        input_streams: u32,
        output_streams: u32,
    ) -> (r: AudioDevice)
        ensures
            r.device_id == device_id,
            r.name@ == name@,
            r.input_channels@ == input_channels@,
            r.output_channels@ == output_channels@,
            r.input_streams == input_streams,
            r.output_streams == output_streams,
    {
        AudioDevice { device_id, name, input_channels, output_channels, input_streams, output_streams }
    }

    pub fn id(&self) -> (r: u32)
        ensures
            r == self.device_id,
    {
        self.device_id
    }

    pub fn name(&self) -> (r: &str)
        ensures
            r@ == self.name@,
    {
        self.name.as_str()
    }

    pub fn input_channels(&self) -> (r: &[u32])
        ensures
            r@ == self.input_channels@,
    {
        self.input_channels.as_slice()
    }

    pub fn output_channels(&self) -> (r: &[u32])
        ensures
            r@ == self.output_channels@,
    {
        self.output_channels.as_slice()
    }

    /// Whether the device has at least one discovered input channel.
    pub fn is_input(&self) -> (r: bool)
        ensures
            r == (self.input_channels@.len() > 0),
    {
        self.input_channels.len() > 0
    }

    /// Whether the device has at least one discovered output channel. This
    /// is the condition `as_output` checks; `AudioOutputDevice::with_id`
    /// instead asks for an output stream count of at least one, and the two
    /// can disagree for devices that expose streams but no discoverable
    /// channels.
    pub fn is_output(&self) -> (r: bool)
        ensures
            r == (self.output_channels@.len() > 0),
    {
        self.output_channels.len() > 0
    }

    /// Whether the device has discovered channels in both directions.
    pub fn is_multi(&self) -> (r: bool)
        ensures
            r == (self.input_channels@.len() > 0 && self.output_channels@.len() > 0),
    {
        self.input_channels.len() > 0 && self.output_channels.len() > 0
    }

    pub fn input_streams(&self) -> (r: u32)
        ensures
            r == self.input_streams,
    {
        self.input_streams
    }

    pub fn output_streams(&self) -> (r: u32)
        ensures
            r == self.output_streams,
    {
        self.output_streams
    }

    /// Refine this device into its output view, which carries the output
    /// channel list as the valid channels. Fails exactly when the device has
    /// no discovered output channel.
    pub fn as_output(self) -> (r: Option<AudioOutputDevice>)
        ensures
            match r {
                Some(out) => {
                    &&& self.output_channels@.len() > 0
                    &&& out.device_id == self.device_id
                    &&& out.valid_channels@ == self.output_channels@
                    &&& out.name@ == self.name@
                },
                None => self.output_channels@.len() == 0,
            },
    {
        if self.output_channels.len() == 0 {
            return None;
        }
        Some(
            AudioOutputDevice {
                device_id: self.device_id,
                valid_channels: self.output_channels,
                name: self.name,
            },
        )
    }
}

} // verus!
