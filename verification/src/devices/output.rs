//! The output-device view and the per-device read and write policies.
//!
//! An `AudioOutputDevice` is a device validated as output capable at
//! construction, carrying the discovered output channel list. Its operations
//! take the one raw store call they need as a caller-supplied function
//! (reading or writing one property under an address this module computes),
//! and their contracts state exactly which addresses are touched, in which
//! order the per-channel sweep proceeds, and how the result follows from the
//! raw outcomes.
//!
//! Volumes are carried as integer millionths of full scale: full volume is
//! 1_000_000 and silence is 0.

use crate::aopa::AudioObjPropAddress;
use crate::error::Error;
use crate::internals::volume_addr_spec;
use crate::mscope::{AudioDevPropScope, PropertyScope};
use crate::mselector::{AudioDevPropSelector, AudioHwPropSelector, PropertySelector};
use vstd::prelude::*;

verus! {

/// Full scale in the integer volume unit: one million millionths.
pub const VOLUME_FULL_SCALE: i64 = 1000000;

/// The scope every output-device property access uses.
pub open spec fn out_scope() -> PropertyScope {
    PropertyScope::Device(AudioDevPropScope::Output)
}

/// The address of one element's mute flag in the output scope.
pub open spec fn mute_addr_spec(element: u32) -> AudioObjPropAddress {
    AudioObjPropAddress {
        select: PropertySelector::Device(AudioDevPropSelector::Mute),
        scope: out_scope(),
        element,
    }
}

/// The address of one element's volume scalar in the output scope.
pub open spec fn out_volume_addr_spec(element: u32) -> AudioObjPropAddress {
    volume_addr_spec(out_scope(), element)
}

/// The address of the default-output-device indirection property.
pub open spec fn default_out_addr_spec() -> AudioObjPropAddress {
    AudioObjPropAddress {
        select: PropertySelector::Hardware(AudioHwPropSelector::DefaultOutputDevice),
        scope: out_scope(),
        element: 0u32,
    }
}

/// The raw value a mute request writes: 1 to mute, 0 to unmute.
pub open spec fn mute_value_spec(mute: bool) -> u32 {
    if mute {
        1u32
    } else {
        0u32
    }
}

/// The write of `value` to channel `chans[i]`'s mute flag succeeded: some
/// successful outcome of `write` at that address exists.
pub open spec fn mute_write_ok_at<F: Fn(AudioObjPropAddress, u32) -> Result<(), Error>>(
    write: F,
    chans: Seq<u32>,
    value: u32,
    i: int,
) -> bool {
    exists|out: Result<(), Error>|
        #[trigger] call_ensures(write, (mute_addr_spec(chans[i]), value), out) && out is Ok
}

/// Every write of `value` to the mute flag of `chans[i]` for `i` below `j`
/// succeeded.
pub open spec fn mute_writes_ok_upto<F: Fn(AudioObjPropAddress, u32) -> Result<(), Error>>(
    write: F,
    chans: Seq<u32>,
    value: u32,
    j: int,
) -> bool {
    forall|i: int| 0 <= i < j ==> #[trigger] mute_write_ok_at(write, chans, value, i)
}

/// A mute sweep of `value` over `chans` failed first at channel index `j`
/// with `e`: every earlier write succeeded and the write at `j` returned `e`.
pub open spec fn mute_sweep_failed_at<F: Fn(AudioObjPropAddress, u32) -> Result<(), Error>>(
    write: F,
    chans: Seq<u32>,
    value: u32,
    j: int,
    e: Error,
) -> bool {
    &&& 0 <= j < chans.len()
    &&& mute_writes_ok_upto(write, chans, value, j)
    &&& call_ensures(write, (mute_addr_spec(chans[j]), value), Err::<(), Error>(e))
}

/// The write of `value` to channel `chans[i]`'s volume scalar succeeded:
/// some successful outcome of `write` at that address exists.
pub open spec fn volume_write_ok_at<F: Fn(AudioObjPropAddress, u32) -> Result<(), Error>>(
    write: F,
    chans: Seq<u32>,
    value: u32,
    i: int,
) -> bool {
    exists|out: Result<(), Error>|
        #[trigger] call_ensures(write, (out_volume_addr_spec(chans[i]), value), out) && out is Ok
}

/// Every write of `value` to the volume scalar of `chans[i]` for `i` below
/// `j` succeeded.
pub open spec fn volume_writes_ok_upto<F: Fn(AudioObjPropAddress, u32) -> Result<(), Error>>(
    write: F,
    chans: Seq<u32>,
    value: u32,
    j: int,
) -> bool {
    forall|i: int| 0 <= i < j ==> #[trigger] volume_write_ok_at(write, chans, value, i)
}

/// A volume sweep of `value` over `chans` failed first at channel index `j`
/// with `e`: every earlier write succeeded and the write at `j` returned `e`.
pub open spec fn volume_sweep_failed_at<F: Fn(AudioObjPropAddress, u32) -> Result<(), Error>>(
    write: F,
    chans: Seq<u32>,
    value: u32,
    j: int,
    e: Error,
) -> bool {
    &&& 0 <= j < chans.len()
    &&& volume_writes_ok_upto(write, chans, value, j)
    &&& call_ensures(write, (out_volume_addr_spec(chans[j]), value), Err::<(), Error>(e))
}

/// The sum of a sequence of volume readings.
pub open spec fn sum_micros(s: Seq<u32>) -> int
    decreases s.len(),
{
    if s.len() == 0 {
        0
    } else {
        sum_micros(s.drop_last()) + s.last()
    }
}

/// The sum of volume readings is bounded by the count of readings times the
/// largest representable reading.
pub proof fn lemma_sum_micros_bound(s: Seq<u32>)
    ensures
        0 <= sum_micros(s) <= s.len() * (u32::MAX as int),
    decreases s.len(),
{
    if s.len() > 0 {
        lemma_sum_micros_bound(s.drop_last());
    }
}

/// `vols` are per-channel readings `fetch` can produce for `chans`, one per
/// channel in order, and `avg` is their arithmetic mean.
pub open spec fn avg_reading_ok<F: Fn(AudioObjPropAddress) -> Result<u32, Error>>(
    fetch: F,
    chans: Seq<u32>,
    vols: Seq<u32>,
    avg: u32,
) -> bool {
    &&& vols.len() == chans.len()
    &&& forall|i: int|
        0 <= i < vols.len() ==> call_ensures(
            fetch,
            (out_volume_addr_spec(chans[i]),),
            Ok::<u32, Error>(#[trigger] vols[i]),
        )
    &&& avg == sum_micros(vols) / vols.len() as int
}

/// Collecting per-channel readings failed first at channel index `j` with
/// `e`: `vols` are successful readings for every earlier channel, and the
/// fetch at `j` returned `e`.
pub open spec fn avg_failed_at<F: Fn(AudioObjPropAddress) -> Result<u32, Error>>(
    fetch: F,
    chans: Seq<u32>,
    j: int,
    vols: Seq<u32>,
    e: Error,
) -> bool {
    &&& 0 <= j < chans.len()
    &&& vols.len() == j
    &&& forall|i: int|
        0 <= i < j ==> call_ensures(
            fetch,
            (out_volume_addr_spec(chans[i]),),
            Ok::<u32, Error>(#[trigger] vols[i]),
        )
    &&& call_ensures(fetch, (out_volume_addr_spec(chans[j]),), Err::<u32, Error>(e))
}

/// A device validated as output capable, carrying its discovered output
/// channels.
#[derive(Debug)]
pub struct AudioOutputDevice {
    pub device_id: u32,
    pub valid_channels: Vec<u32>,
    pub name: String,
}

impl AudioOutputDevice {
    /// Build the output view of a device from its identifier and the
    /// attributes fetched for it. Output capability is judged by the output
    /// stream count: construction fails with `NotOutput` exactly when it is
    /// zero. (The `AudioDevice::as_output` refinement instead checks the
    /// discovered channel list; the two can disagree for devices exposing
    /// streams but no discoverable channels.)
    pub fn with_id(id: u32, output_streams: u32, valid_channels: Vec<u32>, name: String) -> (r:
        Result<AudioOutputDevice, Error>)
        ensures
            output_streams == 0 ==> r == Err::<AudioOutputDevice, Error>(Error::NotOutput),
            output_streams >= 1 ==> match r {
                Ok(d) => {
                    &&& d.device_id == id
                    &&& d.valid_channels@ == valid_channels@
                    &&& d.name@ == name@
                },
                Err(_) => false,
            },
    {
        if output_streams < 1 {
            return Err(Error::NotOutput);
        }
        Ok(AudioOutputDevice { device_id: id, valid_channels, name })
    }

    /// The discovered output channel elements.
    pub fn channels(&self) -> (r: &[u32])
        ensures
            r@ == self.valid_channels@,
    {
        self.valid_channels.as_slice()
    }

    pub fn name(&self) -> (r: &str)
        ensures
            r@ == self.name@,
    {
        self.name.as_str()
    }

    pub fn id(&self) -> (r: u32)
        ensures
            r == self.device_id,
    {
        self.device_id
    }

    /// Whether the device is muted: the master element's mute flag reads as
    /// exactly 1. Any other fetched value, zero, negative or larger, means
    /// not muted. `fetch` performs one raw fixed-size read of the mute flag.
    pub fn muted<F: Fn(AudioObjPropAddress) -> Result<i32, Error>>(&self, fetch: F) -> (r: Result<
        bool,
        Error,
    >)
        requires
            forall|a: AudioObjPropAddress| #[trigger] call_requires(fetch, (a,)),
        ensures
            exists|out: Result<i32, Error>|
                #[trigger] call_ensures(fetch, (mute_addr_spec(0u32),), out) && (match out {
                    Ok(raw) => r == Ok::<bool, Error>(raw == 1),
                    Err(e) => r == Err::<bool, Error>(e),
                }),
    {
        let address = AudioObjPropAddress::new(PropertySelector::dev_mute(), PropertyScope::dev_output());
        match fetch(address) {
            Ok(raw) => Ok(raw == 1),
            Err(e) => Err(e),
        }
    }

    /// One channel's volume, in millionths of full scale. `fetch` performs
    /// one raw fixed-size read of the volume scalar at the element this
    /// function addresses.
    pub fn volume_for_channel<F: Fn(AudioObjPropAddress) -> Result<u32, Error>>(
        &self,
        ch: u32,
        fetch: F,
    ) -> (r: Result<u32, Error>)
        requires
            forall|a: AudioObjPropAddress| #[trigger] call_requires(fetch, (a,)),
        ensures
            exists|out: Result<u32, Error>|
                #[trigger] call_ensures(fetch, (out_volume_addr_spec(ch),), out) && r == out,
    {
        let address = AudioObjPropAddress::new_with_element(
            PropertySelector::dev_volume_scalar(),
            PropertyScope::dev_output(),
            ch,
        );
        fetch(address)
    }

    /// The arithmetic mean of all valid channels' volumes, in millionths of
    /// full scale. A device without valid channels has no mean and is
    /// rejected; a failed per-channel fetch ends the collection and is
    /// surfaced as that fetch's error.
    pub fn avg_volume<F: Fn(AudioObjPropAddress) -> Result<u32, Error>>(&self, fetch: F) -> (r:
        Result<u32, Error>)
        requires
            forall|a: AudioObjPropAddress| #[trigger] call_requires(fetch, (a,)),
        ensures
            self.valid_channels@.len() == 0 ==> r == Err::<u32, Error>(Error::UnexpectedParam),
            self.valid_channels@.len() > 0 && r is Ok ==> exists|vols: Seq<u32>, avg: u32|
                r == Ok::<u32, Error>(avg) && #[trigger] avg_reading_ok(
                    fetch,
                    self.valid_channels@,
                    vols,
                    avg,
                ),
            self.valid_channels@.len() > 0 && r is Err ==> exists|j: int, vols: Seq<u32>, e: Error|
                r == Err::<u32, Error>(e) && #[trigger] avg_failed_at(
                    fetch,
                    self.valid_channels@,
                    j,
                    vols,
                    e,
                ),
    {
        let n = self.valid_channels.len();
        if n == 0 {
            return Err(Error::UnexpectedParam);
        }
        let mut sum: u128 = 0;
        let mut i: usize = 0;
        let ghost mut vols: Seq<u32> = Seq::empty();
        while i < n
            invariant
                forall|a: AudioObjPropAddress| #[trigger] call_requires(fetch, (a,)),
                n == self.valid_channels@.len(),
                i <= n,
                vols.len() == i,
                sum == sum_micros(vols),
                sum <= i * (u32::MAX as int),
                forall|k: int|
                    0 <= k < i ==> call_ensures(
                        fetch,
                        (out_volume_addr_spec(self.valid_channels@[k]),),
                        Ok::<u32, Error>(#[trigger] vols[k]),
                    ),
            decreases n - i,
        {
            let ch = self.valid_channels[i];
            let address = AudioObjPropAddress::new_with_element(
                PropertySelector::dev_volume_scalar(),
                PropertyScope::dev_output(),
                ch,
            );
            match fetch(address) {
                Ok(v) => {
                    proof {
                        let prev = vols;
                        vols = vols.push(v);
                        assert(vols.drop_last() =~= prev);
                    }
                    sum = sum + v as u128;
                },
                Err(e) => {
                    proof {
                        assert(avg_failed_at(fetch, self.valid_channels@, i as int, vols, e));
                    }
                    return Err(e);
                },
            }
            i += 1;
        }
        let avg_wide: u128 = sum / (n as u128);
        proof {
            lemma_sum_micros_bound(vols);
            vstd::arithmetic::div_mod::lemma_div_is_ordered(
                sum as int,
                n as int * (u32::MAX as int),
                n as int,
            );
            vstd::arithmetic::div_mod::lemma_div_multiples_vanish(u32::MAX as int, n as int);
            assert(avg_wide <= u32::MAX);
            assert(avg_reading_ok(fetch, self.valid_channels@, vols, avg_wide as u32));
        }
        Ok(avg_wide as u32)
    }

    /// Write the mute flag (1 to mute, 0 to unmute) to every valid channel in
    /// order. If some channel's write fails, fall back to one write of the
    /// master element 0 and return that single attempt's result, abandoning
    /// the remaining channels. `write` performs one raw fixed-size write of
    /// the mute flag at the given address.
    pub fn set_mute<F: Fn(AudioObjPropAddress, u32) -> Result<(), Error>>(
        &self,
        mute: bool,
        write: F,
    ) -> (r: Result<(), Error>)
        requires
            forall|a: AudioObjPropAddress, v: u32| #[trigger] call_requires(write, (a, v)),
        ensures
            ({
                ||| (r is Ok && mute_writes_ok_upto(
                    write,
                    self.valid_channels@,
                    mute_value_spec(mute),
                    self.valid_channels@.len() as int,
                ))
                ||| (exists|j: int, e1: Error|
                    #[trigger] mute_sweep_failed_at(
                        write,
                        self.valid_channels@,
                        mute_value_spec(mute),
                        j,
                        e1,
                    ) && call_ensures(write, (mute_addr_spec(0u32), mute_value_spec(mute)), r))
            }),
    {
        let m: u32 = if mute {
            1u32
        } else {
            0u32
        };
        proof {
            assert(m == mute_value_spec(mute));
        }
        let n = self.valid_channels.len();
        let mut i: usize = 0;
        while i < n
            invariant
                forall|a: AudioObjPropAddress, v: u32| #[trigger] call_requires(write, (a, v)),
                n == self.valid_channels@.len(),
                i <= n,
                m == mute_value_spec(mute),
                mute_writes_ok_upto(write, self.valid_channels@, m, i as int),
            decreases n - i,
        {
            let ch = self.valid_channels[i];
            let address = AudioObjPropAddress::new_with_element(
                PropertySelector::dev_mute(),
                PropertyScope::dev_output(),
                ch,
            );
            proof {
                assert(address == mute_addr_spec(self.valid_channels@[i as int]));
            }
            let res = write(address, m);
            match res {
                Ok(_) => {
                    proof {
                        assert(call_ensures(
                            write,
                            (mute_addr_spec(self.valid_channels@[i as int]), m),
                            res,
                        ));
                        assert(mute_write_ok_at(write, self.valid_channels@, m, i as int));
                    }
                },
                Err(e) => {
                    proof {
                        assert(mute_sweep_failed_at(write, self.valid_channels@, m, i as int, e));
                    }
                    let master = AudioObjPropAddress::new(
                        PropertySelector::dev_mute(),
                        PropertyScope::dev_output(),
                    );
                    proof {
                        assert(master == mute_addr_spec(0u32));
                    }
                    let fallback = write(master, m);
                    return fallback;
                },
            }
            i += 1;
        }
        Ok(())
    }

    /// Set every valid channel's volume to the given level, in millionths of
    /// full scale. Levels outside [0, full scale) are rejected with
    /// `InvalidVolume`; full scale itself is excluded. On acceptance the
    /// level is written to each valid channel in order, stopping at and
    /// returning the first failure. `write` performs one raw fixed-size
    /// write of the volume scalar at the given address.
    pub fn set_volume<F: Fn(AudioObjPropAddress, u32) -> Result<(), Error>>(
        &self,
        vol: i64,
        write: F,
    ) -> (r: Result<(), Error>)
        requires
            forall|a: AudioObjPropAddress, v: u32| #[trigger] call_requires(write, (a, v)),
        ensures
            !(0 <= vol < 1000000) ==> r == Err::<(), Error>(Error::InvalidVolume(vol)),
            (0 <= vol < 1000000) ==> ({
                &&& (r is Ok ==> volume_writes_ok_upto(
                    write,
                    self.valid_channels@,
                    vol as u32,
                    self.valid_channels@.len() as int,
                ))
                &&& (r is Err ==> exists|j: int, e: Error|
                    r == Err::<(), Error>(e) && #[trigger] volume_sweep_failed_at(
                        write,
                        self.valid_channels@,
                        vol as u32,
                        j,
                        e,
                    ))
            }),
    {
        if !(0 <= vol && vol < VOLUME_FULL_SCALE) {
            return Err(Error::InvalidVolume(vol));
        }
        let level: u32 = vol as u32;
        let n = self.valid_channels.len();
        let mut i: usize = 0;
        while i < n
            invariant
                forall|a: AudioObjPropAddress, v: u32| #[trigger] call_requires(write, (a, v)),
                n == self.valid_channels@.len(),
                i <= n,
                level == vol as u32,
                0 <= vol < 1000000,
                volume_writes_ok_upto(write, self.valid_channels@, level, i as int),
            decreases n - i,
        {
            let ch = self.valid_channels[i];
            let address = AudioObjPropAddress::new_with_element(
                PropertySelector::dev_volume_scalar(),
                PropertyScope::dev_output(),
                ch,
            );
            proof {
                assert(address == out_volume_addr_spec(self.valid_channels@[i as int]));
            }
            let res = write(address, level);
            match res {
                Ok(_) => {
                    proof {
                        assert(call_ensures(
                            write,
                            (out_volume_addr_spec(self.valid_channels@[i as int]), level),
                            res,
                        ));
                        assert(volume_write_ok_at(write, self.valid_channels@, level, i as int));
                    }
                },
                Err(e) => {
                    proof {
                        assert(volume_sweep_failed_at(
                            write,
                            self.valid_channels@,
                            level,
                            i as int,
                            e,
                        ));
                    }
                    return Err(e);
                },
            }
            i += 1;
        }
        Ok(())
    }

    /// Whether this device is the system's current default output device.
    /// `fetch` performs one raw fixed-size read of the default-output-device
    /// indirection property on the system object.
    pub fn is_default<F: Fn(AudioObjPropAddress) -> Result<u32, Error>>(&self, fetch: F) -> (r:
        Result<bool, Error>)
        requires
            forall|a: AudioObjPropAddress| #[trigger] call_requires(fetch, (a,)),
        ensures
            exists|out: Result<u32, Error>|
                #[trigger] call_ensures(fetch, (default_out_addr_spec(),), out) && (match out {
                    Ok(default_id) => r == Ok::<bool, Error>(default_id == self.device_id),
                    Err(e) => r == Err::<bool, Error>(e),
                }),
    {
        let address = AudioObjPropAddress::new(
            PropertySelector::hw_default_output_dev(),
            PropertyScope::dev_output(),
        );
        match fetch(address) {
            Ok(default_id) => Ok(default_id == self.device_id),
            Err(e) => Err(e),
        }
    }
}

} // verus!
