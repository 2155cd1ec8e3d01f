//! The typed marshaling layer: how typed values move between callers and the
//! untyped, fixed-size byte buffers the property store trades in.
//!
//! The raw store calls stay outside this crate; they reach the functions here
//! in two shapes. Fixed outcomes arrive as plain values: a status code and
//! the bytes a call produced. Call-by-call interactions (probing channels,
//! fetching under an address this layer computes) arrive as a caller-supplied
//! function that performs one raw call; the contracts here state what holds
//! for every outcome such a function can produce.

use crate::aopa::AudioObjPropAddress;
use crate::error::Error;
use crate::mscope::{AudioDevPropScope, PropertyScope};
use crate::mselector::{AudioDevPropSelector, PropertySelector};
use vstd::prelude::*;

verus! {

/// Number of consecutive missing elements that ends a channel scan.
pub const CHANNEL_CHECK_FAILS: u32 = 3;

/// Bytes in a fetched device-name buffer.
pub const DEVICE_NAME_LEN: usize = 256;

/// Bytes in one stream identifier, the unit the streams property counts in.
pub const STREAM_ID_SIZE: u32 = 4;

/// Classify a raw status code: zero is success, anything else is surfaced
/// verbatim as a raw OS error.
pub fn check_status(status: i32) -> (r: Result<(), Error>)
    ensures
        r == (if status == 0 {
            Ok::<(), Error>(())
        } else {
            Err::<(), Error>(Error::Raw(status))
        }),
{
    if status == 0 {
        Ok(())
    } else {
        Err(Error::Raw(status))
    }
}

/// Narrow a byte size to the 32-bit size field the raw calls expect.
pub fn size_to_u32(n: usize) -> (r: Result<u32, Error>)
    ensures
        r == (if n <= u32::MAX as usize {
            Ok::<u32, Error>(n as u32)
        } else {
            Err::<u32, Error>(Error::IntConversion)
        }),
{
    if n <= u32::MAX as usize {
        Ok(n as u32)
    } else {
        Err(Error::IntConversion)
    }
}

/// The u32 stored in four little-endian bytes.
pub open spec fn le_u32(b: Seq<u8>) -> u32
    recommends
        b.len() == 4,
{
    (b[0] + b[1] * 0x100 + b[2] * 0x10000 + b[3] * 0x1000000) as u32
}

/// The four little-endian bytes of a u32.
pub open spec fn u32_le_bytes(x: u32) -> Seq<u8> {
    seq![
        (x % 0x100) as u8,
        ((x / 0x100) % 0x100) as u8,
        ((x / 0x10000) % 0x100) as u8,
        ((x / 0x1000000) % 0x100) as u8,
    ]
}

/// Write a u32 into its four-byte buffer form, little endian.
pub fn encode_u32(x: u32) -> (r: Vec<u8>)
    ensures
        r@ == u32_le_bytes(x),
        r@.len() == 4,
{
    let r: Vec<u8> = vec![
        (x % 0x100) as u8,
        ((x / 0x100) % 0x100) as u8,
        ((x / 0x10000) % 0x100) as u8,
        ((x / 0x1000000) % 0x100) as u8,
    ];
    proof {
        assert(r@ =~= u32_le_bytes(x));
    }
    r
}

/// Read a u32 out of a four-byte buffer, little endian; any other buffer
/// length is a size mismatch.
pub fn decode_u32(bytes: &[u8]) -> (r: Result<u32, Error>)
    ensures
        bytes@.len() == 4 ==> r == Ok::<u32, Error>(le_u32(bytes@)),
        bytes@.len() != 4 ==> r == Err::<u32, Error>(Error::IntConversion),
{
    if bytes.len() != 4 {
        return Err(Error::IntConversion);
    }
    let b0 = bytes[0] as u32;
    let b1 = bytes[1] as u32;
    let b2 = bytes[2] as u32;
    let b3 = bytes[3] as u32;
    Ok(b0 + b1 * 0x100 + b2 * 0x10000 + b3 * 0x1000000)
}

/// Encoding a u32 and decoding the bytes yields the value back.
pub proof fn lemma_u32_le_round_trip(x: u32)
    ensures
        le_u32(u32_le_bytes(x)) == x,
{
    let b = u32_le_bytes(x);
    assert(b[0] == x % 0x100);
    assert(b[1] == (x / 0x100) % 0x100);
    assert(b[2] == (x / 0x10000) % 0x100);
    assert(b[3] == x / 0x1000000);
    assert(x % 0x100 + ((x / 0x100) % 0x100) * 0x100 + ((x / 0x10000) % 0x100) * 0x10000 + (x
        / 0x1000000) * 0x1000000 == x) by (nonlinear_arith);
}

/// The i32 carried by a u32 bit pattern, two's complement.
pub open spec fn i32_of_bits(u: u32) -> i32 {
    if u < 0x80000000u32 {
        u as i32
    } else {
        (u - 0x100000000) as i32
    }
}

/// The u32 bit pattern of an i32, two's complement.
pub open spec fn bits_of_i32(v: i32) -> u32 {
    if v >= 0 {
        v as u32
    } else {
        (v + 0x100000000) as u32
    }
}

/// Reinterpret a u32 bit pattern as a signed value.
pub fn i32_from_bits(u: u32) -> (r: i32)
    ensures
        r == i32_of_bits(u),
{
    if u < 0x80000000u32 {
        u as i32
    } else {
        let d: i32 = (u - 0x80000000u32) as i32;
        d + i32::MIN
    }
}

/// Reinterpret a signed value as its u32 bit pattern.
pub fn i32_to_bits(v: i32) -> (r: u32)
    ensures
        r == bits_of_i32(v),
{
    if v >= 0 {
        v as u32
    } else {
        let d: u32 = (v - i32::MIN) as u32;
        d + 0x80000000u32
    }
}

/// The two bit-pattern reinterpretations invert each other.
pub proof fn lemma_i32_bits_round_trip(v: i32, u: u32)
    ensures
        i32_of_bits(bits_of_i32(v)) == v,
        bits_of_i32(i32_of_bits(u)) == u,
{
}

/// Read an i32 out of a four-byte buffer, little endian.
pub fn decode_i32(bytes: &[u8]) -> (r: Result<i32, Error>)
    ensures
        bytes@.len() == 4 ==> r == Ok::<i32, Error>(i32_of_bits(le_u32(bytes@))),
        bytes@.len() != 4 ==> r == Err::<i32, Error>(Error::IntConversion),
{
    match decode_u32(bytes) {
        Ok(u) => Ok(i32_from_bits(u)),
        Err(e) => Err(e),
    }
}

/// Write an i32 into its four-byte buffer form, little endian.
pub fn encode_i32(v: i32) -> (r: Vec<u8>)
    ensures
        r@ == u32_le_bytes(bits_of_i32(v)),
        r@.len() == 4,
{
    encode_u32(i32_to_bits(v))
}

/// Decode a fetched buffer of object identifiers: one u32 per four bytes,
/// little endian; trailing bytes beyond the last whole identifier are
/// dropped.
pub fn device_ids_from_bytes(bytes: &[u8]) -> (r: Vec<u32>)
    ensures
        r@.len() == bytes@.len() / 4,
        forall|i: int|
            0 <= i < r@.len() ==> r@[i] == le_u32(bytes@.subrange(4 * i, 4 * i + 4)),
{
    let n = bytes.len() / 4;
    let mut r: Vec<u32> = Vec::new();
    let mut k: usize = 0;
    while k < n
        invariant
            bytes@.len() <= usize::MAX,
            n == bytes@.len() / 4,
            4 * n <= bytes@.len(),
            k <= n,
            r@.len() == k,
            forall|i: int|
                0 <= i < k ==> r@[i] == le_u32(bytes@.subrange(4 * i, 4 * i + 4)),
        decreases n - k,
    {
        let b0 = bytes[4 * k] as u32;
        let b1 = bytes[4 * k + 1] as u32;
        let b2 = bytes[4 * k + 2] as u32;
        let b3 = bytes[4 * k + 3] as u32;
        let v = b0 + b1 * 0x100 + b2 * 0x10000 + b3 * 0x1000000;
        proof {
            let s = bytes@.subrange(4 * k as int, 4 * k as int + 4);
            assert(s[0] == bytes@[4 * k as int]);
            assert(s[1] == bytes@[4 * k as int + 1]);
            assert(s[2] == bytes@[4 * k as int + 2]);
            assert(s[3] == bytes@[4 * k as int + 3]);
        }
        r.push(v);
        k += 1;
    }
    r
}

/// Map the raw has-property answer to a boolean: any non-zero value means
/// the property is present.
pub fn has_from_raw(raw: u32) -> (r: bool)
    ensures
        r == (raw != 0),
{
    raw != 0
}

/// What a UTF-8 byte sequence decodes to, if it is valid UTF-8.
///
/// The decoding itself is done by the allocator library; this name stands
/// for its result, which depends on the bytes alone.
pub uninterp spec fn utf8_decoded(bytes: Seq<u8>) -> Option<Seq<char>>;

/// Relies on alloc's `String::from_utf8`: whether the bytes decode, and to
/// which characters, depends on the bytes alone.
#[verifier::external_body]
fn utf8_to_string(bytes: Vec<u8>) -> (r: Option<String>)
    ensures
        match r {
            Some(s) => utf8_decoded(bytes@) == Some(s@),
            None => utf8_decoded(bytes@) is None,
        },
{
    String::from_utf8(bytes).ok()
}

/// `r` is the correct reading of a name fetch that returned `status` and
/// filled `bytes`: a non-zero status is surfaced raw, and on success the
/// whole buffer must decode as UTF-8.
pub open spec fn name_result_ok(status: i32, bytes: Seq<u8>, r: Result<String, Error>) -> bool {
    if status != 0 {
        r == Err::<String, Error>(Error::Raw(status))
    } else {
        match r {
            Ok(name) => utf8_decoded(bytes) == Some(name@),
            Err(e) => e == Error::Utf8Error && utf8_decoded(bytes) is None,
        }
    }
}

/// Turn a raw name fetch outcome into the device's name: surface a non-zero
/// status verbatim, then decode the whole buffer as UTF-8.
pub fn device_name_from_bytes(status: i32, bytes: Vec<u8>) -> (r: Result<String, Error>)
    ensures
        name_result_ok(status, bytes@, r),
{
    if status != 0 {
        return Err(Error::Raw(status));
    }
    match utf8_to_string(bytes) {
        Some(name) => Ok(name),
        None => Err(Error::Utf8Error),
    }
}

/// The address a name fetch uses: the device name selector at the master
/// element of the given scope.
pub open spec fn name_addr_spec(scope: PropertyScope) -> AudioObjPropAddress {
    AudioObjPropAddress {
        select: PropertySelector::Device(AudioDevPropSelector::Name),
        scope,
        element: 0u32,
    }
}

/// Fetch and decode a device's name. `fetch` performs one raw fixed-size
/// property read at the address this function computes and returns the raw
/// status together with the bytes of the name buffer.
pub fn get_device_name<F: Fn(AudioObjPropAddress) -> (i32, Vec<u8>)>(
    scope: PropertyScope,
    fetch: F,
) -> (r: Result<String, Error>)
    requires
        forall|a: AudioObjPropAddress| #[trigger] call_requires(fetch, (a,)),
    ensures
        exists|out: (i32, Vec<u8>)|
            #[trigger] call_ensures(fetch, (name_addr_spec(scope),), out) && name_result_ok(
                out.0,
                out.1@,
                r,
            ),
{
    let address = AudioObjPropAddress::new(PropertySelector::dev_name(), scope);
    let (status, bytes) = fetch(address);
    device_name_from_bytes(status, bytes)
}

/// Whether a streams query is structurally valid for this scope: only the
/// device input and output scopes carry streams.
pub open spec fn streams_scope_ok(scope: PropertyScope) -> bool {
    ||| scope == PropertyScope::Device(AudioDevPropScope::Input)
    ||| scope == PropertyScope::Device(AudioDevPropScope::Output)
}

/// The address a streams query uses: the device streams selector at the
/// master element of the given scope.
pub open spec fn streams_addr_spec(scope: PropertyScope) -> AudioObjPropAddress {
    AudioObjPropAddress {
        select: PropertySelector::Device(AudioDevPropSelector::Streams),
        scope,
        element: 0u32,
    }
}

/// The stream count a raw streams property value yields: the value counts
/// bytes, one stream identifier per four.
pub open spec fn stream_count_spec(raw: u32) -> u32 {
    raw / 4
}

/// Turn the raw streams property value into a stream count.
pub fn stream_count_from_raw(raw: u32) -> (r: u32)
    ensures
        r == stream_count_spec(raw),
{
    raw / STREAM_ID_SIZE
}

/// Fetch a device's stream count for the input or output scope; any other
/// scope is structurally invalid and rejected before anything is fetched.
/// `fetch` performs one raw fixed-size property read at the address this
/// function computes.
pub fn get_streams<F: Fn(AudioObjPropAddress) -> Result<u32, Error>>(
    scope: PropertyScope,
    fetch: F,
) -> (r: Result<u32, Error>)
    requires
        forall|a: AudioObjPropAddress| #[trigger] call_requires(fetch, (a,)),
    ensures
        !streams_scope_ok(scope) ==> r == Err::<u32, Error>(Error::UnexpectedParam),
        streams_scope_ok(scope) ==> exists|out: Result<u32, Error>|
            #[trigger] call_ensures(fetch, (streams_addr_spec(scope),), out) && (match out {
                Ok(raw) => r == Ok::<u32, Error>(stream_count_spec(raw)),
                Err(e) => r == Err::<u32, Error>(e),
            }),
{
    let valid = match scope {
        PropertyScope::Device(AudioDevPropScope::Input) => true,
        PropertyScope::Device(AudioDevPropScope::Output) => true,
        _ => false,
    };
    if !valid {
        return Err(Error::UnexpectedParam);
    }
    let address = AudioObjPropAddress::new(PropertySelector::dev_streams(), scope);
    match fetch(address) {
        Ok(raw) => Ok(stream_count_from_raw(raw)),
        Err(e) => Err(e),
    }
}

/// The address of one channel's volume-scalar property, the property a
/// channel scan probes.
pub open spec fn volume_addr_spec(scope: PropertyScope, element: u32) -> AudioObjPropAddress {
    AudioObjPropAddress {
        select: PropertySelector::Device(AudioDevPropSelector::VolumeScalar),
        scope,
        element,
    }
}

/// Number of consecutive misses at the end of a probe history: how many
/// elements in a row, counting back from the last probed, were absent.
pub open spec fn trailing_misses(p: Seq<bool>) -> nat
    decreases p.len(),
{
    if p.len() == 0 {
        0
    } else if p.last() {
        0
    } else {
        trailing_misses(p.drop_last()) + 1
    }
}

/// The channels a probe history finds: every element index that probed
/// present, in ascending order.
pub open spec fn found_channels(p: Seq<bool>) -> Seq<u32>
    decreases p.len(),
{
    if p.len() == 0 {
        Seq::empty()
    } else if p.last() {
        found_channels(p.drop_last()).push((p.len() - 1) as u32)
    } else {
        found_channels(p.drop_last())
    }
}

/// A probe history after which a channel scan stops, and not earlier: the
/// tolerated number of consecutive misses was just reached, or every element
/// index was probed without ever reaching it.
pub open spec fn scan_complete(p: Seq<bool>) -> bool {
    &&& p.len() <= 0x100000000
    &&& (trailing_misses(p) == 3 || p.len() == 0x100000000)
    &&& forall|k: int| 0 <= k < p.len() ==> trailing_misses(#[trigger] p.take(k)) < 3
}

/// Discover the valid channel elements of a device: probe the volume-scalar
/// property at element 0, 1, 2, ... and collect the elements that are
/// present, stopping once three consecutive elements in a row are absent
/// (channels need not be contiguous, so a gap of up to two absent elements is
/// tolerated mid-scan). `probe` performs one raw has-property call at the
/// address this function computes.
///
/// Probing cannot fail, only answer absent, so the scan itself returns no
/// error: a device without the property yields an empty list.
pub fn get_valid_channels<F: Fn(AudioObjPropAddress) -> bool>(scope: PropertyScope, probe: F) -> (r:
    Vec<u32>)
    requires
        forall|a: AudioObjPropAddress| #[trigger] call_requires(probe, (a,)),
    ensures
        exists|p: Seq<bool>|
            {
                &&& #[trigger] scan_complete(p)
                &&& forall|i: int|
                    0 <= i < p.len() ==> call_ensures(
                        probe,
                        (volume_addr_spec(scope, i as u32),),
                        #[trigger] p[i],
                    )
                &&& r@ == found_channels(p)
            },
{
    let mut result: Vec<u32> = Vec::new();
    let mut failures: u32 = 0;
    let mut next: u64 = 0;
    let ghost mut hist: Seq<bool> = Seq::empty();
    while failures < CHANNEL_CHECK_FAILS && next < 0x100000000u64
        invariant
            forall|a: AudioObjPropAddress| #[trigger] call_requires(probe, (a,)),
            next == hist.len(),
            next <= 0x100000000u64,
            failures == trailing_misses(hist),
            failures <= 3,
            forall|i: int|
                0 <= i < hist.len() ==> call_ensures(
                    probe,
                    (volume_addr_spec(scope, i as u32),),
                    #[trigger] hist[i],
                ),
            forall|k: int| 0 <= k < hist.len() ==> trailing_misses(#[trigger] hist.take(k)) < 3,
            result@ == found_channels(hist),
        decreases 0x100000000u64 - next,
    {
        let element = next as u32;
        let address = AudioObjPropAddress::new_with_element(
            PropertySelector::dev_volume_scalar(),
            scope,
            element,
        );
        let present = probe(address);
        proof {
            let prev = hist;
            hist = hist.push(present);
            assert(hist.drop_last() =~= prev);
            assert forall|k: int| 0 <= k < hist.len() implies trailing_misses(
                #[trigger] hist.take(k),
            ) < 3 by {
                assert(hist.take(k) =~= prev.take(k));
            }
            assert(address == volume_addr_spec(scope, element));
        }
        if present {
            result.push(element);
            failures = 0;
        } else {
            failures += 1;
        }
        next += 1;
    }
    proof {
        assert(scan_complete(hist));
    }
    result
}

} // verus!
