//! Frequency, signal and address helpers.

use crate::error::WlanError;
use crate::text::{hex_byte, push_hex_byte};
use vstd::prelude::*;
use vstd::std_specs::convert::TryFromSpecImpl;
use vstd::string::StringSliceAdditionalSpecFns;
use vstd::utf8::{decode_utf8, encode_utf8, valid_utf8};

verus! {

/// Lowest centre frequency of the 5 GHz band, in kHz.
pub const LOWER_BOUND_5_GHZ: u32 = 5150_000;

/// Highest centre frequency of the 5 GHz band, in kHz.
pub const UPPER_BOUND_5_GHZ: u32 = 5895_000;

/// Lowest centre frequency of the 2.4 GHz band, in kHz.
pub const LOWER_BOUND_2_GHZ: u32 = 2401_000;

/// Highest centre frequency of the 2.4 GHz band, in kHz.
pub const UPPER_BOUND_2_GHZ: u32 = 2495_000;

/// Spacing of channel centres, in kHz.
pub const CHANNEL_CENTER_SEPARATION: u32 = 5_000;

/// The radio band of a network.
#[derive(Debug, Clone, Copy, PartialEq, Eq)]
pub enum NetworkBand {
    Ghz2_4,
    Ghz5,
}

/// The band that a centre frequency (kHz) lies in, if any.
pub open spec fn band_of(freq: u32) -> Option<NetworkBand> {
    if LOWER_BOUND_2_GHZ <= freq <= UPPER_BOUND_2_GHZ {
        Some(NetworkBand::Ghz2_4)
    } else if LOWER_BOUND_5_GHZ <= freq <= UPPER_BOUND_5_GHZ {
        Some(NetworkBand::Ghz5)
    } else {
        None
    }
}

/// The band of a centre frequency (kHz), or the error for a frequency in
/// neither band.
pub open spec fn checked_band(freq: u32) -> Result<NetworkBand, WlanError> {
    match band_of(freq) {
        Some(band) => Ok(band),
        None => Err(WlanError::InvalidFrequency(freq)),
    }
}

impl NetworkBand {
    /// The band's printed name.
    pub open spec fn name(self) -> Seq<char> {
        match self {
            NetworkBand::Ghz2_4 => "2.4"@,
            NetworkBand::Ghz5 => "5"@,
        }
    }

    /// The band's printed name: `2.4` or `5`.
    pub fn to_string(&self) -> (text: String)
        ensures
            text@ == self.name(),
    {
        match self {
            NetworkBand::Ghz2_4 => String::from_str("2.4"),
            NetworkBand::Ghz5 => String::from_str("5"),
        }
    }
}

impl TryFrom<u32> for NetworkBand {
    type Error = WlanError;

    /// The band of a centre frequency in kHz; a frequency in neither band
    /// is an error.
    fn try_from(value: u32) -> (band: Result<Self, Self::Error>)
        ensures
            band == checked_band(value),
    {
        if LOWER_BOUND_2_GHZ <= value && value <= UPPER_BOUND_2_GHZ {
            Ok(NetworkBand::Ghz2_4)
        } else if LOWER_BOUND_5_GHZ <= value && value <= UPPER_BOUND_5_GHZ {
            Ok(NetworkBand::Ghz5)
        } else {
            Err(WlanError::InvalidFrequency(value))
        }
    }
}

impl TryFromSpecImpl<u32> for NetworkBand {
    open spec fn obeys_try_from_spec() -> bool {
        true
    }

    open spec fn try_from_spec(value: u32) -> Result<Self, Self::Error> {
        checked_band(value)
    }
}

/// The channel number of a centre frequency (kHz): channels are 5 MHz apart,
/// channel 1 at the bottom of the 2.4 GHz band and channel 32 at the bottom of
/// the 5 GHz band. A frequency exactly at the bottom of the 5 GHz band is still
/// counted from the 2.4 GHz band.
pub open spec fn channel_of(freq: int) -> int {
    if freq > LOWER_BOUND_5_GHZ {
        32 + (freq - LOWER_BOUND_5_GHZ) / (CHANNEL_CENTER_SEPARATION as int)
    } else {
        1 + (freq - LOWER_BOUND_2_GHZ) / (CHANNEL_CENTER_SEPARATION as int)
    }
}

/// The channel number of a centre frequency in kHz.
pub fn map_freq_to_channel(freq: u32) -> (channel: u32)
    requires
        freq >= LOWER_BOUND_2_GHZ,
    ensures
        channel == channel_of(freq as int),
{
    if freq > LOWER_BOUND_5_GHZ {
        32 + (freq - LOWER_BOUND_5_GHZ) / CHANNEL_CENTER_SEPARATION
    } else {
        1 + (freq - LOWER_BOUND_2_GHZ) / CHANNEL_CENTER_SEPARATION
    }
}

/// The quotient of `a` by a positive `b`, rounded towards zero.
pub open spec fn div_toward_zero(a: int, b: int) -> int {
    if a >= 0 {
        a / b
    } else {
        -((-a) / b)
    }
}

/// The signal strength in dBm that a signal quality in percent stands for:
/// the line through (0 %, -100 dBm) and (100 %, -50 dBm), each step rounded
/// towards zero.
pub open spec fn rssi_of_quality(x: int) -> int {
    -50 + div_toward_zero((x - 100) * 50, 100)
}

/// Converts a signal quality in percent to a signal strength in dBm.
pub fn interpolate_rssi(x: i32) -> (rssi: i32)
    requires
        -42949572 <= x <= 42949772,
    ensures
        rssi == rssi_of_quality(x as int),
{
    let (x0, x1): (i32, i32) = (0, 100);
    let (y0, y1): (i32, i32) = (-100, -50);
    assert((x - x1) * (y1 - y0) == (x - 100) * 50);
    y1 + ((x - x1) * (y1 - y0) / (x1 - x0))
}

/// A network name as the adapter reports it: up to 32 bytes, of which the
/// first `length` count.
#[derive(Debug, Clone, Copy, PartialEq, Eq)]
pub struct Dot11Ssid {
    pub length: u32,
    pub bytes: [u8; 32],
}

impl Dot11Ssid {
    /// The bytes of the name: the first `length` bytes of the buffer.
    pub open spec fn name_bytes(self) -> Seq<u8>
        recommends
            self.length <= 32,
    {
        self.bytes@.subrange(0, self.length as int)
    }

    /// Whether two names are the same value: the same length and the same 32
    /// bytes, those beyond the length included.
    pub open spec fn same(&self, other: &Dot11Ssid) -> bool {
        self.length == other.length && self.bytes@ == other.bytes@
    }

    /// Whether two names are the same value.
    #[verifier::when_used_as_spec(same)]
    pub fn same_as(&self, other: &Dot11Ssid) -> (same: bool)
        ensures
            same == self.same(other),
    {
        if self.length != other.length {
            return false;
        }
        let mut i: usize = 0;
        while i < 32
            invariant
                i <= 32,
                forall|j: int| 0 <= j < i ==> self.bytes@[j] == other.bytes@[j],
            decreases 32 - i,
        {
            if self.bytes[i] != other.bytes[i] {
                return false;
            }
            i += 1;
        }
        assert(self.bytes@ =~= other.bytes@);
        true
    }
}

/// The text shown in place of a network name that is not valid UTF-8.
pub open spec fn unparsable_ssid() -> Seq<char> {
    "Unable to parse ssid"@
}

/// The text of a network name: its bytes read as UTF-8, or a fixed
/// replacement text where they are not valid UTF-8.
pub open spec fn ssid_text(input: Dot11Ssid) -> Seq<char> {
    if valid_utf8(input.name_bytes()) {
        decode_utf8(input.name_bytes())
    } else {
        unparsable_ssid()
    }
}

/// Calls `String::from_utf8` of the standard library, which checks that the
/// bytes are valid UTF-8 and, if so, makes them a string without changing
/// them. The contract says so over vstd's definition of UTF-8: a string
/// comes back exactly for valid input, and its encoding is the input.
#[verifier::external_body]
fn string_from_utf8(bytes: Vec<u8>) -> (text: Option<String>)
    ensures
        text is Some <==> valid_utf8(bytes@),
        text matches Some(s) ==> encode_utf8(s@) == bytes@,
{
    match String::from_utf8(bytes) {
        Ok(s) => Some(s),
        Err(_) => None,
    }
}

/// The text of a network name.
pub fn parse_ssid(input: Dot11Ssid) -> (ssid: String)
    requires
        input.length <= 32,
    ensures
        ssid@ == ssid_text(input),
{
    let ssid_len = input.length as usize;
    let mut name: Vec<u8> = Vec::new();
    let mut i: usize = 0;
    while i < ssid_len
        invariant
            i <= ssid_len <= 32,
            ssid_len == input.length,
            name@ == input.bytes@.subrange(0, i as int),
        decreases ssid_len - i,
    {
        name.push(input.bytes[i]);
        assert(name@ =~= input.bytes@.subrange(0, i + 1));
        i += 1;
    }
    match string_from_utf8(name) {
        Some(text) => {
            proof {
                vstd::utf8::encode_utf8_decode_utf8(text@);
            }
            text
        },
        None => String::from_str("Unable to parse ssid"),
    }
}

/// The text of a sequence of bytes as hexadecimal pairs joined by colons.
pub open spec fn colon_hex(bytes: Seq<u8>) -> Seq<char>
    decreases bytes.len(),
{
    if bytes.len() == 0 {
        Seq::empty()
    } else if bytes.len() == 1 {
        hex_byte(bytes[0])
    } else {
        colon_hex(bytes.drop_last()) + seq![':'] + hex_byte(bytes.last())
    }
}

/// The text of a hardware address: six upper-case hexadecimal pairs joined
/// by colons.
pub fn parse_bssid(input: [u8; 6]) -> (bssid: String)
    ensures
        bssid@ == colon_hex(input@),
{
    let mut out = String::new();
    push_hex_byte(&mut out, input[0]);
    assert(out@ =~= colon_hex(input@.subrange(0, 1))) by {
        assert(input@.subrange(0, 1)[0] == input@[0]);
    }
    let mut i: usize = 1;
    while i < 6
        invariant
            1 <= i <= 6,
            out@ == colon_hex(input@.subrange(0, i as int)),
        decreases 6 - i,
    {
        proof {
            reveal_strlit(":");
            let next = input@.subrange(0, i + 1);
            assert(next.drop_last() =~= input@.subrange(0, i as int));
            assert(next.last() == input@[i as int]);
        }
        out.append(":");
        push_hex_byte(&mut out, input[i]);
        assert(out@ =~= colon_hex(input@.subrange(0, i + 1)));
        i += 1;
    }
    assert(input@.subrange(0, 6) =~= input@);
    out
}

/// The adapter's form of a network name given as text: the UTF-8 bytes of
/// the text at the front of a zeroed buffer of 32 bytes.
pub fn create_dot_11_ssid(ssid: &str) -> (out: Dot11Ssid)
    requires
        ssid.spec_bytes().len() <= 32,
    ensures
        out.length == ssid.spec_bytes().len(),
        out.name_bytes() == ssid.spec_bytes(),
        forall|j: int| out.length <= j < 32 ==> out.bytes@[j] == 0,
{
    let mut ssid_buffer: [u8; 32] = [0u8; 32];
    let source = ssid.as_bytes();
    let ssid_len = source.len();
    let mut i: usize = 0;
    while i < ssid_len
        invariant
            i <= ssid_len <= 32,
            ssid_len == source@.len(),
            forall|j: int| 0 <= j < i ==> ssid_buffer@[j] == source@[j],
            forall|j: int| i <= j < 32 ==> ssid_buffer@[j] == 0,
        decreases ssid_len - i,
    {
        ssid_buffer[i] = source[i];
        i += 1;
    }
    let out = Dot11Ssid { length: ssid_len as u32, bytes: ssid_buffer };
    assert(out.name_bytes() =~= ssid.spec_bytes());
    out
}

/// A name made from text reads back as that text.
pub proof fn lemma_ssid_round_trip(text: &str, ssid: Dot11Ssid)
    requires
        ssid.length <= 32,
        ssid.name_bytes() == text.spec_bytes(),
    ensures
        ssid_text(ssid) == text@,
{
    vstd::utf8::encode_utf8_valid_utf8(text@);
    vstd::utf8::encode_utf8_decode_utf8(text@);
}

} // verus!
