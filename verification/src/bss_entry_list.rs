//! The access points that the adapter has seen.

use crate::text::{list_lines, listed, push_signed_decimal, signed_decimal};
use crate::utils::{
    channel_of, colon_hex, map_freq_to_channel, parse_bssid, parse_ssid, ssid_text, Dot11Ssid,
    LOWER_BOUND_2_GHZ,
};
use vstd::prelude::*;

verus! {

/// The kind of network asked for in a query of access points, and whether
/// only secured ones are asked for: an infrastructure network with security
/// where the query names a network, any kind of network without it where it
/// names none.
pub open spec fn bss_query_for(targeted: bool) -> (i32, bool) {
    if targeted {
        (1, true)
    } else {
        (3, false)
    }
}

/// The parameters of a query of access points, for a query that names a
/// network (`targeted`) or one that names none.
pub fn bss_query_parameters(targeted: bool) -> (parameters: (i32, bool))
    ensures
        parameters == bss_query_for(targeted),
{
    let (bss_type, security_enable): (i32, bool) = match targeted {
        true => (1, true),
        false => (3, false),
    };
    (bss_type, security_enable)
}

/// One access point as the adapter reports it.
#[derive(Debug, Clone, Copy, PartialEq, Eq)]
pub struct WlanBssEntry {
    pub ssid: Dot11Ssid,
    pub bssid: [u8; 6],
    /// Signal strength in dBm.
    pub rssi: i32,
    pub link_quality: u32,
    /// Centre frequency of the channel in kHz.
    pub ch_center_frequency: u32,
}

/// One access point in printable form.
#[derive(Debug, Clone, PartialEq, Eq)]
pub struct ParsedBssEntry {
    pub ssid: String,
    pub bssid: String,
    pub rssi: i32,
    pub link_quality: u8,
    pub channel: u32,
}

/// The mathematical form of `ParsedBssEntry`.
pub struct ParsedBssEntryView {
    pub ssid: Seq<char>,
    pub bssid: Seq<char>,
    pub rssi: i32,
    pub link_quality: u8,
    pub channel: u32,
}

impl View for ParsedBssEntry {
    type V = ParsedBssEntryView;

    open spec fn view(&self) -> ParsedBssEntryView {
        ParsedBssEntryView {
            ssid: self.ssid@,
            bssid: self.bssid@,
            rssi: self.rssi,
            link_quality: self.link_quality,
            channel: self.channel,
        }
    }
}

impl WlanBssEntry {
    /// Whether the entry can be parsed: the name's length is within its
    /// buffer and the frequency is not below the 2.4 GHz band.
    pub open spec fn parsable(&self) -> bool {
        self.ssid.length <= 32 && self.ch_center_frequency >= LOWER_BOUND_2_GHZ
    }

    /// The printable form of the entry: name and address as text, the link
    /// quality cut to its low eight bits, the channel of the frequency.
    pub open spec fn parsed(&self) -> ParsedBssEntryView {
        ParsedBssEntryView {
            ssid: ssid_text(self.ssid),
            bssid: colon_hex(self.bssid@),
            rssi: self.rssi,
            link_quality: self.link_quality as u8,
            channel: channel_of(self.ch_center_frequency as int) as u32,
        }
    }

    /// Whether the entry can be parsed.
    #[verifier::when_used_as_spec(parsable)]
    pub fn is_parsable(&self) -> (parsable: bool)
        ensures
            parsable == self.parsable(),
    {
        self.ssid.length <= 32 && self.ch_center_frequency >= LOWER_BOUND_2_GHZ
    }
}

impl ParsedBssEntry {
    /// The printable form of an access point.
    pub fn from(value: &WlanBssEntry) -> (entry: Self)
        requires
            value.parsable(),
        ensures
            entry@ == value.parsed(),
    {
        let ssid = parse_ssid(value.ssid);
        let bssid = parse_bssid(value.bssid);
        let rssi = value.rssi;
        let link_quality = #[verifier::truncate]
        (value.link_quality as u8);
        let channel = map_freq_to_channel(value.ch_center_frequency);
        ParsedBssEntry { ssid, bssid, rssi, link_quality, channel }
    }

    /// The one-line text of the entry.
    pub open spec fn line(view: ParsedBssEntryView) -> Seq<char> {
        view.ssid + " @ "@ + view.bssid + "  ("@ + signed_decimal(view.rssi as int) + ")"@
    }

    /// The entry on one line: name, address and signal strength.
    pub fn to_string(&self) -> (text: String)
        ensures
            text@ == Self::line(self@),
    {
        let mut text = self.ssid.clone();
        text.append(" @ ");
        text.append(self.bssid.as_str());
        text.append("  (");
        push_signed_decimal(&mut text, self.rssi as i64);
        text.append(")");
        text
    }
}

/// The access points of one query, as reported and in printable form.
#[derive(Debug, Clone, PartialEq, Eq)]
pub struct BssList {
    pub networks: Vec<WlanBssEntry>,
    pub parsed_networks: Vec<ParsedBssEntry>,
}

impl BssList {
    /// Whether every entry has its printable form beside it.
    pub open spec fn well_formed(&self) -> bool {
        &&& self.parsed_networks@.len() == self.networks@.len()
        &&& forall|i: int|
            0 <= i < self.networks@.len() ==> (#[trigger] self.parsed_networks@[i])@
                == self.networks@[i].parsed()
    }

    /// The list of the given access points, each with its printable form.
    pub fn from(networks: Vec<WlanBssEntry>) -> (list: Self)
        requires
            forall|i: int| 0 <= i < networks@.len() ==> (#[trigger] networks@[i]).parsable(),
        ensures
            list.networks@ == networks@,
            list.well_formed(),
    {
        let mut parsed_networks: Vec<ParsedBssEntry> = Vec::new();
        let mut i: usize = 0;
        while i < networks.len()
            invariant
                i <= networks@.len(),
                parsed_networks@.len() == i,
                forall|k: int| 0 <= k < networks@.len() ==> (#[trigger] networks@[k]).parsable(),
                forall|k: int|
                    0 <= k < i ==> (#[trigger] parsed_networks@[k])@ == networks@[k].parsed(),
            decreases networks@.len() - i,
        {
            parsed_networks.push(ParsedBssEntry::from(&networks[i]));
            i += 1;
        }
        BssList { networks, parsed_networks }
    }

    /// The lines of the parsed entries, in order.
    pub open spec fn lines(&self) -> Seq<Seq<char>> {
        self.parsed_networks@.map_values(|entry: ParsedBssEntry| ParsedBssEntry::line(entry@))
    }

    /// The list in printed form: the lines of its entries in square
    /// brackets.
    pub fn to_string(&self) -> (text: String)
        ensures
            text@ == listed(self.lines()),
    {
        let mut lines: Vec<String> = Vec::new();
        let mut i: usize = 0;
        while i < self.parsed_networks.len()
            invariant
                i <= self.parsed_networks@.len(),
                lines.deep_view() == self.lines().subrange(0, i as int),
            decreases self.parsed_networks@.len() - i,
        {
            let line = self.parsed_networks[i].to_string();
            let ghost before = lines.deep_view();
            lines.push(line);
            assert(lines.deep_view() =~= before.push(line@));
            assert(lines.deep_view() =~= self.lines().subrange(0, i + 1));
            i += 1;
        }
        assert(self.lines().subrange(0, self.parsed_networks@.len() as int) =~= self.lines());
        list_lines(&lines)
    }
}

} // verus!
