//! A network as it is reported: one access point of one available network.

use crate::available_network_list::WlanAvailableNetwork;
use crate::bss_entry_list::WlanBssEntry;
use crate::utils::{
    band_of, channel_of, colon_hex, map_freq_to_channel, parse_bssid, parse_ssid, ssid_text,
    NetworkBand,
};
use vstd::prelude::*;

verus! {

/// One access point of an available network, in printable form.
#[derive(Debug, Clone, PartialEq, Eq)]
pub struct Network {
    pub ssid: String,
    pub bssid: String,
    pub rssi: i32,
    pub channel: u32,
    pub band: String,
    pub secured: bool,
}

/// The mathematical form of `Network`.
pub struct NetworkView {
    pub ssid: Seq<char>,
    pub bssid: Seq<char>,
    pub rssi: i32,
    pub channel: u32,
    pub band: Seq<char>,
    pub secured: bool,
}

impl View for Network {
    type V = NetworkView;

    open spec fn view(&self) -> NetworkView {
        NetworkView {
            ssid: self.ssid@,
            bssid: self.bssid@,
            rssi: self.rssi,
            channel: self.channel,
            band: self.band@,
            secured: self.secured,
        }
    }
}

impl Network {
    /// Whether an access point and a network can be put together: the
    /// network's name is within its buffer and the access point's frequency
    /// lies in a band.
    pub open spec fn combinable(
        bss_info: WlanBssEntry,
        network_info: WlanAvailableNetwork,
    ) -> bool {
        network_info.ssid.length <= 32 && band_of(bss_info.ch_center_frequency) is Some
    }

    /// The network that an access point and an available network give: the
    /// name of the network, the address, strength, channel and band of the
    /// access point, and secured unless the network's default
    /// authentication is the open one, number 1.
    pub open spec fn of(bss_info: WlanBssEntry, network_info: WlanAvailableNetwork) -> NetworkView {
        NetworkView {
            ssid: ssid_text(network_info.ssid),
            bssid: colon_hex(bss_info.bssid@),
            rssi: bss_info.rssi,
            channel: channel_of(bss_info.ch_center_frequency as int) as u32,
            band: band_of(bss_info.ch_center_frequency)->0.name(),
            secured: network_info.default_auth_algorithm != 1,
        }
    }

    /// Whether an access point and a network can be put together.
    pub fn can_combine(bss_info: &WlanBssEntry, network_info: &WlanAvailableNetwork) -> (ok: bool)
        ensures
            ok == Self::combinable(*bss_info, *network_info),
    {
        network_info.ssid.length <= 32 && NetworkBand::try_from(
            bss_info.ch_center_frequency,
        ).is_ok()
    }

    /// Puts an access point and the available network it belongs to
    /// together.
    pub fn from(value: (&WlanBssEntry, &WlanAvailableNetwork)) -> (network: Self)
        requires
            Self::combinable(*value.0, *value.1),
        ensures
            network@ == Self::of(*value.0, *value.1),
    {
        let (bss_info, network_info) = value;
        let ssid = parse_ssid(network_info.ssid);
        let bssid = parse_bssid(bss_info.bssid);
        let rssi = bss_info.rssi;
        let channel = map_freq_to_channel(bss_info.ch_center_frequency);
        let band = NetworkBand::try_from(bss_info.ch_center_frequency).unwrap().to_string();

        let secured = 1i32 != network_info.default_auth_algorithm;

        Network { ssid, bssid, rssi, channel, band, secured }
    }

    /// The network on one line: its name and the address of the access
    /// point.
    pub fn to_string(&self) -> (text: String)
        ensures
            text@ == self.ssid@ + " @ "@ + self.bssid@,
    {
        let mut text = self.ssid.clone();
        text.append(" @ ");
        text.append(self.bssid.as_str());
        text
    }
}

} // verus!
