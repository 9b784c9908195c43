//! The networks that the adapter can connect to.

use crate::text::{
    bracketed, debug_quote, debug_quoted, decimal, in_brackets, list_lines, listed, push_decimal,
    signed_decimal,
};
use crate::utils::{interpolate_rssi, parse_ssid, rssi_of_quality, ssid_text, Dot11Ssid};
use vstd::prelude::*;
use windows::Win32::NetworkManagement::WiFi::{DOT11_AUTH_ALGORITHM, DOT11_CIPHER_ALGORITHM};

verus! {

/// One available network as the adapter reports it.
#[derive(Debug, Clone, Copy, PartialEq, Eq)]
pub struct WlanAvailableNetwork {
    pub ssid: Dot11Ssid,
    pub number_of_bssids: u32,
    /// Signal quality in percent.
    pub signal_quality: u32,
    pub security_enabled: bool,
    /// The platform's number of the default authentication algorithm.
    pub default_auth_algorithm: i32,
    /// The platform's number of the default cipher algorithm.
    pub default_cipher_algorithm: i32,
}

/// One available network in printable form.
#[derive(Debug, Clone, PartialEq, Eq)]
pub struct ParsedAvailableNetwork {
    pub ssid: String,
    pub num_bssids: u32,
    pub rssi: i32,
    pub network_security: Option<String>,
}

/// The mathematical form of `ParsedAvailableNetwork`.
pub struct ParsedAvailableNetworkView {
    pub ssid: Seq<char>,
    pub num_bssids: u32,
    pub rssi: i32,
    pub network_security: Option<Seq<char>>,
}

impl View for ParsedAvailableNetwork {
    type V = ParsedAvailableNetworkView;

    open spec fn view(&self) -> ParsedAvailableNetworkView {
        ParsedAvailableNetworkView {
            ssid: self.ssid@,
            num_bssids: self.num_bssids,
            rssi: self.rssi,
            network_security: match self.network_security {
                Some(text) => Some(text@),
                None => None,
            },
        }
    }
}

/// The debug text of an authentication algorithm: the platform's type name
/// with the number in brackets.
pub open spec fn auth_algorithm_text(algorithm: i32) -> Seq<char> {
    "DOT11_AUTH_ALGORITHM("@ + signed_decimal(algorithm as int) + ")"@
}

/// The debug text of a cipher algorithm: the platform's type name with the
/// number in brackets.
pub open spec fn cipher_algorithm_text(algorithm: i32) -> Seq<char> {
    "DOT11_CIPHER_ALGORITHM("@ + signed_decimal(algorithm as int) + ")"@
}

/// The text that names the security of a network: the debug texts of its
/// authentication and cipher algorithms.
pub open spec fn security_text(auth: i32, cipher: i32) -> Seq<char> {
    auth_algorithm_text(auth) + " - "@ + cipher_algorithm_text(cipher)
}

/// Formats `windows::Win32::NetworkManagement::WiFi::DOT11_AUTH_ALGORITHM`
/// with its `Debug` impl. That impl writes a tuple struct named
/// `DOT11_AUTH_ALGORITHM` with one field, the number, which prints in
/// decimal; the contract states this text.
#[verifier::external_body]
fn auth_algorithm_debug(algorithm: i32) -> (text: String)
    ensures
        text@ == auth_algorithm_text(algorithm),
{
    format!("{:?}", DOT11_AUTH_ALGORITHM(algorithm))
}

/// Formats `windows::Win32::NetworkManagement::WiFi::DOT11_CIPHER_ALGORITHM`
/// with its `Debug` impl. That impl writes a tuple struct named
/// `DOT11_CIPHER_ALGORITHM` with one field, the number, which prints in
/// decimal; the contract states this text.
#[verifier::external_body]
fn cipher_algorithm_debug(algorithm: i32) -> (text: String)
    ensures
        text@ == cipher_algorithm_text(algorithm),
{
    format!("{:?}", DOT11_CIPHER_ALGORITHM(algorithm))
}

impl WlanAvailableNetwork {
    /// Whether the network can be parsed: the name's length is within its
    /// buffer, and the signal quality, read as a signed number, is within
    /// what the conversion to dBm can compute.
    pub open spec fn parsable(&self) -> bool {
        &&& self.ssid.length <= 32
        &&& -42949572 <= (self.signal_quality as i32) <= 42949772
    }

    /// The printable form of the network: the name as text, the signal
    /// quality as a strength in dBm, and the security algorithms where
    /// security is enabled.
    pub open spec fn parsed(&self) -> ParsedAvailableNetworkView {
        ParsedAvailableNetworkView {
            ssid: ssid_text(self.ssid),
            num_bssids: self.number_of_bssids,
            rssi: rssi_of_quality((self.signal_quality as i32) as int) as i32,
            network_security: if self.security_enabled {
                Some(security_text(self.default_auth_algorithm, self.default_cipher_algorithm))
            } else {
                None
            },
        }
    }

    /// Whether the network can be parsed.
    #[verifier::when_used_as_spec(parsable)]
    pub fn is_parsable(&self) -> (parsable: bool)
        ensures
            parsable == self.parsable(),
    {
        let quality = #[verifier::truncate]
        (self.signal_quality as i32);
        self.ssid.length <= 32 && -42949572 <= quality && quality <= 42949772
    }
}

impl ParsedAvailableNetwork {
    /// The printable form of an available network.
    pub fn from(value: &WlanAvailableNetwork) -> (network: Self)
        requires
            value.parsable(),
        ensures
            network@ == value.parsed(),
    {
        let ssid = parse_ssid(value.ssid);

        let num_bssids = value.number_of_bssids;
        let rssi = interpolate_rssi(
            #[verifier::truncate]
            (value.signal_quality as i32),
        );

        let network_security = if value.security_enabled {
            let mut text = auth_algorithm_debug(value.default_auth_algorithm);
            text.append(" - ");
            let cipher = cipher_algorithm_debug(value.default_cipher_algorithm);
            text.append(cipher.as_str());
            Some(text)
        } else {
            None
        };

        ParsedAvailableNetwork { ssid, num_bssids, rssi, network_security }
    }

    /// The one-line text of the network, from the debug form of its
    /// security.
    pub open spec fn line_with(view: ParsedAvailableNetworkView, security: Seq<char>) -> Seq<char> {
        view.ssid + "("@ + decimal(view.num_bssids as nat) + ") auth: "@ + security
    }

    /// The one-line text of the network: its name, the number of its access
    /// points in brackets, and the debug form of its security.
    pub open spec fn line(view: ParsedAvailableNetworkView) -> Seq<char> {
        Self::line_with(view, optional_text_debug(view.network_security))
    }

    /// Writes the network on one line, with the given debug form of its
    /// security.
    pub fn to_string_with(&self, security: &str) -> (text: String)
        ensures
            text@ == Self::line_with(self@, security@),
    {
        let mut text = self.ssid.clone();
        text.append("(");
        push_decimal(&mut text, self.num_bssids as u64);
        text.append(") auth: ");
        text.append(security);
        text
    }

    /// The network on one line.
    pub fn to_string(&self) -> (text: String)
        ensures
            text@ == Self::line(self@),
    {
        let security = match &self.network_security {
            Some(security) => {
                let quoted = debug_quote(security.as_str());
                optional_debug(Some(quoted.as_str()))
            },
            None => optional_debug(None),
        };
        self.to_string_with(security.as_str())
    }
}

/// The debug form of an optional text: `None`, or `Some` with the quoted
/// text in brackets.
pub open spec fn optional_text_debug(text: Option<Seq<char>>) -> Seq<char> {
    match text {
        Some(text) => in_brackets("Some"@, debug_quoted(text)),
        None => "None"@,
    }
}

/// The debug form of an optional text, from the text already quoted.
pub fn optional_debug(quoted: Option<&str>) -> (text: String)
    ensures
        text@ == match quoted {
            Some(quoted) => in_brackets("Some"@, quoted@),
            None => "None"@,
        },
{
    match quoted {
        Some(quoted) => bracketed("Some", quoted),
        None => String::from_str("None"),
    }
}

/// The available networks of one query, as reported and in printable form.
#[derive(Debug, Clone, PartialEq, Eq)]
pub struct NetworkList {
    pub networks: Vec<WlanAvailableNetwork>,
    pub parsed_networks: Vec<ParsedAvailableNetwork>,
}

impl NetworkList {
    /// Whether every network has its printable form beside it.
    pub open spec fn well_formed(&self) -> bool {
        &&& self.parsed_networks@.len() == self.networks@.len()
        &&& forall|i: int|
            0 <= i < self.networks@.len() ==> (#[trigger] self.parsed_networks@[i])@
                == self.networks@[i].parsed()
    }

    /// The list of the given networks, each with its printable form.
    pub fn from(networks: Vec<WlanAvailableNetwork>) -> (list: Self)
        requires
            forall|i: int| 0 <= i < networks@.len() ==> (#[trigger] networks@[i]).parsable(),
        ensures
            list.networks@ == networks@,
            list.well_formed(),
    {
        let mut parsed_networks: Vec<ParsedAvailableNetwork> = Vec::new();
        let mut i: usize = 0;
        while i < networks.len()
            invariant
                i <= networks@.len(),
                parsed_networks@.len() == i,
                forall|k: int| 0 <= k < networks@.len() ==> (#[trigger] networks@[k]).parsable(),
                forall|k: int|
                    0 <= k < i ==> (#[trigger] parsed_networks@[k])@ == networks@[k].parsed(),
            decreases networks@.len() - i,
        {
            parsed_networks.push(ParsedAvailableNetwork::from(&networks[i]));
            i += 1;
        }
        NetworkList { networks, parsed_networks }
    }

    /// The lines of the parsed networks, in order.
    pub open spec fn lines(&self) -> Seq<Seq<char>> {
        self.parsed_networks@.map_values(
            |network: ParsedAvailableNetwork| ParsedAvailableNetwork::line(network@),
        )
    }

    /// The list in printed form: the lines of its networks in square
    /// brackets.
    pub fn to_string(&self) -> (text: String)
        ensures
            text@ == listed(self.lines()),
    {
        let mut lines: Vec<String> = Vec::new();
        let mut i: usize = 0;
        while i < self.parsed_networks.len()
            invariant
                i <= self.parsed_networks@.len(),
                lines.deep_view() == self.lines().subrange(0, i as int),
            decreases self.parsed_networks@.len() - i,
        {
            let line = self.parsed_networks[i].to_string();
            let ghost before = lines.deep_view();
            lines.push(line);
            assert(lines.deep_view() =~= before.push(line@));
            assert(lines.deep_view() =~= self.lines().subrange(0, i + 1));
            i += 1;
        }
        assert(self.lines().subrange(0, self.parsed_networks@.len() as int) =~= self.lines());
        list_lines(&lines)
    }
}

} // verus!
