use wlan_monitor::available_network_list::{
    optional_debug, NetworkList, ParsedAvailableNetwork, WlanAvailableNetwork,
};
use wlan_monitor::bss_entry_list::{bss_query_parameters, BssList, ParsedBssEntry, WlanBssEntry};
use wlan_monitor::utils::{create_dot_11_ssid, Dot11Ssid};
use wlan_monitor::windows_api_client::{
    can_retrieve_networks, retain_distinct_named, retrieve_networks,
};
use wlan_monitor::Network;

fn available(name: &str, quality: u32, auth: i32, cipher: i32) -> WlanAvailableNetwork {
    WlanAvailableNetwork {
        ssid: create_dot_11_ssid(name),
        number_of_bssids: 2,
        signal_quality: quality,
        security_enabled: auth != 1,
        default_auth_algorithm: auth,
        default_cipher_algorithm: cipher,
    }
}

fn access_point(name: &str, last: u8, rssi: i32, frequency: u32) -> WlanBssEntry {
    WlanBssEntry {
        ssid: create_dot_11_ssid(name),
        bssid: [0xB4, 0x0F, 0x3B, 0xBB, 0x82, last],
        rssi,
        link_quality: 70,
        ch_center_frequency: frequency,
    }
}

#[test]
fn query_parameters() {
    assert_eq!(bss_query_parameters(true), (1, true));
    assert_eq!(bss_query_parameters(false), (3, false));
}

#[test]
fn access_point_is_parsed() {
    let parsed = ParsedBssEntry::from(&access_point("Lyco HQ_5G", 0x24, -61, 5_180_000));
    assert_eq!(
        parsed,
        ParsedBssEntry {
            ssid: String::from("Lyco HQ_5G"),
            bssid: String::from("B4:0F:3B:BB:82:24"),
            rssi: -61,
            link_quality: 70,
            channel: 38,
        }
    );
    assert_eq!(parsed.to_string(), "Lyco HQ_5G @ B4:0F:3B:BB:82:24  (-61)");
}

#[test]
fn link_quality_keeps_its_low_eight_bits() {
    let mut entry = access_point("a", 1, 0, 2_412_000);
    entry.link_quality = 0x1_2C;
    assert_eq!(ParsedBssEntry::from(&entry).link_quality, 0x2C);
    entry.link_quality = 255;
    assert_eq!(ParsedBssEntry::from(&entry).link_quality, 255);
}

#[test]
fn access_point_below_the_bands_cannot_be_parsed() {
    assert!(access_point("a", 1, 0, 2_401_000).is_parsable());
    assert!(!access_point("a", 1, 0, 2_400_999).is_parsable());
    let mut long = access_point("a", 1, 0, 2_412_000);
    long.ssid.length = 33;
    assert!(!long.is_parsable());
}

#[test]
fn list_of_access_points() {
    let list = BssList::from(vec![
        access_point("Lyco HQ_5G", 0x24, -61, 5_180_000),
        access_point("Lyco HQ", 0x14, -48, 2_437_000),
    ]);
    assert_eq!(list.networks.len(), 2);
    assert_eq!(list.parsed_networks.len(), 2);
    assert_eq!(list.parsed_networks[1].ssid, "Lyco HQ");
    assert_eq!(list.parsed_networks[1].channel, 8);
    assert_eq!(
        list.to_string(),
        "[\nLyco HQ_5G @ B4:0F:3B:BB:82:24  (-61)\nLyco HQ @ B4:0F:3B:BB:82:14  (-48)\n]"
    );
    assert_eq!(BssList::from(vec![]).to_string(), "[\n\n]");
}

#[test]
fn secured_network_names_its_algorithms() {
    let parsed = ParsedAvailableNetwork::from(&available("Lyco HQ_5G", 80, 7, 4));
    assert_eq!(
        parsed,
        ParsedAvailableNetwork {
            ssid: String::from("Lyco HQ_5G"),
            num_bssids: 2,
            rssi: -60,
            network_security: Some(String::from(
                "DOT11_AUTH_ALGORITHM(7) - DOT11_CIPHER_ALGORITHM(4)"
            )),
        }
    );
}

#[test]
fn algorithm_numbers_of_vendors_are_negative() {
    let parsed = ParsedAvailableNetwork::from(&available("x", 0, -2147483648, -1));
    assert_eq!(
        parsed.network_security,
        Some(String::from("DOT11_AUTH_ALGORITHM(-2147483648) - DOT11_CIPHER_ALGORITHM(-1)"))
    );
    assert_eq!(parsed.rssi, -100);
}

#[test]
fn open_network_has_no_security_text() {
    let parsed = ParsedAvailableNetwork::from(&available("Guest", 100, 1, 0));
    assert_eq!(parsed.network_security, None);
    assert_eq!(parsed.rssi, -50);
    assert_eq!(parsed.to_string(), "Guest(2) auth: None");
}

#[test]
fn network_line_quotes_the_security_text() {
    let parsed = ParsedAvailableNetwork::from(&available("Lyco HQ_5G", 80, 7, 4));
    assert_eq!(
        parsed.to_string(),
        "Lyco HQ_5G(2) auth: Some(\"DOT11_AUTH_ALGORITHM(7) - DOT11_CIPHER_ALGORITHM(4)\")"
    );
    let odd = ParsedAvailableNetwork {
        ssid: String::from("n"),
        num_bssids: 0,
        rssi: 0,
        network_security: Some(String::from("a\"b\\c\n")),
    };
    assert_eq!(odd.to_string(), "n(0) auth: Some(\"a\\\"b\\\\c\\n\")");
    assert_eq!(odd.to_string(), format!("n(0) auth: {:?}", odd.network_security));
    assert_eq!(odd.to_string_with("?"), "n(0) auth: ?");
}

#[test]
fn optional_text_in_debug_form() {
    assert_eq!(optional_debug(None), "None");
    assert_eq!(optional_debug(Some("\"x\"")), "Some(\"x\")");
}

#[test]
fn signal_quality_is_read_as_a_signed_number() {
    let mut network = available("x", 100, 1, 0);
    assert!(network.is_parsable());
    network.signal_quality = 42_949_772;
    assert!(network.is_parsable());
    network.signal_quality = 42_949_773;
    assert!(!network.is_parsable());
    network.signal_quality = u32::MAX;
    assert!(network.is_parsable());
    assert_eq!(ParsedAvailableNetwork::from(&network).rssi, -100);
    network.signal_quality = u32::MAX - 42_949_572;
    assert!(!network.is_parsable());
    network.signal_quality = 100;
    network.ssid.length = 40;
    assert!(!network.is_parsable());
}

#[test]
fn list_of_available_networks() {
    let list =
        NetworkList::from(vec![available("Lyco HQ_5G", 80, 7, 4), available("Guest", 50, 1, 0)]);
    assert_eq!(list.networks.len(), 2);
    assert_eq!(list.parsed_networks[0].rssi, -60);
    assert_eq!(list.parsed_networks[1].rssi, -75);
    assert_eq!(
        list.to_string(),
        "[\nLyco HQ_5G(2) auth: Some(\"DOT11_AUTH_ALGORITHM(7) - DOT11_CIPHER_ALGORITHM(4)\")\n\
         Guest(2) auth: None\n]"
    );
}

#[test]
fn hidden_and_repeated_networks_are_dropped() {
    let first = available("Lyco HQ_5G", 80, 7, 4);
    let mut again = available("Lyco HQ_5G", 10, 1, 0);
    again.number_of_bssids = 9;
    let hidden = available("", 30, 7, 4);
    let guest = available("Guest", 50, 1, 0);
    let kept = retain_distinct_named(vec![hidden, first, guest, again, hidden, guest, first]);
    assert_eq!(kept, vec![first, guest]);
}

#[test]
fn nothing_is_dropped_from_distinct_names() {
    let networks = vec![available("a", 1, 1, 0), available("b", 2, 1, 0), available("A", 3, 1, 0)];
    assert_eq!(retain_distinct_named(networks.clone()), networks);
    assert_eq!(retain_distinct_named(vec![]), vec![]);
}

#[test]
fn names_are_compared_as_text() {
    let mut bytes = [0u8; 32];
    bytes[0] = b'a';
    bytes[5] = 1;
    let padded =
        WlanAvailableNetwork { ssid: Dot11Ssid { length: 1, bytes }, ..available("a", 9, 1, 0) };
    let plain = available("a", 1, 1, 0);
    assert_eq!(retain_distinct_named(vec![plain, padded]), vec![plain]);
    let mut broken = [0u8; 32];
    broken[0] = 0xff;
    let first = WlanAvailableNetwork { ssid: Dot11Ssid { length: 1, bytes: broken }, ..plain };
    broken[0] = 0xfe;
    let second = WlanAvailableNetwork { ssid: Dot11Ssid { length: 1, bytes: broken }, ..plain };
    assert_eq!(retain_distinct_named(vec![first, second]), vec![first]);
}

#[test]
fn network_of_an_access_point() {
    let bss = access_point("Lyco HQ_5G", 0x24, -61, 5_180_000);
    let network = available("Lyco HQ_5G", 80, 7, 4);
    assert!(Network::can_combine(&bss, &network));
    let joined = Network::from((&bss, &network));
    assert_eq!(
        joined,
        Network {
            ssid: String::from("Lyco HQ_5G"),
            bssid: String::from("B4:0F:3B:BB:82:24"),
            rssi: -61,
            channel: 38,
            band: String::from("5"),
            secured: true,
        }
    );
    assert_eq!(joined.to_string(), "Lyco HQ_5G @ B4:0F:3B:BB:82:24");
}

#[test]
fn open_network_is_not_secured() {
    let bss = access_point("Guest", 0x01, -70, 2_412_000);
    let joined = Network::from((&bss, &available("Guest", 80, 1, 0)));
    assert!(!joined.secured);
    assert_eq!(joined.band, "2.4");
    assert_eq!(joined.channel, 3);
    assert!(Network::from((&bss, &available("Guest", 80, 0, 0))).secured);
}

#[test]
fn access_point_outside_the_bands_cannot_be_combined() {
    let network = available("Guest", 80, 1, 0);
    assert!(!Network::can_combine(&access_point("Guest", 1, -70, 3_000_000), &network));
    assert!(!Network::can_combine(&access_point("Guest", 1, -70, 0), &network));
    let mut long = network;
    long.ssid.length = 33;
    assert!(!Network::can_combine(&access_point("Guest", 1, -70, 2_412_000), &long));
}

#[test]
fn networks_are_joined_with_their_access_points() {
    let bss_list = vec![
        access_point("Lyco HQ_5G", 0x24, -61, 5_180_000),
        access_point("Guest", 0x01, -70, 2_412_000),
        access_point("Lyco HQ_5G", 0x0E, -75, 5_745_000),
        access_point("Unlisted", 0x02, -80, 2_437_000),
    ];
    let networks =
        vec![
            available("Guest", 50, 1, 0),
            available("Lyco HQ_5G", 80, 7, 4),
            available("Alone", 1, 1, 0),
        ];
    let joined = retrieve_networks(&bss_list, &networks);
    let lines: Vec<String> = joined.iter().map(|n| n.to_string()).collect();
    assert_eq!(
        lines,
        vec![
            "Guest @ B4:0F:3B:BB:82:01",
            "Lyco HQ_5G @ B4:0F:3B:BB:82:24",
            "Lyco HQ_5G @ B4:0F:3B:BB:82:0E",
        ]
    );
    assert_eq!(joined[2].channel, 151);
    assert!(!joined[0].secured);
    assert!(joined[1].secured);
}

#[test]
fn join_of_nothing_is_empty() {
    assert_eq!(retrieve_networks(&vec![], &vec![available("a", 1, 1, 0)]), vec![]);
    assert_eq!(retrieve_networks(&vec![access_point("a", 1, 0, 2_412_000)], &vec![]), vec![]);
}

#[test]
fn join_compares_the_whole_name_buffer() {
    let bss = access_point("a", 1, -70, 2_412_000);
    let mut network = available("a", 50, 1, 0);
    network.ssid.bytes[20] = 7;
    assert_eq!(retrieve_networks(&vec![bss], &vec![network]), vec![]);
}

#[test]
fn join_needs_frequencies_in_a_band_only_where_names_agree() {
    let networks = vec![available("Guest", 50, 1, 0)];
    let stray = access_point("Other", 1, -70, 3_000_000);
    let good = access_point("Guest", 2, -70, 2_412_000);
    let bad = access_point("Guest", 3, -70, 3_000_000);
    assert!(can_retrieve_networks(&vec![stray, good], &networks));
    assert!(!can_retrieve_networks(&vec![stray, good, bad], &networks));
    assert!(can_retrieve_networks(&vec![bad], &vec![]));
    assert!(can_retrieve_networks(&vec![], &networks));
}
