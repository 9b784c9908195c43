use wlan_monitor::error::WlanError;
use wlan_monitor::text::{
    bracketed, list_lines, push_decimal, push_hex_byte, push_signed_decimal,
};
use wlan_monitor::utils::{
    create_dot_11_ssid, interpolate_rssi, map_freq_to_channel, parse_bssid, parse_ssid, Dot11Ssid,
    NetworkBand,
};

fn decimal(n: u64) -> String {
    let mut out = String::new();
    push_decimal(&mut out, n);
    out
}

fn signed(n: i64) -> String {
    let mut out = String::new();
    push_signed_decimal(&mut out, n);
    out
}

#[test]
fn decimal_numerals() {
    assert_eq!(decimal(0), "0");
    assert_eq!(decimal(7), "7");
    assert_eq!(decimal(10), "10");
    assert_eq!(decimal(294932), "294932");
    assert_eq!(decimal(u64::MAX), "18446744073709551615");
}

#[test]
fn decimal_is_appended_to_what_is_there() {
    let mut out = String::from("n=");
    push_decimal(&mut out, 42);
    assert_eq!(out, "n=42");
}

#[test]
fn signed_decimal_numerals() {
    assert_eq!(signed(0), "0");
    assert_eq!(signed(-1), "-1");
    assert_eq!(signed(-67), "-67");
    assert_eq!(signed(i64::MAX), "9223372036854775807");
    assert_eq!(signed(i64::MIN), "-9223372036854775808");
}

#[test]
fn hex_bytes_are_two_upper_case_digits() {
    let mut out = String::new();
    push_hex_byte(&mut out, 0x0a);
    push_hex_byte(&mut out, 0xff);
    push_hex_byte(&mut out, 0x00);
    push_hex_byte(&mut out, 0x9c);
    assert_eq!(out, "0AFF009C");
}

#[test]
fn brackets_and_lists() {
    assert_eq!(bracketed("Some", "x"), "Some(x)");
    assert_eq!(list_lines(&vec![]), "[\n\n]");
    assert_eq!(list_lines(&vec![String::from("a")]), "[\na\n]");
    assert_eq!(list_lines(&vec![String::from("a"), String::from("b c")]), "[\na\nb c\n]");
}

#[test]
fn channels_of_the_2_4_ghz_band() {
    assert_eq!(map_freq_to_channel(2_401_000), 1);
    assert_eq!(map_freq_to_channel(2_412_000), 3);
    assert_eq!(map_freq_to_channel(2_437_000), 8);
    assert_eq!(map_freq_to_channel(2_484_000), 17);
}

#[test]
fn channels_of_the_5_ghz_band() {
    assert_eq!(map_freq_to_channel(5_180_000), 38);
    assert_eq!(map_freq_to_channel(5_745_000), 151);
    assert_eq!(map_freq_to_channel(5_150_001), 32);
}

#[test]
fn bottom_of_the_5_ghz_band_counts_from_2_4_ghz() {
    assert_eq!(map_freq_to_channel(5_150_000), 550);
}

#[test]
fn highest_frequency_has_a_channel() {
    assert_eq!(map_freq_to_channel(u32::MAX), 32 + (u32::MAX - 5_150_000) / 5_000);
}

#[test]
fn rssi_is_interpolated_between_minus_100_and_minus_50() {
    assert_eq!(interpolate_rssi(0), -100);
    assert_eq!(interpolate_rssi(100), -50);
    assert_eq!(interpolate_rssi(50), -75);
    assert_eq!(interpolate_rssi(80), -60);
}

#[test]
fn rssi_rounds_towards_zero() {
    assert_eq!(interpolate_rssi(1), -99);
    assert_eq!(interpolate_rssi(99), -50);
    assert_eq!(interpolate_rssi(101), -50);
    assert_eq!(interpolate_rssi(102), -49);
}

#[test]
fn rssi_at_the_limits_of_the_arithmetic() {
    assert_eq!(interpolate_rssi(42_949_772), -50 + 21_474_836);
    assert_eq!(interpolate_rssi(-42_949_572), -50 - 21_474_836);
}

#[test]
fn bands_by_frequency() {
    assert_eq!(NetworkBand::try_from(2_401_000), Ok(NetworkBand::Ghz2_4));
    assert_eq!(NetworkBand::try_from(2_495_000), Ok(NetworkBand::Ghz2_4));
    assert_eq!(NetworkBand::try_from(5_150_000), Ok(NetworkBand::Ghz5));
    assert_eq!(NetworkBand::try_from(5_895_000), Ok(NetworkBand::Ghz5));
}

#[test]
fn frequencies_outside_the_bands_are_rejected() {
    assert_eq!(NetworkBand::try_from(2_400_999), Err(WlanError::InvalidFrequency(2_400_999)));
    assert_eq!(NetworkBand::try_from(2_495_001), Err(WlanError::InvalidFrequency(2_495_001)));
    assert_eq!(NetworkBand::try_from(5_149_999), Err(WlanError::InvalidFrequency(5_149_999)));
    assert_eq!(NetworkBand::try_from(5_895_001), Err(WlanError::InvalidFrequency(5_895_001)));
    assert_eq!(NetworkBand::try_from(0), Err(WlanError::InvalidFrequency(0)));
}

#[test]
fn band_names() {
    assert_eq!(NetworkBand::Ghz2_4.to_string(), "2.4");
    assert_eq!(NetworkBand::Ghz5.to_string(), "5");
}

#[test]
fn bssid_is_six_hex_pairs() {
    assert_eq!(parse_bssid([0xB4, 0x0F, 0x3B, 0xBB, 0x82, 0x24]), "B4:0F:3B:BB:82:24");
    assert_eq!(parse_bssid([0; 6]), "00:00:00:00:00:00");
    assert_eq!(parse_bssid([0x6E, 0x12, 0xB6, 0x89, 0x3A, 0x0E]), "6E:12:B6:89:3A:0E");
}

#[test]
fn ssid_is_made_from_text() {
    let ssid = create_dot_11_ssid("Hello World Too");
    assert_eq!(ssid.length, 15);
    assert_eq!(&ssid.bytes[0..15], "Hello World Too".as_bytes());
    assert_eq!(&ssid.bytes[15..], &[0u8; 17]);
}

#[test]
fn ssid_of_no_text_is_empty() {
    let ssid = create_dot_11_ssid("");
    assert_eq!(ssid, Dot11Ssid { length: 0, bytes: [0; 32] });
    assert_eq!(parse_ssid(ssid), "");
}

#[test]
fn ssid_may_fill_the_buffer() {
    let name = "0123456789abcdef0123456789abcdef";
    let ssid = create_dot_11_ssid(name);
    assert_eq!(ssid.length, 32);
    assert_eq!(parse_ssid(ssid), name);
}

#[test]
fn ssid_reads_back_as_its_text() {
    assert_eq!(parse_ssid(create_dot_11_ssid("Lyco HQ_5G")), "Lyco HQ_5G");
    assert_eq!(parse_ssid(create_dot_11_ssid("caf\u{e9} \u{1F4F6}")), "caf\u{e9} \u{1F4F6}");
}

#[test]
fn ssid_counts_only_its_length() {
    let mut bytes = [b'x'; 32];
    bytes[0] = b'a';
    bytes[1] = b'b';
    assert_eq!(parse_ssid(Dot11Ssid { length: 2, bytes }), "ab");
}

#[test]
fn ssid_that_is_not_utf8_has_a_replacement_text() {
    let mut bytes = [0u8; 32];
    bytes[0] = 0xff;
    bytes[1] = 0xfe;
    assert_eq!(parse_ssid(Dot11Ssid { length: 2, bytes }), "Unable to parse ssid");
    bytes[0] = 0xc3;
    assert_eq!(parse_ssid(Dot11Ssid { length: 1, bytes }), "Unable to parse ssid");
}

#[test]
fn ssids_are_the_same_by_length_and_all_bytes() {
    let a = create_dot_11_ssid("net");
    let b = create_dot_11_ssid("net");
    assert!(a.same_as(&b));
    assert!(!a.same_as(&create_dot_11_ssid("nee")));
    let mut longer = a;
    longer.length = 4;
    assert!(!a.same_as(&longer));
    let mut tail = a;
    tail.bytes[31] = 1;
    assert!(!a.same_as(&tail));
}
