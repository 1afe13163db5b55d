use nucleus_dashboard_api::address::ss58_text;
use nucleus_dashboard_api::text::{
    byte_list_string, decimal_string, hex_string, name_text, prefixed_hex,
};

const ALICE: [u8; 32] = [
    0xd4, 0x35, 0x93, 0xc7, 0x15, 0xfd, 0xd3, 0x1c, 0x61, 0x14, 0x1a, 0xbd, 0x04, 0xa9, 0x9f,
    0xd6, 0x82, 0x2c, 0x85, 0x58, 0x85, 0x4c, 0xcd, 0xe3, 0x9a, 0x56, 0x84, 0xe7, 0xa5, 0x6d,
    0xa2, 0x7d,
];
const ALICE_SS58: &str = "5GrwvaEF5zXb26Fz9rcQpDWS57CtERHpNehXCPcNoHGKutQY";

#[test]
fn decimal_matches_std_rendering() {
    assert_eq!(decimal_string(0), "0");
    assert_eq!(decimal_string(7), "7");
    assert_eq!(decimal_string(10), "10");
    assert_eq!(decimal_string(1234567890), "1234567890");
    assert_eq!(decimal_string(u128::MAX), u128::MAX.to_string());
}

#[test]
fn byte_list_matches_debug_rendering() {
    assert_eq!(byte_list_string(&[]), "[]");
    assert_eq!(byte_list_string(&[5]), "[5]");
    assert_eq!(byte_list_string(&[1, 22, 255]), "[1, 22, 255]");
    let v: Vec<u8> = (0..40).map(|i| (i * 7) as u8).collect();
    assert_eq!(byte_list_string(&v), format!("{:?}", v));
}

#[test]
fn hex_is_lowercase_two_digits_per_byte() {
    assert_eq!(hex_string(&[]), "");
    assert_eq!(hex_string(&[0x00, 0x0f, 0xbe, 0xef]), "000fbeef");
    assert_eq!(prefixed_hex(&[0xab, 0x01]), "0xab01");
}

#[test]
fn name_text_decodes_utf8_or_shows_bytes() {
    assert_eq!(name_text("nucleus-α".as_bytes()), "nucleus-α");
    assert_eq!(name_text(&[0x61, 0xff]), "Invalid UTF-8: [97, 255]");
    assert_eq!(name_text(&[]), "");
}

#[test]
fn ss58_text_renders_known_account() {
    assert_eq!(ss58_text(&ALICE, 42), ALICE_SS58);
}

#[test]
fn ss58_text_under_network_prefix_differs_from_generic_one() {
    let text = ss58_text(&ALICE, nucleus_dashboard_api::config::VERISENSE_PREFIX);
    assert_ne!(text, ALICE_SS58);
    assert_eq!(text, ss58_text(&ALICE, nucleus_dashboard_api::config::VERISENSE_PREFIX));
    assert_ne!(text, ss58_text(&[0u8; 32], nucleus_dashboard_api::config::VERISENSE_PREFIX));
}
