use cursock::Ipv4;
use cursock::Mac;
use cursock::text::fmt_hex_byte;
use cursock::text::fmt_i32;
use cursock::text::fmt_u32;

#[test]
fn ipv4_round_trip() {
    let bytes: [u8; 4] = [1, 2, 3, 4];
    let ip = Ipv4::from_bytes(bytes);
    assert_eq!(ip.to_bytes(), bytes);
}

#[test]
fn ipv4_round_trip_extremes() {
    for bytes in [[0u8, 0, 0, 0], [255u8, 255, 255, 255], [127u8, 0, 0, 1]] {
        assert_eq!(Ipv4::from_bytes(bytes).to_bytes(), bytes);
    }
}

#[test]
fn mac_round_trip() {
    let bytes: [u8; 6] = [0xde, 0xad, 0xbe, 0xef, 0x00, 0x1a];
    let mac = Mac::from_bytes(bytes);
    assert_eq!(mac.to_bytes(), bytes);
}

#[test]
fn ipv4_formats_dotted_decimal() {
    let ip = Ipv4::from_bytes([192, 168, 1, 1]);
    assert_eq!(ip.to_dotted_decimal().as_str(), "192.168.1.1");
}

#[test]
fn ipv4_formats_edge_values() {
    assert_eq!(Ipv4::from_bytes([0, 0, 0, 0]).to_dotted_decimal().as_str(), "0.0.0.0");
    assert_eq!(
        Ipv4::from_bytes([255, 255, 255, 255]).to_dotted_decimal().as_str(),
        "255.255.255.255"
    );
}

#[test]
fn mac_formats_colon_hex() {
    let mac = Mac::from_bytes([0, 0, 0, 0, 0, 1]);
    assert_eq!(mac.to_colon_hex().as_str(), "00:00:00:00:00:01");
}

#[test]
fn mac_formats_hex_letters() {
    let mac = Mac::from_bytes([0xde, 0xad, 0xbe, 0xef, 0x00, 0x1a]);
    assert_eq!(mac.to_colon_hex().as_str(), "de:ad:be:ef:00:1a");
}

#[test]
fn decimal_formatting_values() {
    assert_eq!(fmt_u32(0).as_str(), "0");
    assert_eq!(fmt_u32(7).as_str(), "7");
    assert_eq!(fmt_u32(10).as_str(), "10");
    assert_eq!(fmt_u32(305).as_str(), "305");
    assert_eq!(fmt_u32(4294967295).as_str(), "4294967295");
}

#[test]
fn signed_decimal_formatting_values() {
    assert_eq!(fmt_i32(0).as_str(), "0");
    assert_eq!(fmt_i32(42).as_str(), "42");
    assert_eq!(fmt_i32(-1).as_str(), "-1");
    assert_eq!(fmt_i32(-2147483648).as_str(), "-2147483648");
    assert_eq!(fmt_i32(2147483647).as_str(), "2147483647");
}

#[test]
fn hex_byte_formatting_values() {
    assert_eq!(fmt_hex_byte(0).as_str(), "00");
    assert_eq!(fmt_hex_byte(9).as_str(), "09");
    assert_eq!(fmt_hex_byte(0x1a).as_str(), "1a");
    assert_eq!(fmt_hex_byte(255).as_str(), "ff");
}
