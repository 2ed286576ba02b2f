use tgwol::mac::{MacAddress, MacError};
use tgwol::packet::MagicPacket;

const NAS: [u8; 6] = [0xAA, 0xBB, 0xCC, 0xDD, 0xEE, 0xFF];

#[test]
fn parse_colon_separated_upper_case() {
    let m = MacAddress::parse("AA:BB:CC:DD:EE:FF", ':').unwrap();
    assert_eq!(m.octets, NAS);
}

#[test]
fn parse_lower_and_mixed_case() {
    assert_eq!(MacAddress::parse("aa:bb:cc:dd:ee:ff", ':').unwrap().octets, NAS);
    assert_eq!(MacAddress::parse("aA:Bb:cC:Dd:eE:Ff", ':').unwrap().octets, NAS);
}

#[test]
fn parse_with_configured_separator() {
    let m = MacAddress::parse("00-01-02-03-04-05", '-').unwrap();
    assert_eq!(m.octets, [0, 1, 2, 3, 4, 5]);
}

#[test]
fn parse_round_trip_of_joined_octets() {
    let octets = [0x01, 0x23, 0x45, 0x67, 0x89, 0xAB];
    for (text, sep) in [("01.23.45.67.89.AB", '.'), ("01 23 45 67 89 AB", ' '), ("01z23z45z67z89zAB", 'z')] {
        assert_eq!(MacAddress::parse(text, sep).unwrap().octets, octets);
    }
}

#[test]
fn parse_rejects_too_few_fields() {
    assert_eq!(MacAddress::parse("AA:BB:CC:DD:EE", ':'), Err(MacError::InvalidFormat));
}

#[test]
fn parse_rejects_too_many_fields() {
    assert_eq!(MacAddress::parse("AA:BB:CC:DD:EE:FF:00", ':'), Err(MacError::InvalidFormat));
}

#[test]
fn parse_rejects_non_hex_characters() {
    assert_eq!(MacAddress::parse("ZZ:02:03:04:05:06", ':'), Err(MacError::InvalidFormat));
    assert_eq!(MacAddress::parse("0G:02:03:04:05:06", ':'), Err(MacError::InvalidFormat));
}

#[test]
fn parse_rejects_wrong_separator() {
    assert_eq!(MacAddress::parse("AA-BB-CC-DD-EE-FF", ':'), Err(MacError::InvalidFormat));
    assert_eq!(MacAddress::parse("01002:03:04:05:06", ':'), Err(MacError::InvalidFormat));
}

#[test]
fn parse_rejects_empty_and_long_fields() {
    assert_eq!(MacAddress::parse("", ':'), Err(MacError::InvalidFormat));
    assert_eq!(MacAddress::parse(":::::", ':'), Err(MacError::InvalidFormat));
    assert_eq!(MacAddress::parse("010203:040506::::", ':'), Err(MacError::InvalidFormat));
    assert_eq!(MacAddress::parse("AAA:BB:CC:DD:EE:F", ':'), Err(MacError::InvalidFormat));
}

#[test]
fn parse_rejects_separator_inside_a_field() {
    assert_eq!(MacAddress::parse("AAABACADAEAF0", 'A'), Err(MacError::InvalidFormat));
    assert_eq!(MacAddress::parse("1A1A1A1A1A1A1", 'A'), Err(MacError::InvalidFormat));
    assert_eq!(MacAddress::parse("AA:BB:CC:DD:EE:FF", 'A'), Err(MacError::InvalidFormat));
}

#[test]
fn build_frames_header_and_sixteen_copies() {
    let p = MagicPacket::build(&MacAddress { octets: NAS });
    assert_eq!(p.bytes.len(), 102);
    assert_eq!(&p.bytes[0..6], &[0xFF; 6]);
    for k in 0..16 {
        assert_eq!(&p.bytes[6 + 6 * k..12 + 6 * k], &NAS);
    }
}

#[test]
fn build_exact_bytes() {
    let mac = [0x00, 0x01, 0x02, 0x03, 0x04, 0x05];
    let p = MagicPacket::build(&MacAddress { octets: mac });
    let mut expected = vec![0xFFu8; 6];
    for _ in 0..16 {
        expected.extend_from_slice(&mac);
    }
    assert_eq!(p.bytes, expected);
}

#[test]
fn build_all_ones_address() {
    let p = MagicPacket::build(&MacAddress { octets: [0xFF; 6] });
    assert_eq!(p.bytes, vec![0xFFu8; 102]);
}
