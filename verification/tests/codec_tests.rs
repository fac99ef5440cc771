use nostr_connect_session::encoding::bytes_eq;
use nostr_connect_session::encoding::copy_bytes;
use nostr_connect_session::encoding::decode_hex_range;
use nostr_connect_session::encoding::push_be_bytes_of_u64;
use nostr_connect_session::encoding::push_dec_of_u64;
use nostr_connect_session::encoding::push_hex_of_bytes;
use nostr_connect_session::encoding::read_u64_be;
use nostr_connect_session::session::is_event_id_hex;

#[test]
fn hex_encoding_of_known_bytes() {
    let data: Vec<u8> = vec![0x00, 0x0f, 0x10, 0xbe, 0xef, 0xff];
    let mut out: Vec<u8> = Vec::new();
    push_hex_of_bytes(&data, &mut out);
    assert_eq!(out, b"000f10beefff".to_vec());
}

#[test]
fn hex_decoding_round_trips() {
    let data: Vec<u8> = (0u16..=255).map(|b| b as u8).collect();
    let mut encoded: Vec<u8> = Vec::new();
    push_hex_of_bytes(&data, &mut encoded);
    let decoded = decode_hex_range(&encoded, 0, encoded.len()).expect("valid hex must decode");
    assert_eq!(decoded, data);
}

#[test]
fn hex_decoding_rejects_non_hex() {
    let bad: Vec<u8> = b"0g".to_vec();
    assert!(decode_hex_range(&bad, 0, 2).is_none());
    let upper: Vec<u8> = b"AB".to_vec();
    assert!(decode_hex_range(&upper, 0, 2).is_none());
}

#[test]
fn decimal_rendering_exact() {
    let mut out: Vec<u8> = Vec::new();
    push_dec_of_u64(0, &mut out);
    assert_eq!(out, b"0".to_vec());
    let mut out2: Vec<u8> = Vec::new();
    push_dec_of_u64(1234567890123456789, &mut out2);
    assert_eq!(out2, b"1234567890123456789".to_vec());
    let mut out3: Vec<u8> = Vec::new();
    push_dec_of_u64(u64::MAX, &mut out3);
    assert_eq!(out3, b"18446744073709551615".to_vec());
}

#[test]
fn big_endian_u64_round_trips() {
    for n in [0u64, 1, 255, 256, 65535, u64::MAX, 1700000000] {
        let mut out: Vec<u8> = Vec::new();
        push_be_bytes_of_u64(n, &mut out);
        assert_eq!(out.len(), 8);
        assert_eq!(read_u64_be(&out), n);
    }
}

#[test]
fn byte_helpers_compare_and_copy() {
    let a: Vec<u8> = vec![1, 2, 3];
    let b = copy_bytes(&a);
    assert!(bytes_eq(&a, &b));
    let c: Vec<u8> = vec![1, 2, 4];
    assert!(!bytes_eq(&a, &c));
    assert!(!bytes_eq(&a, &vec![1, 2]));
}

#[test]
fn event_id_wellformedness() {
    let id: Vec<u8> = b"5c83da77af1dec6d7289834998ad7aafbd9e2191396d75ec3b99963256d1eeeb".to_vec();
    assert!(is_event_id_hex(&id));
    let short: Vec<u8> = b"5c83da77".to_vec();
    assert!(!is_event_id_hex(&short));
    let upper: Vec<u8> = b"5C83DA77AF1DEC6D7289834998AD7AAFBD9E2191396D75EC3B99963256D1EEEB".to_vec();
    assert!(!is_event_id_hex(&upper));
}
