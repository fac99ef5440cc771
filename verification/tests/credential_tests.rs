use nostr_connect_session::conditions::Condition;
use nostr_connect_session::conditions::Conditions;
use nostr_connect_session::conditions::conditions_for;
use nostr_connect_session::credential::DelegationInfo;
use nostr_connect_session::credential::delegation_token;

#[test]
fn delegation_token_exact_bytes() {
    let delegate: Vec<u8> = vec![0xab; 32];
    let kinds: Vec<u64> = vec![1];
    let conditions = conditions_for(5, 10, &kinds);
    let token = delegation_token(&delegate, &conditions);
    let mut expected = b"nostr:delegation:".to_vec();
    expected.extend_from_slice("ab".repeat(32).as_bytes());
    expected.extend_from_slice(b":created_at>5&created_at<10&kind=1");
    assert_eq!(token, expected);
}

#[test]
fn record_round_trips_through_serialization() {
    let kinds: Vec<u64> = vec![1, 77];
    let info = DelegationInfo {
        delegator_pubkey: (0u8..32).collect(),
        conditions: conditions_for(1000, 2000, &kinds),
        signature: (0u8..64).collect(),
    };
    let record = info.encode_record();
    let parsed = DelegationInfo::parse_record_bytes(&record).expect("record must parse");
    assert_eq!(parsed.delegator_pubkey, info.delegator_pubkey);
    assert_eq!(parsed.signature, info.signature);
    assert_eq!(parsed.conditions.to_bytes(), info.conditions.to_bytes());
    assert_eq!(parsed.created_after(), Some(1000));
    assert_eq!(parsed.created_before(), Some(2000));
    assert_eq!(parsed.kinds(), vec![1, 77]);
}

#[test]
fn record_round_trips_with_no_conditions() {
    let info = DelegationInfo {
        delegator_pubkey: vec![7; 32],
        conditions: Conditions::new(),
        signature: vec![9; 64],
    };
    let record = info.encode_record();
    let parsed = DelegationInfo::parse_record_bytes(&record).expect("record must parse");
    assert_eq!(parsed.conditions.len(), 0);
    assert_eq!(parsed.delegator_pubkey, info.delegator_pubkey);
}

#[test]
fn malformed_records_are_rejected() {
    assert!(DelegationInfo::parse_record_bytes(&Vec::new()).is_none());
    assert!(DelegationInfo::parse_record_bytes(&vec![b'a'; 191]).is_none());
    // 192 hex characters, then a unit with an unknown tag character.
    let mut bad_tag = vec![b'a'; 192];
    bad_tag.push(b'z');
    bad_tag.extend_from_slice(&[b'0'; 16]);
    assert!(DelegationInfo::parse_record_bytes(&bad_tag).is_none());
    // A unit cut short.
    let mut short_unit = vec![b'a'; 192];
    short_unit.push(b'k');
    short_unit.extend_from_slice(&[b'0'; 8]);
    assert!(DelegationInfo::parse_record_bytes(&short_unit).is_none());
    // Non-hex where the key belongs.
    let mut bad_hex = vec![b'a'; 192];
    bad_hex[10] = b'x';
    assert!(DelegationInfo::parse_record_bytes(&bad_hex).is_none());
}

#[test]
fn record_units_keep_condition_order() {
    let mut conditions = Conditions::new();
    conditions.add(Condition::Kind(3));
    conditions.add(Condition::CreatedAfter(8));
    let info = DelegationInfo {
        delegator_pubkey: vec![1; 32],
        conditions,
        signature: vec![2; 64],
    };
    let parsed = DelegationInfo::parse_record_bytes(&info.encode_record()).expect("parses");
    assert_eq!(parsed.conditions.to_bytes(), b"kind=3&created_at>8".to_vec());
}
