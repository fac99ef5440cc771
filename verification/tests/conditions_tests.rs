use nostr_connect_session::conditions::Condition;
use nostr_connect_session::conditions::Conditions;
use nostr_connect_session::conditions::conditions_for;

#[test]
fn conditions_text_exact() {
    let kinds: Vec<u64> = vec![1, 77];
    let c = conditions_for(5, 10, &kinds);
    assert_eq!(c.to_bytes(), b"created_at>5&created_at<10&kind=1&kind=77".to_vec());
}

#[test]
fn conditions_text_empty_and_single() {
    let empty = Conditions::new();
    assert_eq!(empty.to_bytes(), Vec::<u8>::new());
    let mut single = Conditions::new();
    single.add(Condition::Kind(1));
    assert_eq!(single.to_bytes(), b"kind=1".to_vec());
}

#[test]
fn condition_accessors_find_first() {
    let kinds: Vec<u64> = vec![4, 7];
    let c = conditions_for(100, 200, &kinds);
    assert_eq!(c.created_after(), Some(100));
    assert_eq!(c.created_before(), Some(200));
    assert_eq!(c.kinds(), vec![4, 7]);
    let empty = Conditions::new();
    assert_eq!(empty.created_after(), None);
    assert_eq!(empty.created_before(), None);
    assert_eq!(empty.kinds(), Vec::<u64>::new());
}

#[test]
fn temporal_validity_bounds_are_strict() {
    let kinds: Vec<u64> = vec![1];
    let c = conditions_for(5, 10, &kinds);
    assert!(!c.is_active_at(5));
    assert!(c.is_active_at(6));
    assert!(c.is_active_at(9));
    assert!(!c.is_active_at(10));
    assert!(!c.is_active_at(0));
    assert!(!c.is_active_at(u64::MAX));
}

#[test]
fn unbounded_conditions_always_active() {
    let mut c = Conditions::new();
    c.add(Condition::Kind(1));
    assert!(c.is_active_at(0));
    assert!(c.is_active_at(u64::MAX));
}
