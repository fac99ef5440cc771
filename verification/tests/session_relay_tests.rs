use nostr_connect_session::SessionError;
use nostr_connect_session::session::Session;

fn new_session() -> Session {
    let relay: Vec<u8> = b"wss://relay.example/connect".to_vec();
    let (session, fresh) =
        Session::create_or_restore(None, None, None, &relay, b"demo app".to_vec())
            .expect("valid connect relay");
    assert!(fresh);
    session
}

#[test]
fn adding_same_relay_twice_keeps_one_entry() {
    let mut s = new_session();
    let uri: Vec<u8> = b"wss://relay.one.example".to_vec();
    let before = s.get_relays().len();
    let n1 = s.add_relay(&uri).expect("valid relay uri");
    assert_eq!(s.get_relays().len(), before + 1);
    let n2 = s.add_relay(&uri).expect("valid relay uri");
    assert_eq!(n1, n2);
    assert_eq!(s.get_relays().len(), before + 1);
    assert!(s.get_relays().contains(&n1));
}

#[test]
fn removing_absent_relay_is_a_noop() {
    let mut s = new_session();
    let before = s.get_relays().len();
    let absent: Vec<u8> = b"wss://nowhere.example".to_vec();
    assert!(s.remove_relay(&absent).is_none());
    assert_eq!(s.get_relays().len(), before);
    let malformed: Vec<u8> = b"not a uri".to_vec();
    assert!(s.remove_relay(&malformed).is_none());
    assert_eq!(s.get_relays().len(), before);
}

#[test]
fn remove_relay_disconnects_exactly_that_uri() {
    let mut s = new_session();
    let a: Vec<u8> = b"wss://a.example".to_vec();
    let b: Vec<u8> = b"wss://b.example".to_vec();
    let na = s.add_relay(&a).expect("valid");
    let nb = s.add_relay(&b).expect("valid");
    let removed = s.remove_relay(&a).expect("was present");
    assert_eq!(removed, na);
    assert!(!s.get_relays().contains(&na));
    assert!(s.get_relays().contains(&nb));
}

#[test]
fn relay_uris_are_normalized_before_dedup() {
    let mut s = new_session();
    let n1 = s.add_relay(&b"wss://RELAY.Two.Example".to_vec()).expect("valid");
    assert_eq!(n1, b"wss://relay.two.example".to_vec());
    let before = s.get_relays().len();
    s.add_relay(&b"wss://relay.two.example/".to_vec()).expect("valid");
    assert_eq!(s.get_relays().len(), before);
}

#[test]
fn invalid_relay_uris_are_rejected_without_state_change() {
    let mut s = new_session();
    let before = s.get_relays().len();
    assert_eq!(s.add_relay(&b"http://relay.example".to_vec()), Err(SessionError::InvalidRelayUri));
    assert_eq!(s.add_relay(&b"not a uri at all".to_vec()), Err(SessionError::InvalidRelayUri));
    assert_eq!(s.get_relays().len(), before);
    assert_eq!(
        s.set_connect_relay(&b"ftp://relay.example".to_vec()),
        Err(SessionError::InvalidRelayUri)
    );
    assert_eq!(s.get_connect_relay(), b"wss://relay.example/connect".to_vec());
}

#[test]
fn invalid_connect_relay_fails_session_creation() {
    let relay: Vec<u8> = b"http://relay.example".to_vec();
    let r = Session::create_or_restore(None, None, None, &relay, b"demo app".to_vec());
    assert!(matches!(r, Err(SessionError::InvalidRelayUri)));
}

#[test]
fn connect_relay_and_publish_set_are_independent() {
    let mut s = new_session();
    let extra: Vec<u8> = b"wss://extra.example".to_vec();
    let normalized_extra = s.add_relay(&extra).expect("valid");
    let members_before = s.get_relays().len();

    s.set_connect_relay(&b"wss://other.example".to_vec()).expect("valid");
    assert_eq!(s.get_connect_relay(), b"wss://other.example".to_vec());
    assert_eq!(s.get_relays().len(), members_before);
    assert!(s.get_relays().contains(&normalized_extra));

    let another: Vec<u8> = b"wss://yet.another.example".to_vec();
    s.add_relay(&another).expect("valid");
    s.remove_relay(&extra).expect("was present");
    assert_eq!(s.get_connect_relay(), b"wss://other.example".to_vec());
}
