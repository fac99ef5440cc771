use nostr_connect_session::session::Session;

fn bound_relay() -> Vec<u8> {
    b"wss://relay.example/connect".to_vec()
}

fn fresh_session() -> Session {
    let (session, _) =
        Session::create_or_restore(None, None, None, &bound_relay(), b"demo app".to_vec())
            .expect("valid connect relay");
    session
}

fn remote_key() -> Vec<u8> {
    nostr_sdk::prelude::Keys::generate().public_key().to_bytes().to_vec()
}

#[test]
fn handshake_binds_remote_signer_and_publish_works_untagged() {
    let mut s = fresh_session();
    assert!(s.get_remote_signer().is_none());

    let (invitation, epoch) = s.begin_handshake();
    let invitation = invitation.expect("invitation renders");
    assert!(invitation.starts_with("nostrconnect://"));

    let remote = remote_key();
    assert!(s.handle_signer_response(epoch, &remote));
    assert_eq!(s.get_remote_signer(), Some(remote));

    let note = s.prepare_note(b"hello".to_vec());
    assert_eq!(note.content, b"hello".to_vec());
    assert!(note.tag.is_none());

    // Author the note (no delegation tag) and check the resulting event
    // identifier is well-formed.
    let keys = nostr_sdk::prelude::Keys::generate();
    let event = nostr::event::FinalizeEvent::finalize(
        nostr_sdk::prelude::EventBuilder::new(
            nostr_sdk::prelude::Kind::TextNote,
            String::from_utf8(note.content).expect("utf-8 content"),
        ),
        &keys,
    )
    .expect("signing succeeds");
    let id = event.id.to_hex().into_bytes();
    assert!(nostr_connect_session::session::is_event_id_hex(&id));
}

#[test]
fn invitation_is_rederivable_byte_for_byte() {
    let mut s = fresh_session();
    let (i1, _) = s.begin_handshake();
    let (i2, _) = s.begin_handshake();
    assert_eq!(i1.expect("renders"), i2.expect("renders"));
}

#[test]
fn invitation_names_this_identity_and_relay() {
    let mut s = fresh_session();
    let (invitation, _) = s.begin_handshake();
    let parsed = nostr::nips::nip46::NostrConnectUri::parse(invitation.expect("renders"))
        .expect("invitation parses");
    match parsed {
        nostr::nips::nip46::NostrConnectUri::Client { public_key, relays, .. } => {
            assert_eq!(public_key.to_bytes().to_vec(), s.get_app_pubkey());
            assert_eq!(relays.len(), 1);
            assert_eq!(relays[0].as_str().as_bytes().to_vec(), s.get_connect_relay());
        }
        _ => panic!("expected a client invitation"),
    }
}

#[test]
fn stale_handshake_responses_are_rejected() {
    let mut s = fresh_session();
    let (_, first_epoch) = s.begin_handshake();
    let (_, second_epoch) = s.begin_handshake();
    assert!(first_epoch < second_epoch);

    let remote = remote_key();
    assert!(!s.handle_signer_response(first_epoch, &remote));
    assert!(s.get_remote_signer().is_none());

    assert!(s.handle_signer_response(second_epoch, &remote));
    assert_eq!(s.get_remote_signer(), Some(remote));

    // A later duplicate of the same epoch no longer finds a pending handshake.
    assert!(!s.handle_signer_response(second_epoch, &remote_key()));
}

#[test]
fn malformed_signer_keys_are_rejected() {
    let mut s = fresh_session();
    let (_, epoch) = s.begin_handshake();
    let short: Vec<u8> = vec![1, 2, 3];
    assert!(!s.handle_signer_response(epoch, &short));
    assert!(s.get_remote_signer().is_none());
}

#[test]
fn identity_restores_from_stored_secret_key() {
    let s = fresh_session();
    let sk = s.secret_key();
    let pk = s.get_app_pubkey();
    let (restored, fresh) =
        Session::create_or_restore(Some(sk), None, None, &bound_relay(), b"demo app".to_vec())
            .expect("valid connect relay");
    assert!(!fresh);
    assert_eq!(restored.get_app_pubkey(), pk);
}

#[test]
fn malformed_stored_key_material_falls_back_to_generation() {
    let (s1, fresh1) = Session::create_or_restore(
        Some(vec![1, 2, 3]),
        None,
        None,
        &bound_relay(),
        b"demo app".to_vec(),
    )
    .expect("valid connect relay");
    assert!(fresh1);
    assert_eq!(s1.get_app_pubkey().len(), 32);

    // 32 zero bytes are not a valid secret key either.
    let (_, fresh2) = Session::create_or_restore(
        Some(vec![0; 32]),
        None,
        None,
        &bound_relay(),
        b"demo app".to_vec(),
    )
    .expect("valid connect relay");
    assert!(fresh2);
}

#[test]
fn stored_remote_signer_restores_bound_session() {
    let remote = remote_key();
    let (s, _) = Session::create_or_restore(
        None,
        Some(remote.clone()),
        None,
        &bound_relay(),
        b"demo app".to_vec(),
    )
    .expect("valid connect relay");
    assert_eq!(s.get_remote_signer(), Some(remote));
}

#[test]
fn log_out_discards_identity_and_records() {
    let mut s = fresh_session();
    let (_, epoch) = s.begin_handshake();
    assert!(s.handle_signer_response(epoch, &remote_key()));
    let old_pk = s.get_app_pubkey();

    s.log_out();
    assert_ne!(s.get_app_pubkey(), old_pk);
    assert!(s.get_remote_signer().is_none());
    let record = s.store_record();
    assert!(record.remote_pub_key.is_none());
    assert!(record.credential.is_none());
    assert_eq!(record.priv_key.as_ref().expect("identity persisted"), &s.secret_key());
    assert_eq!(s.get_relays().len(), 1);
}

#[test]
fn authoring_needs_a_signer_or_a_delegation() {
    let mut s = fresh_session();
    assert!(!s.can_author());
    let (_, epoch) = s.begin_handshake();
    assert!(!s.can_author());
    assert!(s.handle_signer_response(epoch, &remote_key()));
    assert!(s.can_author());
    s.log_out();
    assert!(!s.can_author());
}

#[test]
fn new_session_publishes_through_connect_relay() {
    let s = fresh_session();
    assert_eq!(s.get_relays().len(), 1);
    assert!(s.get_relays().contains(&s.get_connect_relay()));
    let record = s.store_record();
    assert_eq!(record.priv_key.as_ref().expect("identity persisted"), &s.secret_key());
    assert!(record.remote_pub_key.is_none());
    assert!(record.credential.is_none());
}

#[test]
fn binding_is_mirrored_into_the_store() {
    let mut s = fresh_session();
    let (_, epoch) = s.begin_handshake();
    let remote = remote_key();
    assert!(s.handle_signer_response(epoch, &remote));
    assert_eq!(s.store_record().remote_pub_key.as_ref(), Some(&remote));

    s.set_remote_pubkey(None);
    assert!(s.store_record().remote_pub_key.is_none());
    assert!(s.get_remote_signer().is_none());

    s.set_remote_pubkey(Some(remote.clone()));
    assert_eq!(s.get_remote_signer(), Some(remote));
}

#[test]
fn invitation_changes_with_the_connect_relay() {
    let mut s = fresh_session();
    let before = s.invitation().expect("renders");
    assert_eq!(s.invitation().expect("renders"), before);
    let (from_handshake, _) = s.begin_handshake();
    assert_eq!(from_handshake.expect("renders"), before);

    s.set_connect_relay(&b"wss://elsewhere.example".to_vec()).expect("valid");
    let after = s.invitation().expect("renders");
    assert_ne!(after, before);
    assert!(after.contains("elsewhere.example"));
}
