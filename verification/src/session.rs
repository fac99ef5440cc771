//! The session: one object owning the identity, the relay set, the
//! remote-signer handshake state machine, the delegation credential, and
//! the preparation of notes for publishing. Network work (connecting,
//! sending requests, publishing) happens outside; the session decides, at
//! any moment, who may sign for this identity and what a note carries.
use vstd::prelude::*;

use crate::SessionError;
use crate::conditions::Condition;
use crate::conditions::Conditions;
use crate::conditions::cond_str_of;
use crate::conditions::conditions_for;
use crate::credential::DelegationInfo;
use crate::credential::DelegationModel;
use crate::credential::parse_record;
use crate::credential::record_of;
use crate::credential::lemma_record_round_trip;
use crate::crypto::delegation_sig_ok;
use crate::crypto::derive_pubkey;
use crate::crypto::generate_keys;
use crate::crypto::is_valid_sk;
use crate::crypto::now_unix;
use crate::crypto::pubkey_of;
use crate::crypto::random_bytes;
use crate::crypto::verify_delegation;
use crate::encoding::copy_bytes;
use crate::encoding::push_hex_of_bytes;
use crate::relay::RelaySet;
use crate::relay::check_ws_uri;
use crate::relay::is_ws_uri;
use crate::relay::nodup;
use crate::relay::normalize_relay_uri;
use crate::relay::relay_norm_of;

verus! {

/// The connect invitation that nostr's `NostrConnectUri` renders for a
/// delegate key, one relay, an application name and an anti-spoofing
/// secret, or `None` when the inputs do not convert (a key that is not 32
/// bytes, a relay that does not re-parse, text that is not UTF-8).
pub uninterp spec fn invite_of(
    pk: Seq<u8>,
    relay: Seq<u8>,
    name: Seq<u8>,
    secret: Seq<u8>,
) -> Option<Seq<char>>;

/// Relies on nostr's `NostrConnectUri::client_with_secret` and its
/// `Display`: the rendered invitation depends on the four inputs alone, so
/// it is re-derivable byte for byte for display.
#[verifier::external_body]
fn connect_invitation(pk: &Vec<u8>, relay: &Vec<u8>, name: &Vec<u8>, secret: &Vec<u8>) -> (r:
    Option<String>)
    ensures
        match r {
            Some(s) => invite_of(pk@, relay@, name@, secret@) == Some(s@),
            None => invite_of(pk@, relay@, name@, secret@) is None,
        },
{
    let pk_arr: [u8; 32] = pk.as_slice().try_into().ok()?;
    let public_key = nostr_sdk::prelude::PublicKey::from_byte_array(pk_arr);
    let relay_text = core::str::from_utf8(relay.as_slice()).ok()?;
    let relay_url = nostr_sdk::prelude::RelayUrl::parse(relay_text).ok()?;
    let uri = nostr::nips::nip46::NostrConnectUri::client_with_secret(
        public_key,
        [relay_url],
        core::str::from_utf8(name.as_slice()).ok()?,
        core::str::from_utf8(secret.as_slice()).ok()?,
    );
    Some(uri.to_string())
}

/// The remote-signer handshake state.
#[derive(Debug)]
pub enum SignerState {
    /// No handshake attempted, or the last one was abandoned.
    Unbound,
    /// An invitation was issued; the signer's key is awaited.
    AwaitingSignerKey,
    /// A remote signer's public key is known and trusted.
    Bound(Vec<u8>),
}

/// Model of the handshake state.
pub enum PhaseModel {
    /// No handshake attempted, or the last one was abandoned.
    Unbound,
    /// An invitation was issued; the signer's key is awaited.
    AwaitingSignerKey,
    /// Bound to the remote signer with these public key bytes.
    Bound(Seq<u8>),
}

/// The per-session persistence record, as plain values. The session keeps
/// it in sync with its in-memory state; the surrounding program mirrors it
/// into durable storage and hands it back at the next start.
#[derive(Debug)]
pub struct StoreRecord {
    /// The identity's secret key bytes.
    pub priv_key: Option<Vec<u8>>,
    /// The bound remote signer's public key bytes.
    pub remote_pub_key: Option<Vec<u8>>,
    /// The delegation credential's persistence record.
    pub credential: Option<Vec<u8>>,
}

/// Model of the persistence record.
#[verifier::ext_equal]
pub struct StoreModel {
    /// The identity's secret key bytes.
    pub priv_key: Option<Seq<u8>>,
    /// The bound remote signer's public key bytes.
    pub remote_pub_key: Option<Seq<u8>>,
    /// The delegation credential's persistence record.
    pub credential: Option<Seq<u8>>,
}

/// Model of a session.
#[verifier::ext_equal]
pub struct SessionModel {
    /// The identity's secret key bytes.
    pub sk: Seq<u8>,
    /// The identity's public key bytes.
    pub pk: Seq<u8>,
    /// The application display name carried in invitations.
    pub name: Seq<u8>,
    /// The anti-spoofing secret carried in invitations.
    pub secret: Seq<u8>,
    /// The normalized URI of the connect relay.
    pub connect_relay: Seq<u8>,
    /// The normalized URIs of the publish relays.
    pub relays: Seq<Seq<u8>>,
    /// The handshake state.
    pub phase: PhaseModel,
    /// The epoch of the newest handshake request; older responses are stale.
    pub epoch: u64,
    /// The persistence record.
    pub store: StoreModel,
}

/// Maps an optional byte vector to its model.
pub open spec fn opt_bytes(o: Option<Vec<u8>>) -> Option<Seq<u8>> {
    match o {
        Some(v) => Some(v@),
        None => None,
    }
}

/// The credential that a session trusts right now: the persisted record
/// must parse and its signature must re-verify against this session's own
/// key as delegate. A missing, unparseable or untrusted record yields
/// `None`. Re-verifying on every read protects against tampering with the
/// durable record between runs.
pub open spec fn active_cred_of(credential: Option<Seq<u8>>, pk: Seq<u8>) -> Option<DelegationModel> {
    match credential {
        None => None,
        Some(raw) => match parse_record(raw) {
            None => None,
            Some(c) => if delegation_sig_ok(c.delegator_pubkey, pk, c.conditions, c.signature) {
                Some(c)
            } else {
                None
            },
        },
    }
}

/// A remote-signing session.
#[derive(Debug)]
pub struct Session {
    sk: Vec<u8>,
    pk: Vec<u8>,
    name: Vec<u8>,
    secret: Vec<u8>,
    connect_relay: Vec<u8>,
    relays: RelaySet,
    state: SignerState,
    epoch: u64,
    store: StoreRecord,
}

impl View for Session {
    type V = SessionModel;

    closed spec fn view(&self) -> SessionModel {
        SessionModel {
            sk: self.sk@,
            pk: self.pk@,
            name: self.name@,
            secret: self.secret@,
            connect_relay: self.connect_relay@,
            relays: self.relays.uris(),
            phase: match self.state {
                SignerState::Unbound => PhaseModel::Unbound,
                SignerState::AwaitingSignerKey => PhaseModel::AwaitingSignerKey,
                SignerState::Bound(ref s) => PhaseModel::Bound(s@),
            },
            epoch: self.epoch,
            store: StoreModel {
                priv_key: opt_bytes(self.store.priv_key),
                remote_pub_key: opt_bytes(self.store.remote_pub_key),
                credential: opt_bytes(self.store.credential),
            },
        }
    }
}

/// Internal consistency of a session.
pub open spec fn wf_session(m: SessionModel) -> bool {
    &&& m.sk.len() == 32
    &&& m.pk == pubkey_of(m.sk)
    &&& m.pk.len() == 32
    &&& is_ws_uri(m.connect_relay)
    &&& nodup(m.relays)
    &&& m.store.priv_key == Some(m.sk)
    &&& (m.phase matches PhaseModel::Bound(s) ==> s.len() == 32)
    &&& (match m.phase {
        PhaseModel::Bound(s) => m.store.remote_pub_key == Some(s),
        _ => m.store.remote_pub_key is None,
    })
}

impl Session {
    /// Internal consistency; established by the constructor, preserved by
    /// every operation.
    pub open spec fn wf(&self) -> bool {
        wf_session(self@)
    }

    /// Creates a session. The identity is restored from `seed` when those
    /// bytes are a well-formed secret key — the session then keeps the
    /// stored keypair — and generated fresh otherwise (the second
    /// component of the result says which). A stored remote
    /// signer key restores a bound session; a stored credential record is
    /// carried but only trusted after re-verification on read. Fails with
    /// `InvalidRelayUri` when the connect relay does not parse as a
    /// websocket URI, in which case nothing is created.
    pub fn create_or_restore(
        seed: Option<Vec<u8>>,
        stored_remote: Option<Vec<u8>>,
        stored_credential: Option<Vec<u8>>,
        connect_relay: &Vec<u8>,
        name: Vec<u8>,
    ) -> (r: Result<(Session, bool), SessionError>)
        ensures
            match r {
                Ok((s, fresh)) => {
                    &&& s.wf()
                    &&& (relay_norm_of(connect_relay@) matches Some(n) && s@.connect_relay == n
                        && is_ws_uri(n))
                    &&& s@.relays == seq![s@.connect_relay]
                    &&& s@.name == name@
                    &&& s@.epoch == 0
                    &&& (!fresh ==> (seed matches Some(k) && s@.sk == k@))
                    &&& (seed matches Some(k) ==> (is_valid_sk(k@) ==> (!fresh && s@.sk == k@
                        && s@.pk == pubkey_of(k@))))
                    &&& (seed is None ==> fresh)
                    &&& s@.store.credential == opt_bytes(stored_credential)
                    &&& (match stored_remote {
                        Some(k) => if k@.len() == 32 {
                            s@.phase == PhaseModel::Bound(k@)
                        } else {
                            s@.phase == PhaseModel::Unbound
                        },
                        None => s@.phase == PhaseModel::Unbound,
                    })
                },
                Err(e) => e == SessionError::InvalidRelayUri && (relay_norm_of(connect_relay@)
                    is None || (relay_norm_of(connect_relay@) matches Some(n) && !is_ws_uri(n))),
            },
    {
        let norm = match normalize_relay_uri(connect_relay) {
            Some(n) => n,
            None => {
                return Err(SessionError::InvalidRelayUri);
            },
        };
        if !check_ws_uri(&norm) {
            return Err(SessionError::InvalidRelayUri);
        }
        let (sk, pk, fresh) = match seed {
            Some(k) => match derive_pubkey(&k) {
                Some(p) => (k, p, false),
                None => {
                    let (gsk, gpk) = generate_keys();
                    (gsk, gpk, true)
                },
            },
            None => {
                let (gsk, gpk) = generate_keys();
                (gsk, gpk, true)
            },
        };
        let (state, remote_rec) = match stored_remote {
            Some(k) => {
                if k.len() == 32 {
                    let k2 = copy_bytes(&k);
                    (SignerState::Bound(k), Some(k2))
                } else {
                    (SignerState::Unbound, None)
                }
            },
            None => (SignerState::Unbound, None),
        };
        let mut relays = RelaySet::new();
        relays.insert(copy_bytes(&norm));
        let mut secret: Vec<u8> = Vec::new();
        let fresh_random = random_bytes();
        push_hex_of_bytes(&fresh_random, &mut secret);
        let store = StoreRecord {
            priv_key: Some(copy_bytes(&sk)),
            remote_pub_key: remote_rec,
            credential: stored_credential,
        };
        let s = Session {
            sk,
            pk,
            name,
            secret,
            connect_relay: norm,
            relays,
            state,
            epoch: 0,
            store,
        };
        proof {
            assert(s@.relays =~= seq![s@.connect_relay]);
        }
        Ok((s, fresh))
    }

    /// The public key of this session's identity.
    pub fn get_app_pubkey(&self) -> (r: Vec<u8>)
        ensures
            r@ == self@.pk,
    {
        copy_bytes(&self.pk)
    }

    /// The secret key of this session's identity, as the persistence
    /// record stores it.
    pub fn secret_key(&self) -> (r: Vec<u8>)
        ensures
            r@ == self@.sk,
    {
        copy_bytes(&self.sk)
    }

    /// The connect relay's normalized URI.
    pub fn get_connect_relay(&self) -> (r: Vec<u8>)
        ensures
            r@ == self@.connect_relay,
    {
        copy_bytes(&self.connect_relay)
    }

    /// The publish relay set.
    pub fn get_relays(&self) -> (r: &RelaySet)
        ensures
            r.uris() == self@.relays,
    {
        &self.relays
    }

    /// The bound remote signer's public key, if any.
    pub fn get_remote_signer(&self) -> (r: Option<Vec<u8>>)
        ensures
            match r {
                Some(k) => self@.phase == PhaseModel::Bound(k@),
                None => !(self@.phase is Bound),
            },
    {
        match &self.state {
            SignerState::Bound(k) => Some(copy_bytes(k)),
            _ => None,
        }
    }

    /// The persistence record to mirror into durable storage.
    pub fn store_record(&self) -> (r: &StoreRecord)
        ensures
            opt_bytes(r.priv_key) == self@.store.priv_key,
            opt_bytes(r.remote_pub_key) == self@.store.remote_pub_key,
            opt_bytes(r.credential) == self@.store.credential,
    {
        &self.store
    }

    /// Adds a relay to the publish set: parses and normalizes the URI,
    /// fails with `InvalidRelayUri` (state unchanged) when it does not
    /// parse or has a non-websocket scheme, and otherwise inserts it —
    /// a no-op when an equal URI is already present. Returns the
    /// normalized URI for the transport to connect to.
    pub fn add_relay(&mut self, uri: &Vec<u8>) -> (r: Result<Vec<u8>, SessionError>)
        requires
            old(self).wf(),
        ensures
            final(self).wf(),
            match r {
                Ok(n) => {
                    &&& relay_norm_of(uri@) == Some(n@)
                    &&& is_ws_uri(n@)
                    &&& final(self)@.relays.contains(n@)
                    &&& (old(self)@.relays.contains(n@) ==> final(self)@ == old(self)@)
                    &&& (!old(self)@.relays.contains(n@) ==> final(self)@ == (SessionModel {
                        relays: old(self)@.relays.push(n@),
                        ..old(self)@
                    }))
                },
                Err(e) => {
                    &&& e == SessionError::InvalidRelayUri
                    &&& final(self)@ == old(self)@
                    &&& (relay_norm_of(uri@) is None || (relay_norm_of(uri@) matches Some(n)
                        && !is_ws_uri(n)))
                },
            },
    {
        let norm = match normalize_relay_uri(uri) {
            Some(n) => n,
            None => {
                return Err(SessionError::InvalidRelayUri);
            },
        };
        if !check_ws_uri(&norm) {
            return Err(SessionError::InvalidRelayUri);
        }
        let out = copy_bytes(&norm);
        self.relays.insert(norm);
        proof {
            if old(self)@.relays.contains(out@) {
                assert(self@ =~= old(self)@);
            } else {
                assert(self@ =~= SessionModel { relays: old(self)@.relays.push(out@), ..old(self)@ });
            }
        }
        Ok(out)
    }

    /// Removes a relay from the publish set. A URI that does not parse, or
    /// is not in the set, makes this a no-op; nothing fails. Returns the
    /// normalized URI for the transport to disconnect from, when one was
    /// removed.
    pub fn remove_relay(&mut self, uri: &Vec<u8>) -> (r: Option<Vec<u8>>)
        requires
            old(self).wf(),
        ensures
            final(self).wf(),
            final(self)@ == (SessionModel { relays: final(self)@.relays, ..old(self)@ }),
            match r {
                Some(n) => {
                    &&& relay_norm_of(uri@) == Some(n@)
                    &&& old(self)@.relays.contains(n@)
                    &&& !final(self)@.relays.contains(n@)
                    &&& (forall|v: Seq<u8>|
                        v != n@ ==> final(self)@.relays.contains(v) == old(
                            self,
                        )@.relays.contains(v))
                },
                None => {
                    &&& final(self)@ == old(self)@
                    &&& (match relay_norm_of(uri@) {
                        Some(n) => !old(self)@.relays.contains(n),
                        None => true,
                    })
                },
            },
    {
        let norm = match normalize_relay_uri(uri) {
            Some(n) => n,
            None => {
                return None;
            },
        };
        let removed = self.relays.remove(&norm);
        proof {
            assert(self@ =~= (SessionModel { relays: self@.relays, ..old(self)@ }));
        }
        if removed {
            Some(norm)
        } else {
            proof {
                assert(self@ =~= old(self)@);
            }
            None
        }
    }

    /// Replaces the connect relay reference only: fails with
    /// `InvalidRelayUri` on malformed or non-websocket input, and never
    /// touches publish-set membership either way.
    pub fn set_connect_relay(&mut self, uri: &Vec<u8>) -> (r: Result<(), SessionError>)
        requires
            old(self).wf(),
        ensures
            final(self).wf(),
            final(self)@.relays == old(self)@.relays,
            match r {
                Ok(()) => relay_norm_of(uri@) matches Some(n) && is_ws_uri(n) && final(self)@
                    == (SessionModel { connect_relay: n, ..old(self)@ }),
                Err(e) => {
                    &&& e == SessionError::InvalidRelayUri
                    &&& final(self)@ == old(self)@
                    &&& (relay_norm_of(uri@) is None || (relay_norm_of(uri@) matches Some(n)
                        && !is_ws_uri(n)))
                },
            },
    {
        let norm = match normalize_relay_uri(uri) {
            Some(n) => n,
            None => {
                return Err(SessionError::InvalidRelayUri);
            },
        };
        if !check_ws_uri(&norm) {
            return Err(SessionError::InvalidRelayUri);
        }
        self.connect_relay = norm;
        Ok(())
    }
}

} // verus!
verus! {

/// A delegation request to send to the bound remote signer: this
/// session's key as delegate, and the requested conditions.
#[derive(Debug)]
pub struct DelegationRequest {
    /// The requesting (delegate) public key: this session's own key.
    pub delegate_pubkey: Vec<u8>,
    /// The requested conditions.
    pub conditions: Conditions,
}

/// The delegation tag to attach to an authored event: the exact triple
/// (delegator key, conditions, signature), with the conditions also in
/// their canonical text as the event encoding carries them.
#[derive(Debug)]
pub struct DelegationTag {
    /// The delegator's public key bytes.
    pub delegator_pubkey: Vec<u8>,
    /// The conditions of the credential.
    pub conditions: Conditions,
    /// The canonical text of the conditions.
    pub conditions_text: Vec<u8>,
    /// The delegator's signature bytes.
    pub signature: Vec<u8>,
}

/// A note ready for signing and publishing: content and the tags it must
/// carry.
#[derive(Debug)]
pub struct PreparedNote {
    /// The note's text content bytes.
    pub content: Vec<u8>,
    /// The delegation tag, present exactly when a credential is active.
    pub tag: Option<DelegationTag>,
}

impl Session {
    /// The connect invitation for this identity, the current connect
    /// relay and the display name, re-derived on demand: the same session
    /// renders the same bytes every time, so it can be displayed again
    /// whenever the connect relay changes.
    pub fn invitation(&self) -> (r: Option<String>)
        ensures
            match r {
                Some(s) => invite_of(self@.pk, self@.connect_relay, self@.name, self@.secret)
                    == Some(s@),
                None => invite_of(self@.pk, self@.connect_relay, self@.name, self@.secret)
                    is None,
            },
    {
        connect_invitation(&self.pk, &self.connect_relay, &self.name, &self.secret)
    }

    /// Starts (or restarts) the handshake: constructs the connect
    /// invitation addressed to this identity and the connect relay, moves
    /// to `AwaitingSignerKey`, and supersedes any earlier pending request
    /// by advancing the session epoch — a response to an earlier epoch
    /// will be rejected as stale. Returns the invitation to display and
    /// the new epoch. Safe to call repeatedly.
    pub fn begin_handshake(&mut self) -> (r: (Option<String>, u64))
        requires
            old(self).wf(),
            old(self)@.epoch < u64::MAX,
        ensures
            final(self).wf(),
            final(self)@.epoch == old(self)@.epoch + 1,
            r.1 == final(self)@.epoch,
            final(self)@ == (SessionModel {
                phase: PhaseModel::AwaitingSignerKey,
                epoch: (old(self)@.epoch + 1) as u64,
                store: StoreModel { remote_pub_key: None, ..old(self)@.store },
                ..old(self)@
            }),
            match r.0 {
                Some(s) => invite_of(
                    old(self)@.pk,
                    old(self)@.connect_relay,
                    old(self)@.name,
                    old(self)@.secret,
                ) == Some(s@),
                None => invite_of(
                    old(self)@.pk,
                    old(self)@.connect_relay,
                    old(self)@.name,
                    old(self)@.secret,
                ) is None,
            },
    {
        let invitation = connect_invitation(&self.pk, &self.connect_relay, &self.name, &self.secret);
        self.state = SignerState::AwaitingSignerKey;
        self.store.remote_pub_key = None;
        self.epoch = self.epoch + 1;
        let epoch = self.epoch;
        proof {
            assert(self@ =~= SessionModel {
                phase: PhaseModel::AwaitingSignerKey,
                epoch: (old(self)@.epoch + 1) as u64,
                store: StoreModel { remote_pub_key: None, ..old(self)@.store },
                ..old(self)@
            });
        }
        (invitation, epoch)
    }

    /// Delivers the remote signer's public key for the handshake of
    /// `epoch`. The binding is accepted — recorded, persisted — exactly
    /// when that epoch is the current one, a handshake is pending, and the
    /// key has the right length; anything else (in particular a response
    /// to a superseded handshake) changes nothing. Returns whether the
    /// binding was accepted.
    pub fn handle_signer_response(&mut self, epoch: u64, signer: &Vec<u8>) -> (accepted: bool)
        requires
            old(self).wf(),
        ensures
            final(self).wf(),
            accepted == (epoch == old(self)@.epoch && old(self)@.phase is AwaitingSignerKey
                && signer@.len() == 32),
            accepted ==> final(self)@ == (SessionModel {
                phase: PhaseModel::Bound(signer@),
                store: StoreModel { remote_pub_key: Some(signer@), ..old(self)@.store },
                ..old(self)@
            }),
            !accepted ==> final(self)@ == old(self)@,
    {
        let pending = match &self.state {
            SignerState::AwaitingSignerKey => true,
            _ => false,
        };
        if epoch == self.epoch && pending && signer.len() == 32 {
            self.state = SignerState::Bound(copy_bytes(signer));
            self.store.remote_pub_key = Some(copy_bytes(signer));
            proof {
                assert(self@ =~= SessionModel {
                    phase: PhaseModel::Bound(signer@),
                    store: StoreModel { remote_pub_key: Some(signer@), ..old(self)@.store },
                    ..old(self)@
                });
            }
            true
        } else {
            proof {
                assert(self@ =~= old(self)@);
            }
            false
        }
    }

    /// Sets or clears the remote signer binding directly, keeping the
    /// persisted record in sync.
    pub fn set_remote_pubkey(&mut self, pubkey: Option<Vec<u8>>)
        requires
            old(self).wf(),
            pubkey matches Some(k) ==> k@.len() == 32,
        ensures
            final(self).wf(),
            match pubkey {
                Some(k) => final(self)@ == (SessionModel {
                    phase: PhaseModel::Bound(k@),
                    store: StoreModel { remote_pub_key: Some(k@), ..old(self)@.store },
                    ..old(self)@
                }),
                None => final(self)@ == (SessionModel {
                    phase: PhaseModel::Unbound,
                    store: StoreModel { remote_pub_key: None, ..old(self)@.store },
                    ..old(self)@
                }),
            },
    {
        match pubkey {
            Some(k) => {
                self.store.remote_pub_key = Some(copy_bytes(&k));
                self.state = SignerState::Bound(k);
                proof {
                    assert(self@ =~= SessionModel {
                        phase: self@.phase,
                        store: StoreModel {
                            remote_pub_key: self@.store.remote_pub_key,
                            ..old(self)@.store
                        },
                        ..old(self)@
                    });
                }
            },
            None => {
                self.store.remote_pub_key = None;
                self.state = SignerState::Unbound;
                proof {
                    assert(self@ =~= SessionModel {
                        phase: PhaseModel::Unbound,
                        store: StoreModel { remote_pub_key: None, ..old(self)@.store },
                        ..old(self)@
                    });
                }
            },
        }
    }

    /// The credential this session trusts right now: reads the persisted
    /// record and re-verifies its signature against this session's own key
    /// — a record that is absent, does not parse, or does not verify
    /// yields `None`. A merely deserialized value is never trusted.
    pub fn active_credential(&self) -> (r: Option<DelegationInfo>)
        ensures
            match r {
                Some(c) => active_cred_of(self@.store.credential, self@.pk) == Some(c@) && c.wf(),
                None => active_cred_of(self@.store.credential, self@.pk) is None,
            },
    {
        let raw = match &self.store.credential {
            Some(raw) => raw,
            None => {
                return None;
            },
        };
        let candidate = match DelegationInfo::parse_record_bytes(raw) {
            Some(c) => c,
            None => {
                return None;
            },
        };
        if verify_delegation(&candidate, &self.pk) {
            Some(candidate)
        } else {
            None
        }
    }

    /// Verifies a credential candidate for this session's key as delegate
    /// and, on success, installs it as the active credential and writes it
    /// to the persistence record, replacing any earlier one. A candidate
    /// whose signature does not verify yields `UntrustedDelegation`, is
    /// never installed, and leaves the session unchanged.
    pub fn verify_and_install(&mut self, candidate: DelegationInfo) -> (r: Result<
        (),
        SessionError,
    >)
        requires
            old(self).wf(),
            candidate.wf(),
        ensures
            final(self).wf(),
            r is Ok <==> delegation_sig_ok(
                candidate@.delegator_pubkey,
                old(self)@.pk,
                candidate@.conditions,
                candidate@.signature,
            ),
            r is Ok ==> final(self)@ == (SessionModel {
                store: StoreModel {
                    credential: Some(record_of(candidate@)),
                    ..old(self)@.store
                },
                ..old(self)@
            }),
            r is Ok ==> active_cred_of(final(self)@.store.credential, final(self)@.pk) == Some(
                candidate@,
            ),
            r is Err ==> r == Err::<(), SessionError>(SessionError::UntrustedDelegation)
                && final(self)@ == old(self)@,
    {
        if verify_delegation(&candidate, &self.pk) {
            proof {
                lemma_record_round_trip(candidate@);
            }
            let record = candidate.encode_record();
            self.store.credential = Some(record);
            proof {
                assert(self@ =~= SessionModel {
                    store: StoreModel {
                        credential: Some(record_of(candidate@)),
                        ..old(self)@.store
                    },
                    ..old(self)@
                });
            }
            Ok(())
        } else {
            proof {
                assert(self@ =~= old(self)@);
            }
            Err(SessionError::UntrustedDelegation)
        }
    }

    /// The tag that must annotate an authored event while the delegation
    /// is trusted: the triple derived from the active credential, or
    /// `None` when no credential is installed or the installed one fails
    /// re-verification. This does not check the time bounds against "now";
    /// temporal validity is the caller's separate check
    /// (`Conditions::is_active_at`).
    pub fn delegation_tag(&self) -> (r: Option<DelegationTag>)
        ensures
            match r {
                Some(t) => {
                    &&& active_cred_of(self@.store.credential, self@.pk) matches Some(c)
                    &&& active_cred_of(self@.store.credential, self@.pk) == Some(
                        DelegationModel {
                            delegator_pubkey: t.delegator_pubkey@,
                            conditions: t.conditions@,
                            signature: t.signature@,
                        },
                    )
                    &&& t.conditions_text@ == cond_str_of(t.conditions@)
                },
                None => active_cred_of(self@.store.credential, self@.pk) is None,
            },
    {
        match self.active_credential() {
            None => None,
            Some(c) => {
                let conditions_text = c.conditions.to_bytes();
                Some(
                    DelegationTag {
                        delegator_pubkey: c.delegator_pubkey,
                        conditions: c.conditions,
                        conditions_text,
                        signature: c.signature,
                    },
                )
            },
        }
    }

    /// Prepares a note for publishing: the content, carrying the
    /// delegation tag exactly when a credential is active (an empty tag
    /// list otherwise). The transport performs the actual signing and
    /// publish and reports the resulting event identifier.
    pub fn prepare_note(&self, content: Vec<u8>) -> (r: PreparedNote)
        ensures
            r.content@ == content@,
            match r.tag {
                Some(t) => {
                    &&& active_cred_of(self@.store.credential, self@.pk) == Some(
                        DelegationModel {
                            delegator_pubkey: t.delegator_pubkey@,
                            conditions: t.conditions@,
                            signature: t.signature@,
                        },
                    )
                    &&& t.conditions_text@ == cond_str_of(t.conditions@)
                },
                None => active_cred_of(self@.store.credential, self@.pk) is None,
            },
    {
        let tag = self.delegation_tag();
        PreparedNote { content, tag }
    }

    /// Builds a delegation request for the bound remote signer: this
    /// session's key as delegate, valid from `not_before` (defaulting to
    /// the current time when unspecified) until `not_after`, for the given
    /// event kinds.
    pub fn request_delegation(&self, not_before: Option<u64>, not_after: u64, kinds: &Vec<u64>) -> (r:
        DelegationRequest)
        requires
            self@.phase is Bound,
        ensures
            r.delegate_pubkey@ == self@.pk,
            not_before matches Some(t) ==> r.conditions@ == seq![
                Condition::CreatedAfter(t),
                Condition::CreatedBefore(not_after),
            ] + kinds@.map_values(|k: u64| Condition::Kind(k)),
            r.conditions@.len() == 2 + kinds@.len(),
            r.conditions@[0] is CreatedAfter,
            r.conditions@[1] == Condition::CreatedBefore(not_after),
            forall|i: int|
                0 <= i < kinds@.len() ==> r.conditions@[2 + i] == Condition::Kind(kinds@[i]),
    {
        let nb = match not_before {
            Some(t) => t,
            None => now_unix(),
        };
        let conditions = conditions_for(nb, not_after, kinds);
        proof {
            let m = kinds@.map_values(|k: u64| Condition::Kind(k));
            assert(conditions@[0] == Condition::CreatedAfter(nb));
            assert(conditions@[1] == Condition::CreatedBefore(not_after));
            assert forall|i: int| 0 <= i < kinds@.len() implies conditions@[2 + i]
                == Condition::Kind(kinds@[i]) by {
                assert(m[i] == Condition::Kind(kinds@[i]));
            }
        }
        DelegationRequest { delegate_pubkey: copy_bytes(&self.pk), conditions }
    }

    /// Changes the connect relay and, when no trusted delegation is
    /// active, re-enters the handshake against it (superseding any pending
    /// request; the new epoch is returned). When a delegation is active
    /// the remote-signer path is skipped — the credential has made live
    /// remote signing unnecessary — and only the connect relay changes.
    /// Fails with `InvalidRelayUri` on malformed or non-websocket input,
    /// leaving everything unchanged. Publish-set membership is never
    /// touched.
    pub fn rebind(&mut self, new_connect_relay: &Vec<u8>) -> (r: Result<Option<u64>, SessionError>)
        requires
            old(self).wf(),
            old(self)@.epoch < u64::MAX,
        ensures
            final(self).wf(),
            final(self)@.relays == old(self)@.relays,
            match r {
                Ok(handshake) => {
                    &&& (relay_norm_of(new_connect_relay@) matches Some(n) && is_ws_uri(n)
                        && final(self)@.connect_relay == n)
                    &&& (match handshake {
                        Some(epoch) => {
                            &&& active_cred_of(old(self)@.store.credential, old(self)@.pk) is None
                            &&& epoch == final(self)@.epoch
                            &&& final(self)@ == (SessionModel {
                                connect_relay: final(self)@.connect_relay,
                                phase: PhaseModel::AwaitingSignerKey,
                                epoch: (old(self)@.epoch + 1) as u64,
                                store: StoreModel { remote_pub_key: None, ..old(self)@.store },
                                ..old(self)@
                            })
                        },
                        None => {
                            &&& active_cred_of(old(self)@.store.credential, old(self)@.pk)
                                is Some
                            &&& final(self)@ == (SessionModel {
                                connect_relay: final(self)@.connect_relay,
                                ..old(self)@
                            })
                        },
                    })
                },
                Err(e) => {
                    &&& e == SessionError::InvalidRelayUri
                    &&& final(self)@ == old(self)@
                    &&& (relay_norm_of(new_connect_relay@) is None || (relay_norm_of(
                        new_connect_relay@,
                    ) matches Some(n) && !is_ws_uri(n)))
                },
            },
    {
        let norm = match normalize_relay_uri(new_connect_relay) {
            Some(n) => n,
            None => {
                return Err(SessionError::InvalidRelayUri);
            },
        };
        if !check_ws_uri(&norm) {
            return Err(SessionError::InvalidRelayUri);
        }
        let has_delegation = match self.active_credential() {
            Some(_) => true,
            None => false,
        };
        self.connect_relay = norm;
        if has_delegation {
            proof {
                assert(self@ =~= SessionModel { connect_relay: self@.connect_relay, ..old(self)@ });
            }
            Ok(None)
        } else {
            self.state = SignerState::AwaitingSignerKey;
            self.store.remote_pub_key = None;
            self.epoch = self.epoch + 1;
            proof {
                assert(self@ =~= SessionModel {
                    connect_relay: self@.connect_relay,
                    phase: PhaseModel::AwaitingSignerKey,
                    epoch: (old(self)@.epoch + 1) as u64,
                    store: StoreModel { remote_pub_key: None, ..old(self)@.store },
                    ..old(self)@
                });
            }
            Ok(Some(self.epoch))
        }
    }

    /// Logs out: discards the identity, the remote-signer binding, the
    /// delegation credential and the persisted records; a fresh identity
    /// is generated (and persisted), the handshake returns to `Unbound`,
    /// and the publish set is reset to the connect relay alone. Any
    /// pending handshake is superseded.
    pub fn log_out(&mut self)
        requires
            old(self).wf(),
            old(self)@.epoch < u64::MAX,
        ensures
            final(self).wf(),
            final(self)@.phase == PhaseModel::Unbound,
            final(self)@.store.remote_pub_key is None,
            final(self)@.store.credential is None,
            final(self)@.store.priv_key == Some(final(self)@.sk),
            final(self)@.pk == pubkey_of(final(self)@.sk),
            final(self)@.connect_relay == old(self)@.connect_relay,
            final(self)@.name == old(self)@.name,
            final(self)@.relays == seq![old(self)@.connect_relay],
            final(self)@.epoch == old(self)@.epoch + 1,
    {
        let (sk, pk) = generate_keys();
        self.store.priv_key = Some(copy_bytes(&sk));
        self.store.remote_pub_key = None;
        self.store.credential = None;
        self.sk = sk;
        self.pk = pk;
        self.state = SignerState::Unbound;
        self.epoch = self.epoch + 1;
        let mut relays = RelaySet::new();
        relays.insert(copy_bytes(&self.connect_relay));
        self.relays = relays;
        let mut secret: Vec<u8> = Vec::new();
        let fresh_random = random_bytes();
        push_hex_of_bytes(&fresh_random, &mut secret);
        self.secret = secret;
        proof {
            assert(self@.relays =~= seq![old(self)@.connect_relay]);
        }
    }
}

} // verus!
verus! {

/// True of byte strings that are well-formed event identifiers: exactly 64
/// lowercase hex characters.
pub open spec fn is_event_id(s: Seq<u8>) -> bool {
    s.len() == 64 && (forall|i: int| 0 <= i < s.len() ==> crate::encoding::is_hex_char(#[trigger] s[i]))
}

/// Checks that a byte string is a well-formed event identifier as the
/// transport reports one: 64 lowercase hex characters.
pub fn is_event_id_hex(s: &Vec<u8>) -> (r: bool)
    ensures
        r == is_event_id(s@),
{
    if s.len() != 64 {
        return false;
    }
    let mut i: usize = 0;
    while i < s.len()
        invariant
            i <= s@.len(),
            forall|j: int| 0 <= j < i ==> crate::encoding::is_hex_char(#[trigger] s@[j]),
        decreases s@.len() - i,
    {
        let c = s[i];
        let ok = (48 <= c && c <= 57) || (97 <= c && c <= 102);
        if !ok {
            return false;
        }
        i += 1;
    }
    true
}

} // verus!
verus! {

impl Session {
    /// Whether this session can author events right now: a live remote
    /// signer is bound, or a trusted delegation credential is active. A
    /// session that can do neither must re-run the handshake first.
    pub fn can_author(&self) -> (r: bool)
        ensures
            r == (self@.phase is Bound || active_cred_of(self@.store.credential, self@.pk)
                is Some),
    {
        let bound = match &self.state {
            SignerState::Bound(_) => true,
            _ => false,
        };
        if bound {
            return true;
        }
        match self.active_credential() {
            Some(_) => true,
            None => false,
        }
    }
}

} // verus!
