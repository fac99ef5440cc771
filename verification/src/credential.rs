//! The delegation credential: a grant from a delegator key to this
//! session's key, bounded by conditions and covered by a signature over a
//! canonical token. Also its persistence record, a text encoding written
//! to durable storage and parsed (and re-verified) on every read.
use vstd::prelude::*;

use crate::conditions::Condition;
use crate::conditions::Conditions;
use crate::conditions::cond_str_of;
use crate::encoding::be_bytes_of_u64;
use crate::encoding::bytes_of_hex;
use crate::encoding::decode_hex_range;
use crate::encoding::hex_of_bytes;
use crate::encoding::is_hex_seq;
use crate::encoding::lemma_be_bytes_round_trip;
use crate::encoding::lemma_hex_of_bytes_len;
use crate::encoding::lemma_hex_round_trip;
use crate::encoding::push_be_bytes_of_u64;
use crate::encoding::push_hex_of_bytes;
use crate::encoding::read_u64_be;
use crate::encoding::u64_of_be_bytes;

verus! {

/// A delegation credential candidate: delegator key, conditions, and the
/// delegator's signature over the canonical delegation token.
#[derive(Debug, Clone)]
pub struct DelegationInfo {
    /// The delegator's 32-byte x-only public key.
    pub delegator_pubkey: Vec<u8>,
    /// The conditions bounding the delegation.
    pub conditions: Conditions,
    /// The delegator's 64-byte schnorr signature over the delegation token.
    pub signature: Vec<u8>,
}

/// Mathematical model of a delegation credential.
#[verifier::ext_equal]
pub struct DelegationModel {
    /// The delegator's public key bytes.
    pub delegator_pubkey: Seq<u8>,
    /// The conditions bounding the delegation.
    pub conditions: Seq<Condition>,
    /// The signature bytes.
    pub signature: Seq<u8>,
}

impl View for DelegationInfo {
    type V = DelegationModel;

    open spec fn view(&self) -> DelegationModel {
        DelegationModel {
            delegator_pubkey: self.delegator_pubkey@,
            conditions: self.conditions@,
            signature: self.signature@,
        }
    }
}

/// Well-formedness: the key and signature have their exact lengths.
pub open spec fn wf_delegation(v: DelegationModel) -> bool {
    v.delegator_pubkey.len() == 32 && v.signature.len() == 64
}

/// The canonical delegation token: the byte string whose sha256 digest the
/// delegator signs. It names the delegate key in lowercase hex and the
/// conditions in their canonical text.
pub open spec fn delegation_token_of(delegate_pubkey: Seq<u8>, cs: Seq<Condition>) -> Seq<u8> {
    seq![
        110u8, 111u8, 115u8, 116u8, 114u8, 58u8, 100u8, 101u8, 108u8, 101u8, 103u8, 97u8, 116u8,
        105u8, 111u8, 110u8, 58u8,
    ] + hex_of_bytes(delegate_pubkey) + seq![58u8] + cond_str_of(cs)
}

/// Builds the canonical delegation token (`nostr:delegation:<delegate
/// hex>:<conditions>`) for a delegate key and conditions.
pub fn delegation_token(delegate_pubkey: &Vec<u8>, conditions: &Conditions) -> (r: Vec<u8>)
    ensures
        r@ == delegation_token_of(delegate_pubkey@, conditions@),
{
    let mut out: Vec<u8> = Vec::new();
    out.push(110);
    out.push(111);
    out.push(115);
    out.push(116);
    out.push(114);
    out.push(58);
    out.push(100);
    out.push(101);
    out.push(108);
    out.push(101);
    out.push(103);
    out.push(97);
    out.push(116);
    out.push(105);
    out.push(111);
    out.push(110);
    out.push(58);
    push_hex_of_bytes(delegate_pubkey, &mut out);
    out.push(58);
    let mut cond = conditions.to_bytes();
    out.append(&mut cond);
    proof {
        assert(out@ =~= delegation_token_of(delegate_pubkey@, conditions@));
    }
    out
}

/// Record text of one condition: a tag character and sixteen hex characters
/// holding the big-endian bound or kind.
pub open spec fn unit_of(c: Condition) -> Seq<u8> {
    match c {
        Condition::CreatedAfter(t) => seq![97u8] + hex_of_bytes(be_bytes_of_u64(t)),
        Condition::CreatedBefore(t) => seq![98u8] + hex_of_bytes(be_bytes_of_u64(t)),
        Condition::Kind(k) => seq![107u8] + hex_of_bytes(be_bytes_of_u64(k)),
    }
}

/// Record text of a collection of conditions, in order.
pub open spec fn units_of(cs: Seq<Condition>) -> Seq<u8>
    decreases cs.len(),
{
    if cs.len() == 0 {
        Seq::empty()
    } else {
        unit_of(cs[0]) + units_of(cs.drop_first())
    }
}

/// The persistence record of a credential: delegator key hex, signature
/// hex, then one fixed-width unit per condition.
pub open spec fn record_of(v: DelegationModel) -> Seq<u8> {
    hex_of_bytes(v.delegator_pubkey) + hex_of_bytes(v.signature) + units_of(v.conditions)
}

/// Parses the condition units of a record.
pub open spec fn parse_units(s: Seq<u8>) -> Option<Seq<Condition>>
    decreases s.len(),
{
    if s.len() == 0 {
        Some(Seq::empty())
    } else if s.len() < 17 {
        None
    } else if !is_hex_seq(s.subrange(1, 17)) {
        None
    } else {
        let t = u64_of_be_bytes(bytes_of_hex(s.subrange(1, 17)));
        let c = if s[0] == 97 {
            Some(Condition::CreatedAfter(t))
        } else if s[0] == 98 {
            Some(Condition::CreatedBefore(t))
        } else if s[0] == 107 {
            Some(Condition::Kind(t))
        } else {
            None
        };
        match (c, parse_units(s.skip(17))) {
            (Some(c0), Some(rest)) => Some(seq![c0] + rest),
            _ => None,
        }
    }
}

/// Parses a persistence record back into a credential model.
pub open spec fn parse_record(s: Seq<u8>) -> Option<DelegationModel> {
    if s.len() < 192 {
        None
    } else if !is_hex_seq(s.subrange(0, 64)) || !is_hex_seq(s.subrange(64, 192)) {
        None
    } else {
        match parse_units(s.skip(192)) {
            Some(cs) => Some(
                DelegationModel {
                    delegator_pubkey: bytes_of_hex(s.subrange(0, 64)),
                    conditions: cs,
                    signature: bytes_of_hex(s.subrange(64, 192)),
                },
            ),
            None => None,
        }
    }
}

impl DelegationInfo {
    /// Well-formedness of the exec value: exact key and signature lengths.
    pub open spec fn wf(&self) -> bool {
        wf_delegation(self@)
    }

    /// Serializes the credential into its persistence record.
    pub fn encode_record(&self) -> (r: Vec<u8>)
        ensures
            r@ == record_of(self@),
    {
        let mut out: Vec<u8> = Vec::new();
        push_hex_of_bytes(&self.delegator_pubkey, &mut out);
        push_hex_of_bytes(&self.signature, &mut out);
        let n = self.conditions.len();
        let mut i: usize = 0;
        let ghost head = hex_of_bytes(self@.delegator_pubkey) + hex_of_bytes(self@.signature);
        proof {
            assert(out@ =~= head + units_of(self@.conditions.take(0)));
        }
        while i < n
            invariant
                i <= n == self.conditions@.len(),
                out@ == head + units_of(self.conditions@.take(i as int)),
                head == hex_of_bytes(self@.delegator_pubkey) + hex_of_bytes(self@.signature),
            decreases n - i,
        {
            let c = self.conditions.get(i);
            match c {
                Condition::CreatedAfter(t) => {
                    out.push(97);
                    let mut be: Vec<u8> = Vec::new();
                    push_be_bytes_of_u64(t, &mut be);
                    push_hex_of_bytes(&be, &mut out);
                },
                Condition::CreatedBefore(t) => {
                    out.push(98);
                    let mut be: Vec<u8> = Vec::new();
                    push_be_bytes_of_u64(t, &mut be);
                    push_hex_of_bytes(&be, &mut out);
                },
                Condition::Kind(k) => {
                    out.push(107);
                    let mut be: Vec<u8> = Vec::new();
                    push_be_bytes_of_u64(k, &mut be);
                    push_hex_of_bytes(&be, &mut out);
                },
            }
            proof {
                lemma_units_take_snoc(self.conditions@, i as int);
                assert(out@ =~= head + units_of(self.conditions@.take(i as int + 1)));
            }
            i += 1;
        }
        proof {
            assert(self.conditions@.take(n as int) == self.conditions@);
            assert(out@ =~= record_of(self@));
        }
        out
    }

    /// Parses a persistence record; `None` when the record is malformed.
    pub fn parse_record_bytes(s: &Vec<u8>) -> (r: Option<DelegationInfo>)
        ensures
            match r {
                Some(c) => parse_record(s@) == Some(c@) && c.wf(),
                None => parse_record(s@) is None,
            },
    {
        if s.len() < 192 {
            return None;
        }
        let delegator = match decode_hex_range(s, 0, 64) {
            Some(d) => d,
            None => {
                return None;
            },
        };
        let signature = match decode_hex_range(s, 64, 192) {
            Some(d) => d,
            None => {
                return None;
            },
        };
        let mut conds = Conditions::new();
        let mut i: usize = 192;
        while i < s.len()
            invariant
                192 <= i <= s@.len(),
                match parse_units(s@.skip(i as int)) {
                    Some(rest) => parse_units(s@.skip(192)) == Some(conds@ + rest),
                    None => parse_units(s@.skip(192)) is None,
                },
            decreases s@.len() - i,
        {
            let ghost tail = s@.skip(i as int);
            proof {
                assert(tail.len() == s@.len() - i);
            }
            if s.len() - i < 17 {
                return None;
            }
            proof {
                assert(tail.subrange(1, 17) =~= s@.subrange(i as int + 1, i as int + 17));
                assert(tail.skip(17) =~= s@.skip(i as int + 17));
                assert(tail[0] == s@[i as int]);
            }
            let tag = s[i];
            let hx = match decode_hex_range(s, i + 1, i + 17) {
                Some(d) => d,
                None => {
                    return None;
                },
            };
            proof {
                assert(hx@.len() == 8);
            }
            let t = read_u64_be(&hx);
            let c = if tag == 97 {
                Condition::CreatedAfter(t)
            } else if tag == 98 {
                Condition::CreatedBefore(t)
            } else if tag == 107 {
                Condition::Kind(t)
            } else {
                return None;
            };
            let ghost prev = conds@;
            conds.add(c);
            proof {
                match parse_units(s@.skip(i as int + 17)) {
                    Some(rest) => {
                        assert(parse_units(tail) == Some(seq![c] + rest));
                        assert(conds@ + rest =~= prev + (seq![c] + rest));
                    },
                    None => {},
                }
            }
            i += 17;
        }
        proof {
            assert(s@.skip(i as int) =~= Seq::<u8>::empty());
            assert(parse_units(s@.skip(192)) == Some(conds@ + Seq::<Condition>::empty()));
            assert(conds@ + Seq::<Condition>::empty() =~= conds@);
        }
        let info = DelegationInfo { delegator_pubkey: delegator, conditions: conds, signature };
        proof {
            assert(parse_record(s@) == Some(info@));
        }
        Some(info)
    }
}

proof fn lemma_units_take_snoc(cs: Seq<Condition>, i: int)
    requires
        0 <= i < cs.len(),
    ensures
        units_of(cs.take(i + 1)) == units_of(cs.take(i)) + unit_of(cs[i]),
    decreases i,
{
    if i == 0 {
        assert(cs.take(1)[0] == cs[0]);
        assert(cs.take(1).drop_first() =~= Seq::<Condition>::empty());
        assert(cs.take(0) =~= Seq::<Condition>::empty());
        assert(units_of(cs.take(1)) =~= units_of(cs.take(0)) + unit_of(cs[0]));
    } else {
        lemma_units_take_snoc(cs.drop_first(), i - 1);
        assert(cs.take(i + 1)[0] == cs[0]);
        assert(cs.take(i + 1).drop_first() =~= cs.drop_first().take(i));
        assert(cs.take(i).drop_first() =~= cs.drop_first().take(i - 1));
        assert(cs.take(i)[0] == cs[0]);
        assert(cs.drop_first()[i - 1] == cs[i]);
        assert(units_of(cs.take(i + 1)) =~= units_of(cs.take(i)) + unit_of(cs[i]));
    }
}

proof fn lemma_units_round_trip(cs: Seq<Condition>)
    ensures
        parse_units(units_of(cs)) == Some(cs),
    decreases cs.len(),
{
    if cs.len() == 0 {
        assert(units_of(cs) =~= Seq::<u8>::empty());
        assert(parse_units(units_of(cs)) == Some(Seq::<Condition>::empty()));
        assert(Seq::<Condition>::empty() =~= cs);
    } else {
        lemma_units_round_trip(cs.drop_first());
        let s = units_of(cs);
        let c0 = cs[0];
        let t = match c0 {
            Condition::CreatedAfter(t) => t,
            Condition::CreatedBefore(t) => t,
            Condition::Kind(t) => t,
        };
        lemma_be_bytes_round_trip(t);
        lemma_hex_round_trip(be_bytes_of_u64(t));
        assert(unit_of(c0).len() == 17);
        assert(s == unit_of(c0) + units_of(cs.drop_first()));
        assert(s.len() >= 17);
        assert(s.subrange(1, 17) =~= hex_of_bytes(be_bytes_of_u64(t)));
        assert(is_hex_seq(s.subrange(1, 17)));
        assert(u64_of_be_bytes(bytes_of_hex(s.subrange(1, 17))) == t);
        assert(s.skip(17) =~= units_of(cs.drop_first()));
        assert(s[0] == unit_of(c0)[0]);
        assert(seq![c0] + cs.drop_first() =~= cs);
    }
}

/// A persistence record parses back to exactly the credential it encodes.
///
/// Law: for all well-formed credentials, round-tripping through the
/// persistence serialization preserves the delegator key, the conditions
/// (order included), and the signature.
pub proof fn lemma_record_round_trip(v: DelegationModel)
    requires
        wf_delegation(v),
    ensures
        parse_record(record_of(v)) == Some(v),
{
    let s = record_of(v);
    lemma_hex_round_trip(v.delegator_pubkey);
    lemma_hex_round_trip(v.signature);
    lemma_units_round_trip(v.conditions);
    assert(s.subrange(0, 64) =~= hex_of_bytes(v.delegator_pubkey));
    assert(s.subrange(64, 192) =~= hex_of_bytes(v.signature));
    assert(s.skip(192) =~= units_of(v.conditions));
    assert(parse_record(s) == Some(
        DelegationModel {
            delegator_pubkey: bytes_of_hex(s.subrange(0, 64)),
            conditions: v.conditions,
            signature: bytes_of_hex(s.subrange(64, 192)),
        },
    ));
    assert(DelegationModel {
        delegator_pubkey: bytes_of_hex(s.subrange(0, 64)),
        conditions: v.conditions,
        signature: bytes_of_hex(s.subrange(64, 192)),
    } =~= v);
}

} // verus!
verus! {

impl DelegationInfo {
    /// Unix time the delegation expires: the first `CreatedBefore` bound.
    pub fn created_before(&self) -> (r: Option<u64>)
        ensures
            r == crate::conditions::find_created_before(self@.conditions),
    {
        self.conditions.created_before()
    }

    /// Unix time the delegation is valid from: the first `CreatedAfter`
    /// bound.
    pub fn created_after(&self) -> (r: Option<u64>)
        ensures
            r == crate::conditions::find_created_after(self@.conditions),
    {
        self.conditions.created_after()
    }

    /// Event kinds the delegation is valid for.
    pub fn kinds(&self) -> (r: Vec<u64>)
        ensures
            r@ == crate::conditions::kinds_of(self@.conditions),
    {
        self.conditions.kinds()
    }
}

} // verus!
