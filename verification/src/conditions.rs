//! Delegation conditions: an ordered collection of constraints bounding
//! when a delegation credential applies, and its canonical text rendering
//! (the rendering that the delegation token embeds and signs).
use vstd::prelude::*;

use crate::encoding::dec_of;
use crate::encoding::push_dec_of_u64;

verus! {

/// One delegation constraint.
#[derive(Debug, Clone, Copy, PartialEq, Eq, Structural)]
pub enum Condition {
    /// The delegation covers only events created strictly after this Unix time.
    CreatedAfter(u64),
    /// The delegation covers only events created strictly before this Unix time.
    CreatedBefore(u64),
    /// The delegation covers events of this kind.
    Kind(u64),
}

/// An ordered collection of delegation constraints.
#[derive(Debug, Clone)]
pub struct Conditions {
    items: Vec<Condition>,
}

impl View for Conditions {
    type V = Seq<Condition>;

    closed spec fn view(&self) -> Seq<Condition> {
        self.items@
    }
}

/// Canonical text of one constraint: `kind=<n>`, `created_at><n>` or
/// `created_at<<n>`.
pub open spec fn token_of(c: Condition) -> Seq<u8> {
    match c {
        Condition::CreatedAfter(t) => seq![
            99, 114, 101, 97, 116, 101, 100, 95, 97, 116, 62,
        ] + dec_of(t as nat),
        Condition::CreatedBefore(t) => seq![
            99, 114, 101, 97, 116, 101, 100, 95, 97, 116, 60,
        ] + dec_of(t as nat),
        Condition::Kind(k) => seq![107, 105, 110, 100, 61] + dec_of(k as nat),
    }
}

/// Canonical text of a collection of constraints: the tokens in order,
/// joined by `&`.
pub open spec fn cond_str_of(cs: Seq<Condition>) -> Seq<u8>
    decreases cs.len(),
{
    if cs.len() == 0 {
        Seq::empty()
    } else if cs.len() == 1 {
        token_of(cs[0])
    } else {
        token_of(cs[0]) + seq![38] + cond_str_of(cs.drop_first())
    }
}

fn push_token(c: &Condition, out: &mut Vec<u8>)
    ensures
        final(out)@ == old(out)@ + token_of(*c),
{
    match c {
        Condition::CreatedAfter(t) => {
            out.push(99);
            out.push(114);
            out.push(101);
            out.push(97);
            out.push(116);
            out.push(101);
            out.push(100);
            out.push(95);
            out.push(97);
            out.push(116);
            out.push(62);
            push_dec_of_u64(*t, out);
            proof {
                assert(out@ =~= old(out)@ + token_of(*c));
            }
        },
        Condition::CreatedBefore(t) => {
            out.push(99);
            out.push(114);
            out.push(101);
            out.push(97);
            out.push(116);
            out.push(101);
            out.push(100);
            out.push(95);
            out.push(97);
            out.push(116);
            out.push(60);
            push_dec_of_u64(*t, out);
            proof {
                assert(out@ =~= old(out)@ + token_of(*c));
            }
        },
        Condition::Kind(k) => {
            out.push(107);
            out.push(105);
            out.push(110);
            out.push(100);
            out.push(61);
            push_dec_of_u64(*k, out);
            proof {
                assert(out@ =~= old(out)@ + token_of(*c));
            }
        },
    }
}

fn push_cond_str_from(items: &Vec<Condition>, i: usize, out: &mut Vec<u8>)
    requires
        i <= items@.len(),
    ensures
        final(out)@ == old(out)@ + cond_str_of(items@.skip(i as int)),
    decreases items@.len() - i,
{
    if i < items.len() {
        push_token(&items[i], out);
        if i + 1 < items.len() {
            out.push(38);
            push_cond_str_from(items, i + 1, out);
        }
        proof {
            assert(items@.skip(i as int).first() == items@[i as int]);
            assert(items@.skip(i as int).drop_first() =~= items@.skip(i as int + 1));
            assert(out@ =~= old(out)@ + cond_str_of(items@.skip(i as int)));
        }
    } else {
        proof {
            assert(items@.skip(i as int) =~= Seq::<Condition>::empty());
            assert(out@ =~= old(out)@ + cond_str_of(items@.skip(i as int)));
        }
    }
}

/// First `CreatedAfter` bound in the collection, if any.
pub open spec fn find_created_after(cs: Seq<Condition>) -> Option<u64>
    decreases cs.len(),
{
    if cs.len() == 0 {
        None
    } else {
        match cs[0] {
            Condition::CreatedAfter(t) => Some(t),
            _ => find_created_after(cs.drop_first()),
        }
    }
}

/// First `CreatedBefore` bound in the collection, if any.
pub open spec fn find_created_before(cs: Seq<Condition>) -> Option<u64>
    decreases cs.len(),
{
    if cs.len() == 0 {
        None
    } else {
        match cs[0] {
            Condition::CreatedBefore(t) => Some(t),
            _ => find_created_before(cs.drop_first()),
        }
    }
}

/// The kinds listed by the collection, in order.
pub open spec fn kinds_of(cs: Seq<Condition>) -> Seq<u64>
    decreases cs.len(),
{
    if cs.len() == 0 {
        Seq::empty()
    } else {
        match cs[0] {
            Condition::Kind(k) => seq![k] + kinds_of(cs.drop_first()),
            _ => kinds_of(cs.drop_first()),
        }
    }
}

/// True when `now` lies inside every time bound of the collection.
/// Bounds are strict, as in the canonical text of the constraints.
pub open spec fn active_at(cs: Seq<Condition>, now: u64) -> bool {
    forall|i: int|
        0 <= i < cs.len() ==> match #[trigger] cs[i] {
            Condition::CreatedAfter(t) => now > t,
            Condition::CreatedBefore(t) => now < t,
            Condition::Kind(_) => true,
        }
}

fn find_created_after_from(items: &Vec<Condition>, i: usize) -> (r: Option<u64>)
    requires
        i <= items@.len(),
    ensures
        r == find_created_after(items@.skip(i as int)),
    decreases items@.len() - i,
{
    if i < items.len() {
        proof {
            assert(items@.skip(i as int).first() == items@[i as int]);
            assert(items@.skip(i as int).drop_first() =~= items@.skip(i as int + 1));
        }
        match items[i] {
            Condition::CreatedAfter(t) => Some(t),
            _ => find_created_after_from(items, i + 1),
        }
    } else {
        proof {
            assert(items@.skip(i as int) =~= Seq::<Condition>::empty());
        }
        None
    }
}

fn find_created_before_from(items: &Vec<Condition>, i: usize) -> (r: Option<u64>)
    requires
        i <= items@.len(),
    ensures
        r == find_created_before(items@.skip(i as int)),
    decreases items@.len() - i,
{
    if i < items.len() {
        proof {
            assert(items@.skip(i as int).first() == items@[i as int]);
            assert(items@.skip(i as int).drop_first() =~= items@.skip(i as int + 1));
        }
        match items[i] {
            Condition::CreatedBefore(t) => Some(t),
            _ => find_created_before_from(items, i + 1),
        }
    } else {
        proof {
            assert(items@.skip(i as int) =~= Seq::<Condition>::empty());
        }
        None
    }
}

impl Conditions {
    /// An empty collection of constraints.
    pub fn new() -> (r: Conditions)
        ensures
            r@ == Seq::<Condition>::empty(),
    {
        Conditions { items: Vec::new() }
    }

    /// Appends one constraint, keeping insertion order.
    pub fn add(&mut self, c: Condition)
        ensures
            final(self)@ == old(self)@.push(c),
    {
        self.items.push(c);
    }

    /// Number of constraints.
    pub fn len(&self) -> (r: usize)
        ensures
            r == self@.len(),
    {
        self.items.len()
    }

    /// The constraint at position `i`.
    pub fn get(&self, i: usize) -> (r: Condition)
        requires
            i < self@.len(),
        ensures
            r == self@[i as int],
    {
        self.items[i]
    }

    /// Canonical text of the collection.
    pub fn to_bytes(&self) -> (r: Vec<u8>)
        ensures
            r@ == cond_str_of(self@),
    {
        let mut out: Vec<u8> = Vec::new();
        proof {
            assert(self.items@.skip(0) == self.items@);
        }
        push_cond_str_from(&self.items, 0, &mut out);
        proof {
            assert(out@ =~= Seq::<u8>::empty() + cond_str_of(self@));
        }
        out
    }

    /// Unix time the delegation expires: the first `CreatedBefore` bound.
    pub fn created_before(&self) -> (r: Option<u64>)
        ensures
            r == find_created_before(self@),
    {
        proof {
            assert(self.items@.skip(0) == self.items@);
        }
        find_created_before_from(&self.items, 0)
    }

    /// Unix time the delegation is valid from: the first `CreatedAfter` bound.
    pub fn created_after(&self) -> (r: Option<u64>)
        ensures
            r == find_created_after(self@),
    {
        proof {
            assert(self.items@.skip(0) == self.items@);
        }
        find_created_after_from(&self.items, 0)
    }

    /// Event kinds the delegation is valid for, in order of appearance.
    pub fn kinds(&self) -> (r: Vec<u64>)
        ensures
            r@ == kinds_of(self@),
    {
        let mut out: Vec<u64> = Vec::new();
        let mut i: usize = self.items.len();
        proof {
            assert(self.items@.skip(i as int) =~= Seq::<Condition>::empty());
        }
        while i > 0
            invariant
                i <= self.items@.len(),
                out@ == kinds_of(self.items@.skip(i as int)),
            decreases i,
        {
            i -= 1;
            proof {
                assert(self.items@.skip(i as int).first() == self.items@[i as int]);
                assert(self.items@.skip(i as int).drop_first() =~= self.items@.skip(i as int + 1));
            }
            match self.items[i] {
                Condition::Kind(k) => {
                    let mut next: Vec<u64> = Vec::new();
                    next.push(k);
                    next.append(&mut out);
                    out = next;
                    proof {
                        assert(out@ =~= kinds_of(self.items@.skip(i as int)));
                    }
                },
                _ => {},
            }
        }
        proof {
            assert(self.items@.skip(0) == self.items@);
        }
        out
    }

    /// True when `now` lies strictly inside every time bound.
    ///
    /// This is the temporal-validity check: it is intentionally separate
    /// from signature verification, so a cryptographically trusted but
    /// expired credential can be recognized as such by the caller.
    pub fn is_active_at(&self, now: u64) -> (r: bool)
        ensures
            r == active_at(self@, now),
    {
        let mut i: usize = 0;
        while i < self.items.len()
            invariant
                i <= self.items@.len(),
                forall|j: int|
                    0 <= j < i ==> match #[trigger] self.items@[j] {
                        Condition::CreatedAfter(t) => now > t,
                        Condition::CreatedBefore(t) => now < t,
                        Condition::Kind(_) => true,
                    },
            decreases self.items@.len() - i,
        {
            match self.items[i] {
                Condition::CreatedAfter(t) => {
                    if now <= t {
                        return false;
                    }
                },
                Condition::CreatedBefore(t) => {
                    if now >= t {
                        return false;
                    }
                },
                Condition::Kind(_) => {},
            }
            i += 1;
        }
        true
    }
}

/// Builds the conditions of a delegation request: valid from `not_before`,
/// until `not_after`, for the given event kinds, in that order.
pub fn conditions_for(not_before: u64, not_after: u64, kinds: &Vec<u64>) -> (r: Conditions)
    ensures
        r@ == seq![Condition::CreatedAfter(not_before), Condition::CreatedBefore(not_after)]
            + kinds@.map_values(|k: u64| Condition::Kind(k)),
{
    let mut c = Conditions::new();
    c.add(Condition::CreatedAfter(not_before));
    c.add(Condition::CreatedBefore(not_after));
    let ghost head = seq![
        Condition::CreatedAfter(not_before),
        Condition::CreatedBefore(not_after),
    ];
    proof {
        assert(c@ =~= head + kinds@.take(0).map_values(|k: u64| Condition::Kind(k)));
    }
    let mut i: usize = 0;
    while i < kinds.len()
        invariant
            i <= kinds@.len(),
            c@ == head + kinds@.take(i as int).map_values(|k: u64| Condition::Kind(k)),
        decreases kinds@.len() - i,
    {
        c.add(Condition::Kind(kinds[i]));
        proof {
            assert(kinds@.take(i as int + 1).map_values(|k: u64| Condition::Kind(k)) =~= kinds@.take(
                i as int,
            ).map_values(|k: u64| Condition::Kind(k)).push(Condition::Kind(kinds@[i as int])));
            assert(c@ =~= head + kinds@.take(i as int + 1).map_values(
                |k: u64| Condition::Kind(k),
            ));
        }
        i += 1;
    }
    proof {
        assert(kinds@.take(kinds@.len() as int) == kinds@);
    }
    c
}

} // verus!
