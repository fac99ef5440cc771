//! Relay references: normalized websocket URIs, and the set of publish
//! relays. Relays are compared and deduplicated by normalized URI equality;
//! the set holds no duplicates and no ordering guarantee is given.
use vstd::prelude::*;

use crate::encoding::bytes_eq;

verus! {

/// The normalized form that nostr's relay-URL parsing assigns to a byte
/// string, or `None` when it does not parse as a websocket relay URL.
pub uninterp spec fn relay_norm_of(s: Seq<u8>) -> Option<Seq<u8>>;

/// Relies on nostr's `RelayUrl::parse` and
/// `RelayUrl::as_str_without_trailing_slash`: whether a string parses, and
/// its normalized serialization, depend on the string alone.
#[verifier::external_body]
pub(crate) fn normalize_relay_uri(s: &Vec<u8>) -> (r: Option<Vec<u8>>)
    ensures
        match r {
            Some(n) => relay_norm_of(s@) == Some(n@),
            None => relay_norm_of(s@) is None,
        },
{
    let text = match core::str::from_utf8(s.as_slice()) {
        Ok(t) => t,
        Err(_) => return None,
    };
    match nostr_sdk::prelude::RelayUrl::parse(text) {
        Ok(u) => Some(u.as_str_without_trailing_slash().as_bytes().to_vec()),
        Err(_) => None,
    }
}

/// True of byte strings that start with `ws://` or `wss://`.
pub open spec fn is_ws_uri(s: Seq<u8>) -> bool {
    (s.len() >= 5 && s.subrange(0, 5) == seq![119u8, 115u8, 58u8, 47u8, 47u8]) || (s.len() >= 6
        && s.subrange(0, 6) == seq![119u8, 115u8, 115u8, 58u8, 47u8, 47u8])
}

/// Checks that a byte string starts with a websocket scheme.
pub fn check_ws_uri(s: &Vec<u8>) -> (r: bool)
    ensures
        r == is_ws_uri(s@),
{
    let ghost ws = seq![119u8, 115u8, 58u8, 47u8, 47u8];
    let ghost wss = seq![119u8, 115u8, 115u8, 58u8, 47u8, 47u8];
    if s.len() >= 5 && s[0] == 119 && s[1] == 115 && s[2] == 58 && s[3] == 47 && s[4] == 47 {
        proof {
            assert(s@.subrange(0, 5) =~= ws);
        }
        true
    } else if s.len() >= 6 && s[0] == 119 && s[1] == 115 && s[2] == 115 && s[3] == 58 && s[4] == 47
        && s[5] == 47 {
        proof {
            assert(s@.subrange(0, 6) =~= wss);
        }
        true
    } else {
        proof {
            if s@.len() >= 5 && s@.subrange(0, 5) == ws {
                assert(s@[0] == ws[0] && s@[1] == ws[1] && s@[2] == ws[2] && s@[3] == ws[3] && s@[4]
                    == ws[4]);
            }
            if s@.len() >= 6 && s@.subrange(0, 6) == wss {
                assert(s@[0] == wss[0] && s@[1] == wss[1] && s@[2] == wss[2] && s@[3] == wss[3]
                    && s@[4] == wss[4] && s@[5] == wss[5]);
            }
        }
        false
    }
}

/// True when a sequence of URIs holds no duplicates.
pub open spec fn nodup(s: Seq<Seq<u8>>) -> bool {
    forall|i: int, j: int| 0 <= i < j < s.len() ==> s[i] != s[j]
}

/// How many entries of `s` equal `u`.
pub open spec fn count_eq(s: Seq<Seq<u8>>, u: Seq<u8>) -> nat
    decreases s.len(),
{
    if s.len() == 0 {
        0
    } else {
        (if s[0] == u {
            1nat
        } else {
            0nat
        }) + count_eq(s.drop_first(), u)
    }
}

/// A set of publish relays, held as normalized URIs without duplicates.
#[derive(Debug, Clone)]
pub struct RelaySet {
    items: Vec<Vec<u8>>,
}

impl RelaySet {
    /// The URIs held, in insertion order.
    pub closed spec fn uris(&self) -> Seq<Seq<u8>> {
        self.items@.map_values(|v: Vec<u8>| v@)
    }

    /// Internal invariant: no URI occurs twice.
    pub open spec fn wf(&self) -> bool {
        nodup(self.uris())
    }

    /// An empty relay set.
    pub fn new() -> (r: RelaySet)
        ensures
            r.wf(),
            r.uris() == Seq::<Seq<u8>>::empty(),
    {
        let r = RelaySet { items: Vec::new() };
        proof {
            assert(r.uris() =~= Seq::<Seq<u8>>::empty());
        }
        r
    }

    /// Number of relays in the set.
    pub fn len(&self) -> (r: usize)
        ensures
            r == self.uris().len(),
    {
        self.items.len()
    }

    /// The relay URI at position `i`.
    pub fn get(&self, i: usize) -> (r: &Vec<u8>)
        requires
            i < self.uris().len(),
        ensures
            r@ == self.uris()[i as int],
    {
        &self.items[i]
    }

    /// Whether the set holds `u`.
    pub fn contains(&self, u: &Vec<u8>) -> (r: bool)
        ensures
            r == self.uris().contains(u@),
    {
        let mut i: usize = 0;
        while i < self.items.len()
            invariant
                i <= self.items@.len(),
                forall|j: int| 0 <= j < i ==> self.uris()[j] != u@,
            decreases self.items@.len() - i,
        {
            if bytes_eq(&self.items[i], u) {
                assert(self.uris()[i as int] == u@);
                return true;
            }
            i += 1;
        }
        proof {
            assert forall|j: int| 0 <= j < self.uris().len() implies self.uris()[j] != u@ by {}
        }
        false
    }

    /// Inserts `u`; a no-op when an equal URI is already present.
    pub fn insert(&mut self, u: Vec<u8>)
        requires
            old(self).wf(),
        ensures
            final(self).wf(),
            final(self).uris().contains(u@),
            old(self).uris().contains(u@) ==> final(self).uris() == old(self).uris(),
            !old(self).uris().contains(u@) ==> final(self).uris() == old(self).uris().push(u@),
    {
        if !self.contains(&u) {
            let ghost prev = self.uris();
            self.items.push(u);
            proof {
                assert(self.uris() =~= prev.push(u@));
                assert(self.uris()[prev.len() as int] == u@);
            }
        }
    }

    /// Removes the URI equal to `u`, if present; returns whether anything
    /// was removed. Removing an absent URI is a no-op.
    pub fn remove(&mut self, u: &Vec<u8>) -> (removed: bool)
        requires
            old(self).wf(),
        ensures
            final(self).wf(),
            removed == old(self).uris().contains(u@),
            !final(self).uris().contains(u@),
            !removed ==> final(self).uris() == old(self).uris(),
            removed ==> exists|i: int|
                0 <= i < old(self).uris().len() && old(self).uris()[i] == u@ && final(self).uris()
                    == old(self).uris().remove(i),
            forall|v: Seq<u8>|
                v != u@ ==> (final(self).uris().contains(v) == old(self).uris().contains(v)),
    {
        let mut i: usize = 0;
        while i < self.items.len()
            invariant
                i <= self.items@.len(),
                self.uris() == old(self).uris(),
                self.wf(),
                forall|j: int| 0 <= j < i ==> self.uris()[j] != u@,
            decreases self.items@.len() - i,
        {
            if bytes_eq(&self.items[i], u) {
                let ghost prev = old(self).uris();
                assert(prev[i as int] == u@);
                self.items.remove(i);
                proof {
                    assert(self.uris() =~= prev.remove(i as int));
                    assert forall|a: int, b: int|
                        0 <= a < b < self.uris().len() implies self.uris()[a] != self.uris()[b] by {
                        if a < i {
                            assert(self.uris()[a] == prev[a]);
                        } else {
                            assert(self.uris()[a] == prev[a + 1]);
                        }
                        if b < i {
                            assert(self.uris()[b] == prev[b]);
                        } else {
                            assert(self.uris()[b] == prev[b + 1]);
                        }
                    }
                    assert forall|j: int|
                        0 <= j < self.uris().len() implies self.uris()[j] != u@ by {
                        if j < i {
                            assert(self.uris()[j] == prev[j]);
                        } else {
                            assert(self.uris()[j] == prev[j + 1]);
                            assert(prev[i as int] == u@);
                        }
                    }
                    assert(!self.uris().contains(u@));
                    assert(prev.contains(u@));
                    assert(0 <= (i as int) && (i as int) < prev.len() && prev[i as int] == u@
                        && self.uris() == prev.remove(i as int));
                    assert forall|v: Seq<u8>|
                        v != u@ implies (self.uris().contains(v) == prev.contains(v)) by {
                        if self.uris().contains(v) {
                            let k = choose|k: int|
                                0 <= k < self.uris().len() && self.uris()[k] == v;
                            if k < i {
                                assert(prev[k] == v);
                            } else {
                                assert(prev[k + 1] == v);
                            }
                        }
                        if prev.contains(v) {
                            let k = choose|k: int| 0 <= k < prev.len() && prev[k] == v;
                            if k < i {
                                assert(self.uris()[k] == v);
                            } else if k > i {
                                assert(self.uris()[k - 1] == v);
                            }
                        }
                    }
                }
                return true;
            }
            i += 1;
        }
        proof {
            assert forall|j: int| 0 <= j < old(self).uris().len() implies old(self).uris()[j]
                != u@ by {}
            assert(!old(self).uris().contains(u@));
        }
        false
    }
}

/// In a duplicate-free URI sequence, a held URI occurs exactly once and an
/// absent one zero times.
///
/// Law: adding a relay URI that is already present leaves the set with
/// exactly one entry for that URI.
pub proof fn lemma_unique_count(s: Seq<Seq<u8>>, u: Seq<u8>)
    requires
        nodup(s),
    ensures
        s.contains(u) ==> count_eq(s, u) == 1,
        !s.contains(u) ==> count_eq(s, u) == 0,
    decreases s.len(),
{
    if s.len() > 0 {
        let rest = s.drop_first();
        assert forall|i: int, j: int| 0 <= i < j < rest.len() implies rest[i] != rest[j] by {
            assert(rest[i] == s[i + 1]);
            assert(rest[j] == s[j + 1]);
        }
        lemma_unique_count(rest, u);
        if s[0] == u {
            assert forall|j: int| 0 <= j < rest.len() implies rest[j] != u by {
                assert(rest[j] == s[j + 1]);
            }
            assert(!rest.contains(u));
        } else {
            if s.contains(u) {
                let k = choose|k: int| 0 <= k < s.len() && s[k] == u;
                assert(rest[k - 1] == u);
                assert(rest.contains(u));
            }
            if rest.contains(u) {
                let k = choose|k: int| 0 <= k < rest.len() && rest[k] == u;
                assert(s[k + 1] == u);
            }
        }
    }
}

} // verus!
