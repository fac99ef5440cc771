//! Byte-level encodings used across the crate: lowercase hex, big-endian
//! u64 bytes, and decimal rendering of u64 values.
use vstd::prelude::*;

verus! {

/// Compares two byte vectors for equality of their contents.
pub fn bytes_eq(a: &Vec<u8>, b: &Vec<u8>) -> (r: bool)
    ensures
        r == (a@ == b@),
{
    if a.len() != b.len() {
        assert(a@ != b@);
        return false;
    }
    let mut i: usize = 0;
    while i < a.len()
        invariant
            0 <= i <= a.len(),
            a@.len() == b@.len(),
            forall|j: int| 0 <= j < i ==> a@[j] == b@[j],
        decreases a.len() - i,
    {
        if a[i] != b[i] {
            return false;
        }
        i += 1;
    }
    proof {
        assert(a@ =~= b@);
    }
    true
}

/// The lowercase hex character for a value below 16.
pub open spec fn hex_char_of(d: u8) -> u8 {
    if d < 10 { (48 + d) as u8 } else { (87 + d) as u8 }
}

/// True of bytes that are lowercase hex characters.
pub open spec fn is_hex_char(c: u8) -> bool {
    (48 <= c <= 57) || (97 <= c <= 102)
}

/// The value of a lowercase hex character.
pub open spec fn hex_val(c: u8) -> u8 {
    if 48 <= c <= 57 { (c - 48) as u8 } else if 97 <= c <= 102 { (c - 87) as u8 } else { 0 }
}

/// Lowercase hex encoding of a byte sequence, two characters per byte.
pub open spec fn hex_of_bytes(b: Seq<u8>) -> Seq<u8>
    decreases b.len(),
{
    if b.len() == 0 {
        Seq::empty()
    } else {
        seq![hex_char_of(b.first() / 16), hex_char_of(b.first() % 16)] + hex_of_bytes(
            b.drop_first(),
        )
    }
}

/// True of sequences that decode as lowercase hex.
pub open spec fn is_hex_seq(s: Seq<u8>) -> bool {
    s.len() % 2 == 0 && forall|i: int| 0 <= i < s.len() ==> is_hex_char(s[i])
}

/// The bytes denoted by a hex sequence (meaningful when `is_hex_seq` holds).
pub open spec fn bytes_of_hex(s: Seq<u8>) -> Seq<u8> {
    Seq::new((s.len() / 2) as nat, |i: int| (hex_val(s[2 * i]) * 16 + hex_val(s[2 * i + 1])) as u8)
}

pub proof fn lemma_hex_of_bytes_len(b: Seq<u8>)
    ensures
        hex_of_bytes(b).len() == 2 * b.len(),
    decreases b.len(),
{
    if b.len() > 0 {
        lemma_hex_of_bytes_len(b.drop_first());
    }
}

pub proof fn lemma_hex_of_bytes_index(b: Seq<u8>, i: int)
    requires
        0 <= i < b.len(),
    ensures
        hex_of_bytes(b).len() == 2 * b.len(),
        hex_of_bytes(b)[2 * i] == hex_char_of(b[i] / 16),
        hex_of_bytes(b)[2 * i + 1] == hex_char_of(b[i] % 16),
    decreases b.len(),
{
    lemma_hex_of_bytes_len(b);
    if i > 0 {
        lemma_hex_of_bytes_index(b.drop_first(), i - 1);
    } else {
        lemma_hex_of_bytes_len(b.drop_first());
    }
}

/// Hex encoding round-trips: decoding the encoding of `b` gives `b` back.
pub proof fn lemma_hex_round_trip(b: Seq<u8>)
    ensures
        hex_of_bytes(b).len() == 2 * b.len(),
        is_hex_seq(hex_of_bytes(b)),
        bytes_of_hex(hex_of_bytes(b)) == b,
{
    lemma_hex_of_bytes_len(b);
    assert forall|i: int| 0 <= i < hex_of_bytes(b).len() implies is_hex_char(hex_of_bytes(b)[i]) by {
        let j = i / 2;
        lemma_hex_of_bytes_index(b, j);
    }
    assert forall|i: int| 0 <= i < b.len() implies bytes_of_hex(hex_of_bytes(b))[i] == b[i] by {
        lemma_hex_of_bytes_index(b, i);
    }
    assert(bytes_of_hex(hex_of_bytes(b)) =~= b);
}

/// Appends the lowercase hex encoding of `b` to `out`.
pub fn push_hex_of_bytes(b: &Vec<u8>, out: &mut Vec<u8>)
    ensures
        final(out)@ == old(out)@ + hex_of_bytes(b@),
{
    let mut i: usize = 0;
    proof {
        assert(b@.skip(0) == b@);
        assert(out@ + Seq::<u8>::empty() =~= out@);
    }
    let ghost start = out@;
    while i < b.len()
        invariant
            0 <= i <= b@.len(),
            start + hex_of_bytes(b@) =~= out@ + hex_of_bytes(b@.skip(i as int)),
        decreases b.len() - i,
    {
        let byte = b[i];
        let hi = byte / 16;
        let lo = byte % 16;
        out.push(if hi < 10 { 48 + hi } else { 87 + hi });
        out.push(if lo < 10 { 48 + lo } else { 87 + lo });
        proof {
            assert(b@.skip(i as int).first() == b@[i as int]);
            assert(b@.skip(i as int).drop_first() =~= b@.skip(i as int + 1));
        }
        i += 1;
    }
    proof {
        assert(b@.skip(b@.len() as int) =~= Seq::<u8>::empty());
        assert(out@ + Seq::<u8>::empty() =~= out@);
    }
}

/// Decodes a lowercase hex region of `s`, `from` (inclusive) to `to`
/// (exclusive); `None` when a character is not lowercase hex.
pub fn decode_hex_range(s: &Vec<u8>, from: usize, to: usize) -> (r: Option<Vec<u8>>)
    requires
        from <= to <= s@.len(),
        (to - from) % 2 == 0,
    ensures
        match r {
            Some(d) => is_hex_seq(s@.subrange(from as int, to as int)) && d@ == bytes_of_hex(
                s@.subrange(from as int, to as int),
            ),
            None => !is_hex_seq(s@.subrange(from as int, to as int)),
        },
{
    let ghost region = s@.subrange(from as int, to as int);
    let mut out: Vec<u8> = Vec::new();
    let mut i: usize = from;
    while i < to
        invariant
            from <= i <= to <= s@.len(),
            (to - from) % 2 == 0,
            (i - from) % 2 == 0,
            region == s@.subrange(from as int, to as int),
            forall|j: int| from <= j < i ==> is_hex_char(s@[j]),
            out@.len() == (i - from) / 2,
            forall|k: int|
                0 <= k < out@.len() ==> out@[k] == (hex_val(region[2 * k]) * 16 + hex_val(
                    region[2 * k + 1],
                )) as u8,
        decreases to - i,
    {
        let c0 = s[i];
        let c1 = s[i + 1];
        proof {
            assert(region[i - from] == s@[i as int]);
            assert(region[i + 1 - from] == s@[i as int + 1]);
        }
        let v0 = if 48 <= c0 && c0 <= 57 {
            c0 - 48
        } else if 97 <= c0 && c0 <= 102 {
            c0 - 87
        } else {
            assert(!is_hex_char(region[i - from]));
            return None;
        };
        let v1 = if 48 <= c1 && c1 <= 57 {
            c1 - 48
        } else if 97 <= c1 && c1 <= 102 {
            c1 - 87
        } else {
            assert(!is_hex_char(region[i + 1 - from]));
            return None;
        };
        out.push(v0 * 16 + v1);
        i += 2;
    }
    proof {
        assert forall|j: int| 0 <= j < region.len() implies is_hex_char(region[j]) by {
            assert(region[j] == s@[from + j]);
        }
        assert(out@ =~= bytes_of_hex(region));
    }
    Some(out)
}

} // verus!
verus! {

/// Big-endian byte decomposition of a u64, most significant byte first.
pub open spec fn be_bytes_of_u64(n: u64) -> Seq<u8> {
    seq![
        ((n / 0x100000000000000) % 256) as u8,
        ((n / 0x1000000000000) % 256) as u8,
        ((n / 0x10000000000) % 256) as u8,
        ((n / 0x100000000) % 256) as u8,
        ((n / 0x1000000) % 256) as u8,
        ((n / 0x10000) % 256) as u8,
        ((n / 0x100) % 256) as u8,
        (n % 256) as u8,
    ]
}

/// The u64 denoted by eight big-endian bytes.
pub open spec fn u64_of_be_bytes(b: Seq<u8>) -> u64
    recommends
        b.len() == 8,
{
    (b[0] as u64 * 0x100000000000000 + b[1] as u64 * 0x1000000000000 + b[2] as u64 * 0x10000000000
        + b[3] as u64 * 0x100000000 + b[4] as u64 * 0x1000000 + b[5] as u64 * 0x10000 + b[6] as u64
        * 0x100 + b[7] as u64) as u64
}

/// The big-endian byte decomposition round-trips.
pub proof fn lemma_be_bytes_round_trip(n: u64)
    ensures
        be_bytes_of_u64(n).len() == 8,
        u64_of_be_bytes(be_bytes_of_u64(n)) == n,
{
    assert(((n / 0x100000000000000) % 256) * 0x100000000000000 + ((n / 0x1000000000000) % 256)
        * 0x1000000000000 + ((n / 0x10000000000) % 256) * 0x10000000000 + ((n / 0x100000000) % 256)
        * 0x100000000 + ((n / 0x1000000) % 256) * 0x1000000 + ((n / 0x10000) % 256) * 0x10000 + ((n
        / 0x100) % 256) * 0x100 + (n % 256) == n) by (bit_vector);
}

/// Appends the eight big-endian bytes of `n` to `out`.
pub fn push_be_bytes_of_u64(n: u64, out: &mut Vec<u8>)
    ensures
        final(out)@ == old(out)@ + be_bytes_of_u64(n),
{
    out.push(((n / 0x100000000000000) % 256) as u8);
    out.push(((n / 0x1000000000000) % 256) as u8);
    out.push(((n / 0x10000000000) % 256) as u8);
    out.push(((n / 0x100000000) % 256) as u8);
    out.push(((n / 0x1000000) % 256) as u8);
    out.push(((n / 0x10000) % 256) as u8);
    out.push(((n / 0x100) % 256) as u8);
    out.push((n % 256) as u8);
    proof {
        assert(out@ =~= old(out)@ + be_bytes_of_u64(n));
    }
}

/// Reads a u64 from eight big-endian bytes.
pub fn read_u64_be(b: &Vec<u8>) -> (r: u64)
    requires
        b@.len() == 8,
    ensures
        r == u64_of_be_bytes(b@),
{
    let r: u64 = (b[0] as u64) * 0x100000000000000 + (b[1] as u64) * 0x1000000000000 + (b[2]
        as u64) * 0x10000000000 + (b[3] as u64) * 0x100000000 + (b[4] as u64) * 0x1000000 + (b[5]
        as u64) * 0x10000 + (b[6] as u64) * 0x100 + (b[7] as u64);
    r
}

/// Decimal (base ten) rendering of `n`, without leading zeros.
pub open spec fn dec_of(n: nat) -> Seq<u8>
    decreases n,
{
    if n < 10 {
        seq![(48 + n) as u8]
    } else {
        dec_of(n / 10).push((48 + n % 10) as u8)
    }
}

/// Appends the decimal rendering of `n` to `out`.
pub fn push_dec_of_u64(n: u64, out: &mut Vec<u8>)
    ensures
        final(out)@ == old(out)@ + dec_of(n as nat),
    decreases n,
{
    if n < 10 {
        out.push(48 + n as u8);
        proof {
            assert(out@ =~= old(out)@ + dec_of(n as nat));
        }
    } else {
        push_dec_of_u64(n / 10, out);
        out.push(48 + (n % 10) as u8);
        proof {
            assert((n / 10) as nat == (n as nat) / 10);
            assert((n % 10) as nat == (n as nat) % 10);
            assert(out@ =~= old(out)@ + dec_of(n as nat));
        }
    }
}

} // verus!
verus! {

/// Returns an owned copy of a byte vector.
pub fn copy_bytes(v: &Vec<u8>) -> (r: Vec<u8>)
    ensures
        r@ == v@,
{
    let mut out: Vec<u8> = Vec::new();
    let mut i: usize = 0;
    while i < v.len()
        invariant
            i <= v@.len(),
            out@ == v@.take(i as int),
        decreases v@.len() - i,
    {
        out.push(v[i]);
        proof {
            assert(v@.take(i as int + 1) =~= v@.take(i as int).push(v@[i as int]));
        }
        i += 1;
    }
    proof {
        assert(v@.take(v@.len() as int) == v@);
    }
    out
}

} // verus!
