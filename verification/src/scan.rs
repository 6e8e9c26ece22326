//! Byte-sequence scanning: first occurrence of a byte, and splitting a
//! sequence on a separator byte. These are the primitives the request-line
//! parser is specified and verified against.

use vstd::prelude::*;

verus! {

/// First index at or after `from` where `b` occurs in `s`, if any.
pub open spec fn find_from(s: Seq<u8>, b: u8, from: int) -> Option<int>
    decreases s.len() - from,
{
    if from < 0 || from >= s.len() {
        None
    } else if s[from] == b {
        Some(from)
    } else {
        find_from(s, b, from + 1)
    }
}

/// The pieces of `s` between occurrences of `sep`, in order, empty pieces
/// kept: splitting the empty sequence gives one empty piece, and every
/// occurrence of `sep` ends one piece and starts the next.
pub open spec fn split_bytes(s: Seq<u8>, sep: u8) -> Seq<Seq<u8>>
    decreases s.len(),
{
    if s.len() == 0 {
        seq![Seq::<u8>::empty()]
    } else if s[0] == sep {
        seq![Seq::<u8>::empty()] + split_bytes(s.drop_first(), sep)
    } else {
        let rest = split_bytes(s.drop_first(), sep);
        seq![seq![s[0]] + rest[0]] + rest.drop_first()
    }
}

/// A split always yields at least one piece.
pub proof fn lemma_split_len_pos(s: Seq<u8>, sep: u8)
    ensures
        split_bytes(s, sep).len() >= 1,
    decreases s.len(),
{
    if s.len() == 0 {
    } else if s[0] == sep {
        lemma_split_len_pos(s.drop_first(), sep);
    } else {
        lemma_split_len_pos(s.drop_first(), sep);
    }
}

/// What `find_from` returns is the first occurrence: the found index holds
/// `b`, and nothing before it (at or after `from`) does.
pub proof fn lemma_find_from_spec(s: Seq<u8>, b: u8, from: int)
    requires
        0 <= from <= s.len(),
    ensures
        match find_from(s, b, from) {
            Some(i) => from <= i < s.len() && s[i] == b && (forall|k: int|
                from <= k < i ==> s[k] != b),
            None => forall|k: int| from <= k < s.len() ==> s[k] != b,
        },
    decreases s.len() - from,
{
    if from >= s.len() {
    } else if s[from] == b {
    } else {
        lemma_find_from_spec(s, b, from + 1);
    }
}

/// Searching from an offset is searching the suffix that starts there.
pub proof fn lemma_find_from_offset(s: Seq<u8>, b: u8, off: int)
    requires
        0 <= off <= s.len(),
    ensures
        find_from(s, b, off) == match find_from(s.subrange(off, s.len() as int), b, 0) {
            Some(j) => Some(off + j),
            None => None::<int>,
        },
    decreases s.len() - off,
{
    let t = s.subrange(off, s.len() as int);
    if off == s.len() {
    } else if s[off] == b {
        assert(t[0] == b);
    } else {
        assert(t[0] != b);
        lemma_find_from_offset(s, b, off + 1);
        let t1 = s.subrange(off + 1, s.len() as int);
        lemma_find_from_offset(t, b, 1);
        assert(t.subrange(1, t.len() as int) =~= t1);
    }
}

/// A split decomposes at the first separator: with no separator the whole
/// sequence is the one piece; with a first separator at `i`, the first piece
/// is everything before it and the rest is the split of everything after it.
pub proof fn lemma_split_first(s: Seq<u8>, sep: u8)
    ensures
        match find_from(s, sep, 0) {
            None => split_bytes(s, sep) == seq![s],
            Some(i) => split_bytes(s, sep) == seq![s.subrange(0, i)] + split_bytes(
                s.subrange(i + 1, s.len() as int),
                sep,
            ),
        },
    decreases s.len(),
{
    if s.len() == 0 {
        assert(split_bytes(s, sep) =~~= seq![s]);
    } else if s[0] == sep {
        assert(find_from(s, sep, 0) == Some(0int));
        assert(s.subrange(0, 0) =~= Seq::<u8>::empty());
        assert(s.subrange(1, s.len() as int) =~= s.drop_first());
        assert(split_bytes(s, sep) =~~= seq![s.subrange(0, 0)] + split_bytes(
            s.subrange(1, s.len() as int),
            sep,
        ));
    } else {
        let d = s.drop_first();
        lemma_split_first(d, sep);
        lemma_find_from_spec(s, sep, 0);
        lemma_find_from_offset(s, sep, 1);
        assert(s.subrange(1, s.len() as int) =~= d);
        lemma_split_len_pos(d, sep);
        match find_from(s, sep, 0) {
            None => {
                assert(find_from(d, sep, 0) is None);
                assert(split_bytes(d, sep) == seq![d]);
                assert(seq![s[0]] + d =~= s);
                assert(split_bytes(s, sep) =~~= seq![s]);
            },
            Some(i) => {
                assert(i >= 1);
                assert(find_from(d, sep, 0) == Some(i - 1));
                let dtail = d.subrange(i, d.len() as int);
                assert(split_bytes(d, sep) == seq![d.subrange(0, i - 1)] + split_bytes(
                    dtail,
                    sep,
                ));
                lemma_split_len_pos(dtail, sep);
                assert(seq![s[0]] + d.subrange(0, i - 1) =~= s.subrange(0, i));
                assert(dtail =~= s.subrange(i + 1, s.len() as int));
                assert(split_bytes(s, sep) =~~= seq![s.subrange(0, i)] + split_bytes(
                    s.subrange(i + 1, s.len() as int),
                    sep,
                ));
            },
        }
    }
}

/// First occurrence of `b` in `s` at or after `from`, as executable code.
pub fn find_byte(s: &[u8], from: usize, b: u8) -> (r: Option<usize>)
    requires
        from <= s@.len(),
    ensures
        match r {
            Some(i) => from <= i < s@.len() && find_from(s@, b, from as int) == Some(i as int),
            None => find_from(s@, b, from as int) is None,
        },
{
    let n = s.len();
    let mut k = from;
    while k < n
        invariant
            from <= k <= n,
            n == s@.len(),
            forall|t: int| from <= t < k ==> s@[t] != b,
        decreases n - k,
    {
        if *vstd::slice::slice_index_get(s, k) == b {
            proof {
                lemma_find_from_spec(s@, b, from as int);
                if find_from(s@, b, from as int) is None {
                    assert(false);
                }
            }
            return Some(k);
        }
        k = k + 1;
    }
    proof {
        lemma_find_from_spec(s@, b, from as int);
        if find_from(s@, b, from as int) is Some {
            assert(false);
        }
    }
    None
}

/// Whether two byte slices hold the same bytes.
pub fn bytes_eq(a: &[u8], b: &[u8]) -> (r: bool)
    ensures
        r == (a@ == b@),
{
    if a.len() != b.len() {
        return false;
    }
    let n = a.len();
    let mut k: usize = 0;
    while k < n
        invariant
            0 <= k <= n,
            n == a@.len() && n == b@.len(),
            forall|t: int| 0 <= t < k ==> a@[t] == b@[t],
        decreases n - k,
    {
        if *vstd::slice::slice_index_get(a, k) != *vstd::slice::slice_index_get(b, k) {
            assert(a@ != b@);
            return false;
        }
        k = k + 1;
    }
    proof {
        assert(a@ =~= b@);
    }
    true
}

/// A copy of `s[lo..hi]` as a fresh vector.
pub fn subrange_to_vec(s: &[u8], lo: usize, hi: usize) -> (r: Vec<u8>)
    requires
        lo <= hi <= s@.len(),
    ensures
        r@ == s@.subrange(lo as int, hi as int),
{
    vstd::slice::slice_to_vec(vstd::slice::slice_subrange(s, lo, hi))
}

} // verus!
