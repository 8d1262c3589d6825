//! Raw query strings.
//!
//! A raw query is a byte string of `'&'`-separated segments, each segment a
//! `key` or `key=value` pair. Keys and values are taken verbatim, exactly as
//! they stand in the request line; this module only locates them. The first
//! segment whose key matches wins; segments with unknown keys are ignored by
//! the callers.

use vstd::prelude::*;
use vstd::slice::slice_subrange;
use vstd::slice::slice_to_vec;

verus! {

/// The pair separator `'&'`.
pub const PAIR_SEP: u8 = 38;

/// The key/value separator `'='`.
pub const KV_SEP: u8 = 61;

/// Index of the first occurrence of `b` in `s` at or after `i`, or `s.len()`
/// when `b` does not occur there.
pub open spec fn find_from(s: Seq<u8>, b: u8, i: int) -> int
    decreases s.len() - i,
{
    if i < 0 || i >= s.len() {
        s.len() as int
    } else if s[i] == b {
        i
    } else {
        find_from(s, b, i + 1)
    }
}

pub proof fn lemma_find_from_bounds(s: Seq<u8>, b: u8, i: int)
    requires
        0 <= i <= s.len(),
    ensures
        i <= find_from(s, b, i) <= s.len(),
    decreases s.len() - i,
{
    if i < s.len() && s[i] != b {
        lemma_find_from_bounds(s, b, i + 1);
    }
}

/// The key of one `key[=value]` segment: the bytes before the first `'='`,
/// or the whole segment when there is none.
pub open spec fn pair_key(seg: Seq<u8>) -> Seq<u8> {
    seg.take(find_from(seg, KV_SEP, 0))
}

/// The value of one `key[=value]` segment: the bytes after the first `'='`,
/// or empty when there is none.
pub open spec fn pair_value(seg: Seq<u8>) -> Seq<u8> {
    let e = find_from(seg, KV_SEP, 0);
    if e >= seg.len() {
        Seq::empty()
    } else {
        seg.skip(e + 1)
    }
}

/// The value of the first `'&'`-separated pair of `q` whose key is `name`,
/// or `None` when no pair has that key.
pub open spec fn query_lookup(q: Seq<u8>, name: Seq<u8>) -> Option<Seq<u8>>
    decreases q.len(),
{
    let e = find_from(q, PAIR_SEP, 0);
    if pair_key(q.take(e)) == name {
        Some(pair_value(q.take(e)))
    } else if e >= q.len() {
        None
    } else {
        proof {
            lemma_find_from_bounds(q, PAIR_SEP, 0);
        }
        query_lookup(q.skip(e + 1), name)
    }
}

/// Whether a query carries a pair with the given key.
pub open spec fn query_has(q: Seq<u8>, name: Seq<u8>) -> bool {
    query_lookup(q, name) is Some
}

/// Scan for the first occurrence of `b` at or after `from`.
pub fn find_byte(s: &[u8], b: u8, from: usize) -> (r: usize)
    requires
        from <= s@.len(),
    ensures
        r == find_from(s@, b, from as int),
        from <= r <= s@.len(),
{
    let mut j = from;
    while j < s.len()
        invariant
            from <= j <= s@.len(),
            find_from(s@, b, from as int) == find_from(s@, b, j as int),
        decreases s@.len() - j,
    {
        if s[j] == b {
            return j;
        }
        j = j + 1;
    }
    j
}

/// Byte-string equality.
pub fn bytes_eq(a: &[u8], b: &[u8]) -> (r: bool)
    ensures
        r == (a@ == b@),
{
    if a.len() != b.len() {
        return false;
    }
    let mut i: usize = 0;
    while i < a.len()
        invariant
            0 <= i <= a@.len(),
            a@.len() == b@.len(),
            forall|j: int| 0 <= j < i ==> a@[j] == b@[j],
        decreases a@.len() - i,
    {
        if a[i] != b[i] {
            return false;
        }
        i = i + 1;
    }
    proof {
        assert(a@ =~= b@);
    }
    true
}

/// Append a byte slice to a growing byte vector.
pub fn push_all(out: &mut Vec<u8>, s: &[u8])
    ensures
        final(out)@ == old(out)@ + s@,
{
    let mut i: usize = 0;
    while i < s.len()
        invariant
            0 <= i <= s@.len(),
            out@ == old(out)@ + s@.take(i as int),
        decreases s@.len() - i,
    {
        out.push(s[i]);
        proof {
            assert(old(out)@ + s@.take(i + 1) =~= (old(out)@ + s@.take(i as int)).push(s@[i as int]));
        }
        i = i + 1;
    }
    proof {
        assert(s@.take(s@.len() as int) =~= s@);
    }
}

/// Find the value of `name` in the raw query `q`, per [`query_lookup`].
pub fn lookup(q: &[u8], name: &[u8]) -> (r: Option<Vec<u8>>)
    ensures
        r is Some <==> query_lookup(q@, name@) is Some,
        r is Some ==> query_lookup(q@, name@) == Some(r->0@),
    decreases q@.len(),
{
    let e = find_byte(q, PAIR_SEP, 0);
    let seg = slice_subrange(q, 0, e);
    proof {
        assert(seg@ =~= q@.take(e as int));
    }
    let ke = find_byte(seg, KV_SEP, 0);
    let key = slice_subrange(seg, 0, ke);
    proof {
        assert(key@ =~= pair_key(q@.take(e as int)));
    }
    if bytes_eq(key, name) {
        if ke < seg.len() {
            let v = slice_to_vec(slice_subrange(seg, ke + 1, seg.len()));
            proof {
                assert(v@ =~= pair_value(q@.take(e as int)));
            }
            Some(v)
        } else {
            let v: Vec<u8> = Vec::new();
            proof {
                assert(v@ =~= pair_value(q@.take(e as int)));
            }
            Some(v)
        }
    } else if e < q.len() {
        let rest = slice_subrange(q, e + 1, q.len());
        proof {
            assert(rest@ =~= q@.skip(e + 1));
        }
        lookup(rest, name)
    } else {
        None
    }
}

} // verus!
