use vstd::prelude::*;

use crate::text::chars_of;

verus! {

/// `p` is a subsequence of `t`: its characters occur in `t` in the same order,
/// not necessarily next to each other.
pub open spec fn is_subseq(p: Seq<char>, t: Seq<char>) -> bool
    decreases t.len(),
{
    if p.len() == 0 {
        true
    } else if t.len() == 0 {
        false
    } else if p[0] == t[0] {
        is_subseq(p.drop_first(), t.drop_first())
    } else {
        is_subseq(p, t.drop_first())
    }
}

/// Whether `query` fuzzily matches `candidate`: all of its characters appear in
/// `candidate`, in order.
pub fn matches(candidate: &str, query: &str) -> (r: bool)
    ensures
        r == is_subseq(query@, candidate@),
{
    let t = chars_of(candidate);
    let p = chars_of(query);
    let mut i: usize = 0;
    let mut j: usize = 0;
    assert(t@.skip(0) =~= t@);
    assert(p@.skip(0) =~= p@);
    while i < t.len() && j < p.len()
        invariant
            i <= t.len(),
            j <= p.len(),
            is_subseq(p@, t@) == is_subseq(p@.skip(j as int), t@.skip(i as int)),
        decreases t.len() - i,
    {
        assert(t@.skip(i as int).drop_first() =~= t@.skip(i + 1));
        assert(p@.skip(j as int).drop_first() =~= p@.skip(j + 1));
        if p[j] == t[i] {
            j = j + 1;
        }
        i = i + 1;
    }
    assert(j < p.len() ==> t@.skip(i as int).len() == 0);
    j == p.len()
}

/// The empty query matches every text.
pub proof fn lemma_empty_query_matches(t: Seq<char>)
    ensures
        is_subseq(Seq::empty(), t),
{
}

/// A match keeps order: if `p` matches `t` then so does every prefix of `p`.
pub proof fn lemma_prefix_matches(p: Seq<char>, t: Seq<char>, n: int)
    requires
        is_subseq(p, t),
        0 <= n <= p.len(),
    ensures
        is_subseq(p.take(n), t),
    decreases t.len(),
{
    if n == 0 || p.len() == 0 {
    } else if t.len() == 0 {
    } else if p[0] == t[0] {
        lemma_prefix_matches(p.drop_first(), t.drop_first(), n - 1);
        assert(p.take(n).drop_first() =~= p.drop_first().take(n - 1));
    } else {
        lemma_prefix_matches(p, t.drop_first(), n);
    }
}

} // verus!
