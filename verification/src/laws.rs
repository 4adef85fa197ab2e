//! What holds of any run of votes against a tally map: counts rise one
//! per vote for a key, keys never disturb one another, and the final
//! count for a key is exactly the number of votes that named it.

use vstd::prelude::*;

use crate::store::{apply_vote, bumped, tally};

verus! {

/// What a whole run of votes, keyed as `ks` lists them in submission
/// order, does to a tally map.
pub open spec fn apply_votes(m: Map<Seq<char>, int>, ks: Seq<Seq<char>>) -> Map<Seq<char>, int>
    decreases ks.len(),
{
    if ks.len() == 0 {
        m
    } else {
        apply_vote(apply_votes(m, ks.drop_last()), ks.last())
    }
}

/// How many of the votes in `ks` name the key `k`.
pub open spec fn votes_for(ks: Seq<Seq<char>>, k: Seq<char>) -> int
    decreases ks.len(),
{
    if ks.len() == 0 {
        0
    } else {
        votes_for(ks.drop_last(), k) + if ks.last() == k {
            1int
        } else {
            0int
        }
    }
}

/// The same key `k` listed `n` times: `n` sequential votes for one
/// `(poll, choice)` pair.
pub open spec fn repeated_key(k: Seq<char>, n: int) -> Seq<Seq<char>> {
    Seq::new(n as nat, |i: int| k)
}

/// A vote never counts against another key: one vote with key `k1`
/// leaves the tally of every other key `k2` exactly where it was.
pub proof fn lemma_key_isolation(m: Map<Seq<char>, int>, k1: Seq<char>, k2: Seq<char>)
    requires
        k1 != k2,
    ensures
        tally(apply_vote(m, k1), k2) == tally(m, k2),
{
}

/// No vote in a run names `k`: the run leaves `k`'s tally untouched.
pub proof fn lemma_run_isolation(m: Map<Seq<char>, int>, ks: Seq<Seq<char>>, k: Seq<char>)
    requires
        votes_for(ks, k) == 0,
    ensures
        tally(apply_votes(m, ks), k) == tally(m, k),
    decreases ks.len(),
{
    if ks.len() > 0 {
        lemma_votes_for_bounds(ks.drop_last(), k);
        lemma_run_isolation(m, ks.drop_last(), k);
    }
}

proof fn lemma_votes_for_bounds(ks: Seq<Seq<char>>, k: Seq<char>)
    ensures
        0 <= votes_for(ks, k) <= ks.len(),
    decreases ks.len(),
{
    if ks.len() > 0 {
        lemma_votes_for_bounds(ks.drop_last(), k);
    }
}

/// No votes are lost and none invented: after any run of votes, in
/// whatever order its keys interleave, a key's tally has risen by
/// exactly the number of votes that named it — provided the total stays
/// within the signed 64-bit range.
pub proof fn lemma_tally_after_votes(m: Map<Seq<char>, int>, ks: Seq<Seq<char>>, k: Seq<char>)
    requires
        0 <= tally(m, k),
        tally(m, k) + votes_for(ks, k) <= i64::MAX,
    ensures
        tally(apply_votes(m, ks), k) == tally(m, k) + votes_for(ks, k),
    decreases ks.len(),
{
    if ks.len() > 0 {
        lemma_votes_for_bounds(ks.drop_last(), k);
        lemma_tally_after_votes(m, ks.drop_last(), k);
    }
}

proof fn lemma_repeated_key_votes_for(k: Seq<char>, n: int)
    requires
        0 <= n,
    ensures
        votes_for(repeated_key(k, n), k) == n,
    decreases n,
{
    if n > 0 {
        assert(repeated_key(k, n).drop_last() =~= repeated_key(k, n - 1));
        lemma_repeated_key_votes_for(k, n - 1);
    }
}

/// Counts are monotonic and gapless: starting from a map that holds no
/// votes for `k`, the response to the `i`-th sequential vote for `k` —
/// the tally right after it — is exactly `i`, so `n` votes answer
/// `1, 2, ..., n` in submission order.
pub proof fn lemma_monotonic_count(m: Map<Seq<char>, int>, k: Seq<char>, n: int, i: int)
    requires
        tally(m, k) == 0,
        1 <= i <= n <= i64::MAX,
    ensures
        tally(apply_votes(m, repeated_key(k, i)), k) == i,
        tally(apply_votes(m, repeated_key(k, i)), k) == tally(
            apply_votes(m, repeated_key(k, i - 1)),
            k,
        ) + 1,
{
    lemma_repeated_key_votes_for(k, i);
    lemma_tally_after_votes(m, repeated_key(k, i), k);
    lemma_repeated_key_votes_for(k, i - 1);
    lemma_tally_after_votes(m, repeated_key(k, i - 1), k);
}

} // verus!
