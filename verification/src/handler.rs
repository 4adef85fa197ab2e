//! Handling one vote: build the composite tally key, bump its count in
//! the store, and phrase the response.

use vstd::prelude::*;
use vstd::string::StringExecFns;

use crate::store::{apply_vote, tally, VoteStore};

verus! {

/// One vote as submitted: which poll, and which choice within it.
pub struct Vote {
    pub poll_id: String,
    pub choice: String,
}

/// What a vote submission answers: a status message and the post-bump
/// count for the vote's key.
pub struct VoteResponse {
    pub status: String,
    pub count: i64,
}

/// The composite key a vote is tallied under: distinct polls or choices
/// collide only on exact string equality of this key.
pub open spec fn tally_key_spec(poll_id: Seq<char>, choice: Seq<char>) -> Seq<char> {
    "poll:"@ + poll_id + ":"@ + choice
}

/// The everyday status message.
pub open spec fn recorded_status(poll_id: Seq<char>) -> Seq<char> {
    "Vote for "@ + poll_id + " recorded"@
}

/// The rare celebratory status message.
pub open spec fn legend_status(poll_id: Seq<char>) -> Seq<char> {
    "Vote for "@ + poll_id + " counted, Fort Atkinson legend!"@
}

/// Build the tally key for a poll and a choice.
pub fn tally_key(poll_id: &String, choice: &String) -> (r: String)
    ensures
        r@ == tally_key_spec(poll_id@, choice@),
{
    let mut s = String::from_str("poll:");
    s.append(poll_id.as_str());
    s.append(":");
    s.append(choice.as_str());
    proof {
        assert(s@ =~= tally_key_spec(poll_id@, choice@));
    }
    s
}

/// Phrase the status line for a vote on `poll_id`; `legend` picks the
/// rare message over the everyday one. Never empty.
pub fn vote_status(poll_id: &String, legend: bool) -> (r: String)
    ensures
        legend ==> r@ == legend_status(poll_id@),
        !legend ==> r@ == recorded_status(poll_id@),
        r@.len() > 0,
{
    let mut s = String::from_str("Vote for ");
    s.append(poll_id.as_str());
    if legend {
        s.append(" counted, Fort Atkinson legend!");
        proof {
            reveal_strlit("Vote for ");
            assert(s@ =~= legend_status(poll_id@));
        }
    } else {
        s.append(" recorded");
        proof {
            reveal_strlit("Vote for ");
            assert(s@ =~= recorded_status(poll_id@));
        }
    }
    s
}

/// Out of the full `u32` draw space, the share of draws that picks the
/// celebratory message: one tenth.
const LEGEND_THRESHOLD: u32 = 429496730;

/// Relies on rand::random: one value drawn uniformly from a thread-local
/// generator. Nothing holds of which value comes back.
#[verifier::external_body]
fn random_u32() -> u32 {
    rand::random::<u32>()
}

/// Record one vote deterministically: the store gains exactly one count
/// under the vote's tally key, no other key moves, and the response
/// carries the key's new count and the message `legend` picks.
pub fn process_vote(store: &mut VoteStore, vote: &Vote, legend: bool) -> (r: VoteResponse)
    ensures
        final(store)@ == apply_vote(old(store)@, tally_key_spec(vote.poll_id@, vote.choice@)),
        r.count as int == tally(final(store)@, tally_key_spec(vote.poll_id@, vote.choice@)),
        1 <= r.count,
        legend ==> r.status@ == legend_status(vote.poll_id@),
        !legend ==> r.status@ == recorded_status(vote.poll_id@),
        r.status@.len() > 0,
{
    let key = tally_key(&vote.poll_id, &vote.choice);
    let count = store.record_vote(&key);
    let status = vote_status(&vote.poll_id, legend);
    VoteResponse { status, count }
}

/// Record one vote as a request handler does: one random draw picks the
/// message, and the count behaves as in `process_vote` whatever came of
/// the draw.
pub fn submit_vote(store: &mut VoteStore, vote: &Vote) -> (r: VoteResponse)
    ensures
        final(store)@ == apply_vote(old(store)@, tally_key_spec(vote.poll_id@, vote.choice@)),
        r.count as int == tally(final(store)@, tally_key_spec(vote.poll_id@, vote.choice@)),
        1 <= r.count,
        r.status@ == recorded_status(vote.poll_id@) || r.status@ == legend_status(vote.poll_id@),
        r.status@.len() > 0,
{
    let draw = random_u32();
    let legend = draw < LEGEND_THRESHOLD;
    process_vote(store, vote, legend)
}

} // verus!
