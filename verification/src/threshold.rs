//! Threshold evaluator: decides whether a message snapshot qualifies for
//! promotion, from the tally of the endorsement reaction kind and a configured
//! threshold.
//!
//! A message qualifies only when the endorsement kind is *present* in the
//! snapshot's tally list and its count is at least the threshold. In
//! particular, a threshold of zero does not promote every message in history:
//! the endorsement kind must still appear in the tallies (with any count,
//! including zero) for the pipeline to trigger at all.

use vstd::prelude::*;

use crate::snapshot::{MessageSnapshot, ReactionKind, ReactionTally};

verus! {

/// The count carried by the first tally of the given kind, or `None` when the
/// kind is absent from the list.
pub open spec fn tally_of(reactions: Seq<ReactionTally>, kind: ReactionKind) -> Option<u64>
    decreases reactions.len(),
{
    if reactions.len() == 0 {
        None
    } else if reactions[0].kind == kind {
        Some(reactions[0].count)
    } else {
        tally_of(reactions.skip(1), kind)
    }
}

/// The endorsement tally of a snapshot, with an absent endorsement entry
/// counting as zero.
pub open spec fn endorsement_count(s: MessageSnapshot) -> u64 {
    match tally_of(s.reactions@, ReactionKind::Endorsement) {
        Some(c) => c,
        None => 0,
    }
}

/// Whether a snapshot qualifies for promotion under the given threshold: the
/// endorsement kind must be present in the tallies and its count must reach
/// the threshold.
pub open spec fn qualifies(s: MessageSnapshot, threshold: u64) -> bool {
    match tally_of(s.reactions@, ReactionKind::Endorsement) {
        Some(c) => c >= threshold,
        None => false,
    }
}

proof fn lemma_tally_of_step(reactions: Seq<ReactionTally>, kind: ReactionKind, i: int)
    requires
        0 <= i < reactions.len(),
        reactions[i].kind != kind,
    ensures
        tally_of(reactions.skip(i), kind) == tally_of(reactions.skip(i + 1), kind),
{
    assert(reactions.skip(i)[0] == reactions[i]);
    assert(reactions.skip(i).skip(1) =~= reactions.skip(i + 1));
}

/// Find the tally of one reaction kind in a snapshot's tally list: the count
/// of the first entry of that kind, or `None` when the kind is absent.
pub fn find_tally(reactions: &Vec<ReactionTally>, kind: ReactionKind) -> (r: Option<u64>)
    ensures
        r == tally_of(reactions@, kind),
{
    let mut i: usize = 0;
    proof {
        assert(reactions@.skip(0) =~= reactions@);
    }
    while i < reactions.len()
        invariant
            0 <= i <= reactions@.len(),
            tally_of(reactions@, kind) == tally_of(reactions@.skip(i as int), kind),
        decreases reactions@.len() - i,
    {
        if reactions[i].kind == kind {
            proof {
                assert(reactions@.skip(i as int)[0] == reactions@[i as int]);
            }
            return Some(reactions[i].count);
        }
        proof {
            lemma_tally_of_step(reactions@, kind, i as int);
        }
        i += 1;
    }
    proof {
        assert(reactions@.skip(i as int) =~= Seq::<ReactionTally>::empty());
    }
    None
}

/// Count the endorsement reactions on the message, with an absent endorsement
/// entry counting as zero.
pub fn total_star_reactions(message: &MessageSnapshot) -> (r: u64)
    ensures
        r == endorsement_count(*message),
{
    match find_tally(&message.reactions, ReactionKind::Endorsement) {
        Some(c) => c,
        None => 0,
    }
}

/// Decide whether the message meets the endorsement threshold. The
/// endorsement kind must be present in the snapshot's tallies; absence never
/// qualifies, whatever the threshold.
pub fn meets_star_threshold(message: &MessageSnapshot, threshold: u64) -> (r: bool)
    ensures
        r == qualifies(*message, threshold),
{
    match find_tally(&message.reactions, ReactionKind::Endorsement) {
        Some(c) => c >= threshold,
        None => false,
    }
}

} // verus!
