//! Curation orchestrator: the decision core of one pipeline pass. For each
//! trigger the collaborator layer fetches a fresh snapshot, consults the
//! platform-side acknowledgement guard when the ledger has no record, asks
//! `decide_trigger` what to do, performs the publish or edit call, and hands
//! the outcome back to `apply_publish_outcome`. Everything that touches the
//! network stays outside; every decision is made here, under contract.

use vstd::prelude::*;

use rand::Rng;

use crate::config::{whitelisted, CurationConfig};
use crate::ledger::{ApprovalLedger, BeginOutcome};
use crate::snapshot::MessageSnapshot;
use crate::threshold::qualifies;

verus! {

/// What one trigger leads to. The `Skip` variants name the abort class, so
/// the collaborator layer can log every abort without second-guessing the
/// decision.
#[derive(Clone, Copy, PartialEq, Eq, Structural, Debug)]
pub enum TriggerDecision {
    /// The source channel is not in the configured watch set.
    SkipNotWatched,
    /// The endorsement tally does not meet the threshold (or the endorsement
    /// kind is absent); safe to re-trigger later as the tally changes.
    SkipBelowThreshold,
    /// The ledger has no record, but the platform already shows the
    /// acknowledgement marker (a ledger reset is the usual cause): the
    /// trigger is a duplicate and no update target is known.
    SkipAlreadyAcknowledged,
    /// The message was promoted before; rebuild the payload and edit the
    /// stored publication instead of creating a second one.
    UpdateExisting(u64),
    /// First qualifying trigger for this message: create the publication.
    PublishFresh,
}

/// The decision one trigger leads to, as a function of the configuration, the
/// ledger state, the fresh snapshot, and the platform-side acknowledgement
/// guard's answer.
pub open spec fn decision_of(
    cfg: CurationConfig,
    ledger: Map<u64, u64>,
    s: MessageSnapshot,
    platform_ack: bool,
) -> TriggerDecision {
    if !whitelisted(cfg, s.channel_id) {
        TriggerDecision::SkipNotWatched
    } else if !qualifies(s, cfg.threshold) {
        TriggerDecision::SkipBelowThreshold
    } else if ledger.contains_key(s.id) {
        TriggerDecision::UpdateExisting(ledger[s.id])
    } else if platform_ack {
        TriggerDecision::SkipAlreadyAcknowledged
    } else {
        TriggerDecision::PublishFresh
    }
}

/// Decide one trigger. `platform_ack` is the secondary dedup guard: whether
/// the platform already shows the system's acknowledgement marker on the
/// message. The guard call can fail; this build takes the lenient,
/// availability-over-strict-dedup path — the collaborator layer passes
/// `false` for "unknown" and evaluation proceeds. That choice is deliberate
/// and documented here, not a silent fall-through.
pub fn decide_trigger(
    cfg: &CurationConfig,
    ledger: &ApprovalLedger,
    message: &MessageSnapshot,
    platform_ack: bool,
) -> (r: TriggerDecision)
    ensures
        r == decision_of(*cfg, ledger@, *message, platform_ack),
{
    if !cfg.is_channel_whitelisted(message.channel_id) {
        return TriggerDecision::SkipNotWatched;
    }
    if !crate::threshold::meets_star_threshold(message, cfg.threshold) {
        return TriggerDecision::SkipBelowThreshold;
    }
    match ledger.try_begin_approval(message.id) {
        BeginOutcome::AlreadyApproved(p) => TriggerDecision::UpdateExisting(p),
        BeginOutcome::Fresh => {
            if platform_ack {
                TriggerDecision::SkipAlreadyAcknowledged
            } else {
                TriggerDecision::PublishFresh
            }
        },
    }
}

/// Record the outcome of the create-publication call. On success the ledger
/// maps the message to its new publication; on failure the ledger is left
/// untouched, so a later trigger for the same message can attempt again —
/// the ledger must never claim an approval that was not published.
pub fn apply_publish_outcome(
    ledger: &mut ApprovalLedger,
    message_id: u64,
    publication: Option<u64>,
)
    ensures
        match publication {
            Some(p) => final(ledger)@ == old(ledger)@.insert(message_id, p),
            None => final(ledger)@ == old(ledger)@,
        },
{
    match publication {
        Some(p) => ledger.record_approval(message_id, p),
        None => (),
    }
}

/// Whether the system's own account appears among the users who reacted with
/// the acknowledgement marker — the verified half of the platform-side dedup
/// guard. The collaborator layer lists the reacting accounts; absence of the
/// system's account means the message was never acknowledged.
pub fn ack_marker_present(reactor_ids: &Vec<u64>, own_id: u64) -> (r: bool)
    ensures
        r == exists|i: int| 0 <= i < reactor_ids@.len() && reactor_ids@[i] == own_id,
{
    let mut i: usize = 0;
    while i < reactor_ids.len()
        invariant
            0 <= i <= reactor_ids@.len(),
            forall|j: int| 0 <= j < i ==> reactor_ids@[j] != own_id,
        decreases reactor_ids@.len() - i,
    {
        if reactor_ids[i] == own_id {
            return true;
        }
        i += 1;
    }
    false
}

/// Relies on rand::Rng::gen_range over a thread-local generator: the result
/// lies in the given range (which must be non-empty). The value drawn is
/// random, so nothing more is stated of it.
#[verifier::external_body]
fn random_below(n: usize) -> (r: usize)
    requires
        n > 0,
    ensures
        r < n,
{
    rand::thread_rng().gen_range(0..n)
}

/// Pick one reply from the configured pool, uniformly at random; no reply
/// when the pool is empty.
pub fn choose_reply(replies: &Vec<String>) -> (r: Option<String>)
    ensures
        r is Some <==> replies@.len() > 0,
        r matches Some(t) ==> exists|i: int| 0 <= i < replies@.len() && t@ == replies@[i]@,
{
    if replies.len() == 0 {
        None
    } else {
        let i = random_below(replies.len());
        Some(replies[i].clone())
    }
}

/// Law: a snapshot whose endorsement tally is below the threshold (or whose
/// endorsement kind is absent) leads to no publish call and no ledger
/// mutation — the decision is one of the silent aborts, whatever the ledger
/// or the acknowledgement guard says.
pub proof fn lemma_below_threshold_no_effects(
    cfg: CurationConfig,
    ledger: Map<u64, u64>,
    s: MessageSnapshot,
    platform_ack: bool,
)
    requires
        !qualifies(s, cfg.threshold),
    ensures
        decision_of(cfg, ledger, s, platform_ack) is SkipNotWatched || decision_of(
            cfg,
            ledger,
            s,
            platform_ack,
        ) is SkipBelowThreshold,
{
}

/// Law: re-running the pipeline on an already-approved message never creates
/// a second publication. A qualifying re-trigger on a watched channel is
/// routed to exactly one edit of the stored publication; any other re-trigger
/// is a no-op decision.
pub proof fn lemma_idempotent_retrigger(
    cfg: CurationConfig,
    ledger: Map<u64, u64>,
    s: MessageSnapshot,
    platform_ack: bool,
)
    requires
        ledger.contains_key(s.id),
    ensures
        !(decision_of(cfg, ledger, s, platform_ack) is PublishFresh),
        whitelisted(cfg, s.channel_id) && qualifies(s, cfg.threshold) ==> decision_of(
            cfg,
            ledger,
            s,
            platform_ack,
        ) == TriggerDecision::UpdateExisting(ledger[s.id]),
{
}

/// Law: the ordering guarantee. Once an approval for a message is recorded,
/// every subsequent trigger for that identity observes `AlreadyApproved`:
/// its decision is never `PublishFresh` again.
pub proof fn lemma_no_second_create(
    cfg: CurationConfig,
    ledger: Map<u64, u64>,
    s: MessageSnapshot,
    publication_id: u64,
    platform_ack: bool,
)
    ensures
        !(decision_of(cfg, ledger.insert(s.id, publication_id), s, platform_ack)
            is PublishFresh),
{
}

} // verus!
