//! Approval ledger: the dedup store mapping a source-message identity to its
//! publication identity. It enforces at-most-once promotion: a key, once
//! present, is never removed, so after `record_approval` completes every later
//! `try_begin_approval` for that identity observes `AlreadyApproved`.
//!
//! The check-then-insert pair must run under one critical section per message
//! identity; callers obtain that here through Rust's exclusive `&mut` borrow
//! of the ledger, which serializes racing triggers.

use vstd::prelude::*;

use std::collections::BTreeMap;

verus! {

broadcast use vstd::laws_cmp::group_laws_cmp;

/// What `try_begin_approval` observed: either the identity has never been
/// promoted (`Fresh`), or it already carries an approval with the stored
/// publication identity.
#[derive(Clone, Copy, PartialEq, Eq, Structural, Debug)]
pub enum BeginOutcome {
    Fresh,
    AlreadyApproved(u64),
}

/// Whether a ledger in state `m` answers `Fresh` for `id`.
pub open spec fn observes_fresh(m: Map<u64, u64>, id: u64) -> bool {
    !m.contains_key(id)
}

/// The ledger state after a series of recorded approvals, applied in order.
pub open spec fn apply_records(m: Map<u64, u64>, ops: Seq<(u64, u64)>) -> Map<u64, u64>
    decreases ops.len(),
{
    if ops.len() == 0 {
        m
    } else {
        apply_records(m.insert(ops[0].0, ops[0].1), ops.skip(1))
    }
}

/// Keyed store from source-message identity to publication identity.
pub struct ApprovalLedger {
    records: BTreeMap<u64, u64>,
}

impl View for ApprovalLedger {
    type V = Map<u64, u64>;

    closed spec fn view(&self) -> Map<u64, u64> {
        self.records@
    }
}

impl ApprovalLedger {
    /// An empty ledger: no message has been promoted.
    pub fn new() -> (r: Self)
        ensures
            r@ == Map::<u64, u64>::empty(),
    {
        ApprovalLedger { records: BTreeMap::new() }
    }

    /// The number of recorded approvals.
    pub fn len(&self) -> (r: usize)
        ensures
            r == self@.len(),
    {
        self.records.len()
    }

    /// Whether the identity already carries an approval.
    pub fn is_approved(&self, message_id: u64) -> (r: bool)
        ensures
            r == self@.contains_key(message_id),
    {
        self.records.contains_key(&message_id)
    }

    /// Check-before-insert step of the critical section: observes `Fresh`
    /// exactly when the identity has no recorded approval, and otherwise
    /// reports the stored publication identity.
    pub fn try_begin_approval(&self, message_id: u64) -> (r: BeginOutcome)
        ensures
            r is Fresh <==> observes_fresh(self@, message_id),
            r matches BeginOutcome::AlreadyApproved(p) ==> self@.contains_key(message_id)
                && self@[message_id] == p,
    {
        match self.records.get(&message_id) {
            Some(p) => BeginOutcome::AlreadyApproved(*p),
            None => BeginOutcome::Fresh,
        }
    }

    /// Record a completed promotion: the identity now maps to its publication
    /// identity, and no other entry changes. Keys only ever grow; nothing is
    /// removed.
    pub fn record_approval(&mut self, message_id: u64, publication_id: u64)
        ensures
            final(self)@ == old(self)@.insert(message_id, publication_id),
            final(self)@.dom() == old(self)@.dom().insert(message_id),
    {
        self.records.insert(message_id, publication_id);
        proof {
            assert(self@.dom() =~= old(self)@.dom().insert(message_id));
        }
    }

    /// Wrap an already-populated record store, as reloaded from persistence.
    pub(crate) fn from_records(records: BTreeMap<u64, u64>) -> (r: Self)
        ensures
            r@ == records@,
    {
        ApprovalLedger { records }
    }

    /// Borrow the record store, for persistence.
    pub(crate) fn records(&self) -> (r: &BTreeMap<u64, u64>)
        ensures
            r@ == self@,
    {
        &self.records
    }

    /// The stored publication identity for the message, if any.
    pub fn publication_of(&self, message_id: u64) -> (r: Option<u64>)
        ensures
            match r {
                Some(p) => self@.contains_key(message_id) && self@[message_id] == p,
                None => !self@.contains_key(message_id),
            },
    {
        match self.records.get(&message_id) {
            Some(p) => Some(*p),
            None => None,
        }
    }
}

/// Law: `try_begin_approval` observes `Fresh` at most once per identity. In a
/// state `m` where `id` is unrecorded the first caller inside the critical
/// section observes `Fresh`; after that caller records its approval, every
/// later state — reached by any further series of recorded approvals — answers
/// `AlreadyApproved` for `id`, never `Fresh` again.
pub proof fn lemma_fresh_exactly_once(m: Map<u64, u64>, id: u64, p: u64, ops: Seq<(u64, u64)>)
    ensures
        observes_fresh(m, id) ==> !m.contains_key(id),
        !observes_fresh(apply_records(m.insert(id, p), ops), id),
{
    lemma_recorded_key_persists(m.insert(id, p), id, ops);
}

/// Law: a recorded approval is permanent. Whatever further approvals are
/// recorded, an identity already present in the ledger stays present.
pub proof fn lemma_recorded_key_persists(m: Map<u64, u64>, id: u64, ops: Seq<(u64, u64)>)
    requires
        m.contains_key(id),
    ensures
        apply_records(m, ops).contains_key(id),
    decreases ops.len(),
{
    if ops.len() > 0 {
        lemma_recorded_key_persists(m.insert(ops[0].0, ops[0].1), id, ops.skip(1));
    }
}

} // verus!
