//! Persistence adapter: the approval ledger serialized to and reloaded from a
//! single keyed document, so approvals survive a process restart. A missing or
//! corrupt document yields an empty ledger rather than a failure; reading and
//! writing the file itself is the collaborator layer's work.

use vstd::prelude::*;

use std::collections::BTreeMap;

use crate::ledger::ApprovalLedger;

verus! {

/// The document text that serializing a ledger state produces.
pub uninterp spec fn ledger_json_of(m: Map<u64, u64>) -> Seq<char>;

/// The ledger state a document text describes, or `None` when the text does
/// not describe a keyed mapping of integer identities.
pub uninterp spec fn parsed_ledger_of(s: Seq<char>) -> Option<Map<u64, u64>>;

/// Relies on serde_json::to_string_pretty: serializing an ordered map with
/// integer keys and values is a function of the entries alone (the map is
/// walked in key order), cannot fail for this type, and the resulting
/// document deserializes back to the same entries (serde_json's documented
/// round-trip for such types).
#[verifier::external_body]
fn records_to_json(m: &BTreeMap<u64, u64>) -> (r: String)
    ensures
        r@ == ledger_json_of(m@),
        parsed_ledger_of(r@) == Some(m@),
{
    serde_json::to_string_pretty(m).unwrap()
}

/// Relies on serde_json::from_str: parsing is a function of the input text
/// alone; a text that does not describe a keyed mapping of integer identities
/// is rejected with an error.
#[verifier::external_body]
fn records_from_json(s: &str) -> (r: Option<BTreeMap<u64, u64>>)
    ensures
        match r {
            Some(m) => parsed_ledger_of(s@) == Some(m@),
            None => parsed_ledger_of(s@) is None,
        },
{
    serde_json::from_str::<BTreeMap<u64, u64>>(s).ok()
}

/// The ledger state reloaded from a document: the state the document
/// describes, or empty when the document is missing or corrupt.
pub open spec fn loaded_ledger(document: Option<Seq<char>>) -> Map<u64, u64> {
    match document {
        Some(s) => match parsed_ledger_of(s) {
            Some(m) => m,
            None => Map::<u64, u64>::empty(),
        },
        None => Map::<u64, u64>::empty(),
    }
}

/// Serialize the full ledger to one keyed document.
pub fn save_ledger(ledger: &ApprovalLedger) -> (r: String)
    ensures
        r@ == ledger_json_of(ledger@),
        parsed_ledger_of(r@) == Some(ledger@),
{
    records_to_json(ledger.records())
}

/// Reload the ledger from a document read at startup. `None` stands for a
/// missing file; a corrupt document is recovered from by starting empty, not
/// by failing.
pub fn load_ledger(document: Option<&str>) -> (r: ApprovalLedger)
    ensures
        match document {
            Some(s) => r@ == loaded_ledger(Some(s@)),
            None => r@ == loaded_ledger(None),
        },
{
    match document {
        Some(s) => match records_from_json(s) {
            Some(m) => ApprovalLedger::from_records(m),
            None => ApprovalLedger::new(),
        },
        None => ApprovalLedger::new(),
    }
}

/// Law: saving, reloading, and saving again yields the very same document —
/// `save(load(save(L)))` equals `save(L)` for any ledger `L`. Returns the
/// document saved from `ledger` and the document saved from its reload.
pub fn save_load_save(ledger: &ApprovalLedger) -> (r: (String, String))
    ensures
        r.0@ == ledger_json_of(ledger@),
        r.1@ == r.0@,
{
    let first = save_ledger(ledger);
    let reloaded = load_ledger(Some(first.as_str()));
    let second = save_ledger(&reloaded);
    (first, second)
}

} // verus!
