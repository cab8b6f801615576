use starboard::config::CurationConfig;
use starboard::ledger::ApprovalLedger;
use starboard::persist::{load_ledger, save_ledger, save_load_save};
use starboard::pipeline::{decide_trigger, TriggerDecision};
use starboard::snapshot::{AuthorInfo, MessageSnapshot, ReactionKind, ReactionTally};

#[test]
fn saved_document_is_a_keyed_json_mapping() {
    let mut ledger = ApprovalLedger::new();
    ledger.record_approval(42, 777);
    ledger.record_approval(9, 10);
    let doc = save_ledger(&ledger);
    let parsed: std::collections::BTreeMap<u64, u64> =
        serde_json::from_str(&doc).expect("the saved document is well-formed");
    assert_eq!(parsed.len(), 2);
    assert_eq!(parsed.get(&42), Some(&777));
    assert_eq!(parsed.get(&9), Some(&10));
}

#[test]
fn load_restores_saved_approvals() {
    let mut ledger = ApprovalLedger::new();
    ledger.record_approval(42, 777);
    ledger.record_approval(9, 10);
    let doc = save_ledger(&ledger);
    let reloaded = load_ledger(Some(&doc));
    assert_eq!(reloaded.len(), 2);
    assert_eq!(reloaded.publication_of(42), Some(777));
    assert_eq!(reloaded.publication_of(9), Some(10));
    assert_eq!(reloaded.publication_of(1), None);
}

#[test]
fn save_load_save_round_trip() {
    let mut ledger = ApprovalLedger::new();
    ledger.record_approval(42, 777);
    ledger.record_approval(9, 10);
    ledger.record_approval(1, 2);
    let (first, second) = save_load_save(&ledger);
    assert_eq!(first, second);
}

#[test]
fn save_load_save_round_trip_empty() {
    let (first, second) = save_load_save(&ApprovalLedger::new());
    assert_eq!(first, second);
}

#[test]
fn missing_file_starts_empty() {
    let ledger = load_ledger(None);
    assert_eq!(ledger.len(), 0);
}

#[test]
fn corrupt_document_starts_empty() {
    assert_eq!(load_ledger(Some("not a ledger at all {{{")).len(), 0);
    assert_eq!(load_ledger(Some("")).len(), 0);
    assert_eq!(load_ledger(Some("[1, 2, 3]")).len(), 0);
}

#[test]
fn restart_then_retrigger_yields_already_approved() {
    let mut ledger = ApprovalLedger::new();
    ledger.record_approval(42, 777);
    let doc = save_ledger(&ledger);

    // A fresh process reloads the ledger from the persisted document.
    let reloaded = load_ledger(Some(&doc));

    let cfg = CurationConfig {
        threshold: 1,
        publish_channel: 900,
        guild: 3,
        whitelist_enabled: false,
        channels: Vec::new(),
        reply_enabled: false,
        replies: Vec::new(),
        persistence_enabled: true,
    };
    let s = MessageSnapshot {
        id: 42,
        channel_id: 7,
        guild_id: Some(3),
        author: AuthorInfo {
            account_name: "starfan".to_string(),
            display_name: "Star Fan".to_string(),
            avatar_url: None,
        },
        content: "hello there".to_string(),
        attachments: Vec::new(),
        embeds: Vec::new(),
        quoted: None,
        reactions: vec![ReactionTally { kind: ReactionKind::Endorsement, count: 5 }],
        timestamp: 1700000000,
    };
    let decision = decide_trigger(&cfg, &reloaded, &s, false);
    assert_eq!(decision, TriggerDecision::UpdateExisting(777));
    assert_ne!(decision, TriggerDecision::PublishFresh);
}
