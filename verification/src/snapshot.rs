//! Immutable, point-in-time views of a source message, as consumed by one
//! pipeline pass. A snapshot is fetched fresh per evaluation and never cached
//! across passes, since reaction tallies change between triggers.

use vstd::prelude::*;

verus! {

/// A reaction kind on a message. Two sentinel kinds matter to the pipeline:
/// the endorsement marker, whose tally is counted toward the promotion
/// threshold, and the acknowledgement marker, which the system itself applies
/// to mark a message as already promoted. Every other reaction kind is
/// carried as an opaque code assigned by the collaborator layer.
#[derive(Clone, Copy, PartialEq, Eq, Structural, Debug)]
pub enum ReactionKind {
    Endorsement,
    Acknowledgement,
    Other(u64),
}

/// The tally of one reaction kind on a message.
#[derive(Clone, Copy, PartialEq, Eq, Structural, Debug)]
pub struct ReactionTally {
    pub kind: ReactionKind,
    pub count: u64,
}

/// The author of a source message: the account name, the generic display
/// name, and the avatar reference if one is set.
#[derive(Clone, Debug)]
pub struct AuthorInfo {
    pub account_name: String,
    pub display_name: String,
    pub avatar_url: Option<String>,
}

/// One attachment on a message, reduced to its media reference.
#[derive(Clone, Debug)]
pub struct Attachment {
    pub url: String,
}

/// One rich-embed on a message, reduced to the fields the synthesizer reads.
#[derive(Clone, Debug)]
pub struct EmbedInfo {
    pub title: Option<String>,
    pub thumbnail_url: Option<String>,
    pub image_url: Option<String>,
    pub video_url: Option<String>,
}

/// The quoted/replied-to message a snapshot may reference.
#[derive(Clone, Debug)]
pub struct QuotedRef {
    pub author_name: String,
    pub content: String,
}

/// Read-only view of a source message at evaluation time.
#[derive(Clone, Debug)]
pub struct MessageSnapshot {
    pub id: u64,
    pub channel_id: u64,
    pub guild_id: Option<u64>,
    pub author: AuthorInfo,
    pub content: String,
    pub attachments: Vec<Attachment>,
    pub embeds: Vec<EmbedInfo>,
    pub quoted: Option<QuotedRef>,
    pub reactions: Vec<ReactionTally>,
    pub timestamp: i64,
}

} // verus!
