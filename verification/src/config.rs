//! Configuration surface of the curation engine, as plain values: the
//! endorsement threshold, the target publication channel, the source
//! community, the channel whitelist, the reply pool, and the persistence
//! toggle. Loading and parsing the configuration file is the collaborator
//! layer's work; a missing or unparsable configuration is fatal there, before
//! any of this library runs.

use vstd::prelude::*;

verus! {

/// Scan priority of a watched channel in the polling variant:
/// `Low < Medium < High`.
#[derive(Clone, Copy, PartialEq, Eq, Structural, Debug)]
pub enum Priority {
    Low,
    Medium,
    High,
}

/// A channel the engine watches, with its optional scan priority.
#[derive(Clone, Copy, Debug)]
pub struct WatchedChannel {
    pub id: u64,
    pub priority: Option<Priority>,
}

/// Recognized options of the curation engine.
#[derive(Clone, Debug)]
pub struct CurationConfig {
    /// Endorsement tally needed for promotion.
    pub threshold: u64,
    /// The curated feed channel that publications are sent to.
    pub publish_channel: u64,
    /// The source community identity.
    pub guild: u64,
    /// When set, only the listed channels are watched; when clear, every
    /// channel is.
    pub whitelist_enabled: bool,
    /// The explicit channel list, with optional scan priorities.
    pub channels: Vec<WatchedChannel>,
    /// Whether a randomized reply is sent after a fresh publication.
    pub reply_enabled: bool,
    /// The pool of reply strings.
    pub replies: Vec<String>,
    /// Whether the ledger is persisted across restarts.
    pub persistence_enabled: bool,
}

/// Whether a channel identity appears in the watch list.
pub open spec fn channel_watched(channels: Seq<WatchedChannel>, channel_id: u64) -> bool {
    exists|i: int| 0 <= i < channels.len() && channels[i].id == channel_id
}

/// Whether the engine processes triggers from this channel: every channel is
/// watched while whitelisting is disabled, else only the listed ones.
pub open spec fn whitelisted(cfg: CurationConfig, channel_id: u64) -> bool {
    !cfg.whitelist_enabled || channel_watched(cfg.channels@, channel_id)
}

impl CurationConfig {
    /// Check whether the channel is whitelisted. With whitelisting disabled,
    /// all channels are considered whitelisted.
    pub fn is_channel_whitelisted(&self, channel_id: u64) -> (r: bool)
        ensures
            r == whitelisted(*self, channel_id),
    {
        if !self.whitelist_enabled {
            return true;
        }
        let mut i: usize = 0;
        while i < self.channels.len()
            invariant
                0 <= i <= self.channels@.len(),
                forall|j: int| 0 <= j < i ==> self.channels@[j].id != channel_id,
            decreases self.channels@.len() - i,
        {
            if self.channels[i].id == channel_id {
                return true;
            }
            i += 1;
        }
        false
    }
}

} // verus!
