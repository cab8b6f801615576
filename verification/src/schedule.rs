//! Priority scan schedule for the polling trigger variant: watched channels
//! are grouped by priority, and a repeating cycle visits the high tier, then
//! the medium tier, then the low tier, then wraps around. The cycle is an
//! explicit ordered list with a cursor; the collaborator layer decides when to
//! take the next step (its repeating schedule, with whatever interval it
//! chooses), scans a page of recent messages of that channel, and runs the
//! per-message pipeline on each.

use vstd::prelude::*;

use crate::config::{Priority, WatchedChannel};

verus! {

/// The tier a watched channel is scanned in; a channel with no explicit
/// priority scans in the low tier.
pub open spec fn effective_priority(p: Option<Priority>) -> Priority {
    match p {
        Some(x) => x,
        None => Priority::Low,
    }
}

/// The identities of the channels of one tier, in their configured order.
pub open spec fn tier_ids(channels: Seq<WatchedChannel>, p: Priority) -> Seq<u64>
    decreases channels.len(),
{
    if channels.len() == 0 {
        Seq::<u64>::empty()
    } else if effective_priority(channels[0].priority) == p {
        seq![channels[0].id] + tier_ids(channels.skip(1), p)
    } else {
        tier_ids(channels.skip(1), p)
    }
}

/// One full scan cycle: the high tier, then the medium tier, then the low
/// tier, each in configured order.
pub open spec fn cycle_of(channels: Seq<WatchedChannel>) -> Seq<u64> {
    tier_ids(channels, Priority::High) + tier_ids(channels, Priority::Medium) + tier_ids(
        channels,
        Priority::Low,
    )
}

proof fn lemma_tier_ids_step(channels: Seq<WatchedChannel>, p: Priority, i: int)
    requires
        0 <= i < channels.len(),
    ensures
        tier_ids(channels.skip(i), p) == if effective_priority(channels[i].priority) == p {
            seq![channels[i].id] + tier_ids(channels.skip(i + 1), p)
        } else {
            tier_ids(channels.skip(i + 1), p)
        },
{
    assert(channels.skip(i)[0] == channels[i]);
    assert(channels.skip(i).skip(1) =~= channels.skip(i + 1));
}

/// Collect the identities of one tier, in configured order.
fn collect_tier(channels: &Vec<WatchedChannel>, p: Priority) -> (r: Vec<u64>)
    ensures
        r@ == tier_ids(channels@, p),
{
    let mut r: Vec<u64> = Vec::new();
    let mut i: usize = 0;
    proof {
        assert(channels@.skip(0) =~= channels@);
    }
    while i < channels.len()
        invariant
            0 <= i <= channels@.len(),
            r@ + tier_ids(channels@.skip(i as int), p) =~= tier_ids(channels@, p),
        decreases channels@.len() - i,
    {
        proof {
            lemma_tier_ids_step(channels@, p, i as int);
        }
        let matched = match (channels[i].priority, p) {
            (Some(Priority::High), Priority::High) => true,
            (Some(Priority::Medium), Priority::Medium) => true,
            (Some(Priority::Low), Priority::Low) => true,
            (None, Priority::Low) => true,
            _ => false,
        };
        if matched {
            r.push(channels[i].id);
            proof {
                assert(r@ + tier_ids(channels@.skip(i + 1), p) =~= tier_ids(channels@, p));
            }
        }
        i += 1;
    }
    proof {
        assert(tier_ids(channels@.skip(i as int), p) =~= Seq::<u64>::empty());
        assert(r@ =~= tier_ids(channels@, p));
    }
    r
}

/// Build one full scan cycle over the watched channels.
pub fn cycle_order(channels: &Vec<WatchedChannel>) -> (r: Vec<u64>)
    ensures
        r@ == cycle_of(channels@),
{
    let mut r = collect_tier(channels, Priority::High);
    let mut mid = collect_tier(channels, Priority::Medium);
    let mut low = collect_tier(channels, Priority::Low);
    r.append(&mut mid);
    r.append(&mut low);
    r
}

/// Whether a scanned message is run through the pipeline at all: the polling
/// variant evaluates every recent message of the visited channel except those
/// the system itself authored.
pub fn scan_eligible(message: &crate::snapshot::MessageSnapshot, own_account: &String) -> (r:
    bool)
    ensures
        r == (message.author.account_name@ != own_account@),
{
    !(message.author.account_name == *own_account)
}

/// The repeating scan cursor: walks one cycle of channel identities and wraps
/// back to the start, forever.
pub struct ScanCursor {
    order: Vec<u64>,
    pos: usize,
}

impl ScanCursor {
    /// The cycle the cursor walks.
    pub closed spec fn order_spec(&self) -> Seq<u64> {
        self.order@
    }

    /// The position of the next channel to scan.
    pub closed spec fn pos_spec(&self) -> int {
        self.pos as int
    }

    /// The cursor's position always lies inside a non-empty cycle, and is
    /// pinned to the start of an empty one.
    pub open spec fn wf(&self) -> bool {
        if self.order_spec().len() == 0 {
            self.pos_spec() == 0
        } else {
            0 <= self.pos_spec() < self.order_spec().len()
        }
    }

    /// A cursor at the start of the cycle over the watched channels.
    pub fn new(channels: &Vec<WatchedChannel>) -> (r: Self)
        ensures
            r.wf(),
            r.order_spec() == cycle_of(channels@),
            r.pos_spec() == 0,
    {
        ScanCursor { order: cycle_order(channels), pos: 0 }
    }

    /// The next channel to scan, advancing the cursor cyclically; `None` when
    /// no channel is watched.
    pub fn next_channel(&mut self) -> (r: Option<u64>)
        requires
            old(self).wf(),
        ensures
            final(self).wf(),
            final(self).order_spec() == old(self).order_spec(),
            old(self).order_spec().len() == 0 ==> r is None && final(self).pos_spec() == 0,
            old(self).order_spec().len() > 0 ==> r == Some(
                old(self).order_spec()[old(self).pos_spec()],
            ) && final(self).pos_spec() == (old(self).pos_spec() + 1) % (
            old(self).order_spec().len() as int),
    {
        if self.order.len() == 0 {
            return None;
        }
        let id = self.order[self.pos];
        proof {
            let l = self.order@.len() as int;
            let p = self.pos as int;
            if p + 1 == l {
                vstd::arithmetic::div_mod::lemma_mod_self_0(l);
            } else {
                vstd::arithmetic::div_mod::lemma_small_mod((p + 1) as nat, l as nat);
            }
        }
        self.pos = self.pos + 1;
        if self.pos >= self.order.len() {
            self.pos = 0;
        }
        Some(id)
    }
}

} // verus!
