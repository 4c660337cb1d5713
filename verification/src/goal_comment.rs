//! Comments on goals, kept by the acorn projects zome with create, fetch, update
//! and archive operations.

use vstd::prelude::*;

use crate::dna_help::{fetch_links, kept_entries, wire_entries, HashedWireEntry, OptionEntryAndHash};
use crate::hashes::{EntryHash, HeaderHash, WrappedAgentPubKey, WrappedEntryHash, WrappedHeaderHash};

verus! {

/// A comment on a goal. `unix_timestamp` holds the bit pattern of an IEEE-754
/// double, carried unchanged.
pub struct GoalComment {
    pub goal_address: WrappedHeaderHash,
    pub content: String,
    pub agent_address: WrappedAgentPubKey,
    pub unix_timestamp: u64,
}

impl View for GoalComment {
    type V = (Seq<u8>, Seq<char>, Seq<u8>, u64);

    open spec fn view(&self) -> Self::V {
        (self.goal_address@, self.content@, self.agent_address@, self.unix_timestamp)
    }
}

/// The path under which goal comments are listed.
pub const GOAL_COMMENT_PATH: &'static str = "goal_comment";

/// A goal comment as the UI sees it.
pub type GoalCommentWireEntry = HashedWireEntry<GoalComment>;

/// A new version of a goal comment and the header that it updates.
pub struct GoalCommentUpdateInput {
    pub entry: GoalComment,
    pub address: HeaderHash,
}

/// Every listed goal comment.
pub struct VecGoalCommentWireEntry(pub Vec<GoalCommentWireEntry>);

/// What `create_goal_comment` returns once the comment has been committed under
/// `address` and hashed to `entry_hash`.
pub fn inner_create_goal_comment(entry: GoalComment, address: HeaderHash, entry_hash: EntryHash) -> (r:
    GoalCommentWireEntry)
    ensures
        r.entry == entry,
        r.address@ == address@,
        r.entry_address@ == entry_hash@,
{
    HashedWireEntry {
        entry,
        address: WrappedHeaderHash(address),
        entry_address: WrappedEntryHash(entry_hash),
    }
}

/// The listed goal comments once the latest version of each link target has been
/// looked up, in link order: those found, as the UI sees them.
pub fn inner_fetch_goal_comments<E>(results: Vec<Result<OptionEntryAndHash<GoalComment>, E>>) -> (r:
    VecGoalCommentWireEntry)
    ensures
        r.0.len() == kept_entries(results@).len(),
        forall|i: int|
            0 <= i < r.0.len() ==> {
                &&& (#[trigger] r.0@[i]).entry == kept_entries(results@)[i].0
                &&& r.0@[i].address@ == kept_entries(results@)[i].1@
                &&& r.0@[i].entry_address@ == kept_entries(results@)[i].2@
            },
{
    VecGoalCommentWireEntry(wire_entries(fetch_links(results)))
}

/// What `update_goal_comment` returns once the new version has been committed and
/// hashed to `entry_address`: the new version under the header that it updated.
pub fn inner_update_goal_comment(update: GoalCommentUpdateInput, entry_address: EntryHash) -> (r:
    GoalCommentWireEntry)
    ensures
        r.entry == update.entry,
        r.address@ == update.address@,
        r.entry_address@ == entry_address@,
{
    HashedWireEntry {
        entry: update.entry,
        address: WrappedHeaderHash(update.address),
        entry_address: WrappedEntryHash(entry_address),
    }
}

/// What `archive_goal_comment` returns once the comment has been deleted: the
/// address that was archived.
pub fn inner_archive_goal_comment(address: HeaderHash) -> (r: HeaderHash)
    ensures
        r@ == address@,
{
    address
}

} // verus!
