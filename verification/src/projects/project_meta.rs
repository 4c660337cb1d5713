use vstd::prelude::*;

use crate::dna_help::{fetch_links, wire_entries, ActionType, HashedWireEntry, OptionEntryAndHash, ZomeError, kept_entries};
use crate::hashes::{EntryHash, HeaderHash, WrappedAgentPubKey, WrappedEntryHash, WrappedHeaderHash};

verus! {

/// The project's metadata. `created_at` holds the bit pattern of the creation
/// time (an IEEE-754 double), carried unchanged.
pub struct ProjectMeta {
    pub creator_address: WrappedAgentPubKey,
    pub created_at: u64,
    pub passphrase: String,
}

impl View for ProjectMeta {
    type V = (Seq<u8>, u64, Seq<char>);

    open spec fn view(&self) -> Self::V {
        (self.creator_address@, self.created_at, self.passphrase@)
    }
}

/// The path under which the project's metadata is listed.
pub const PROJECT_META_PATH: &'static str = "PROJECT_META_PATH";

/// The project's metadata as the UI sees it.
pub type ProjectMetaWireEntry = HashedWireEntry<ProjectMeta>;

/// What a project metadata signal carries.
pub enum ProjectMetaSignalData {
    Create(ProjectMetaWireEntry),
}

/// A signal sent to peers about the project's metadata.
pub struct ProjectMetaSignal {
    pub entry_type: String,
    pub action: ActionType,
    pub data: ProjectMetaSignalData,
}

/// Every listed version of the project's metadata.
pub struct VecProjectMetaWireEntry(pub Vec<ProjectMetaWireEntry>);

/// What `create_project_meta` returns once the metadata has been committed under
/// `address` and hashed to `entry_hash`.
pub fn inner_create_project_meta(entry: ProjectMeta, address: HeaderHash, entry_hash: EntryHash) -> (r:
    ProjectMetaWireEntry)
    ensures
        r.entry == entry,
        r.address@ == address@,
        r.entry_address@ == entry_hash@,
{
    HashedWireEntry {
        entry,
        address: WrappedHeaderHash(address),
        entry_address: WrappedEntryHash(entry_hash),
    }
}

/// The listed metadata once the latest version of each link target has been
/// looked up, in link order: those found, as the UI sees them.
pub fn inner_fetch_project_metas<E>(results: Vec<Result<OptionEntryAndHash<ProjectMeta>, E>>) -> (r:
    VecProjectMetaWireEntry)
    ensures
        r.0.len() == kept_entries(results@).len(),
        forall|i: int|
            0 <= i < r.0.len() ==> {
                &&& (#[trigger] r.0@[i]).entry == kept_entries(results@)[i].0
                &&& r.0@[i].address@ == kept_entries(results@)[i].1@
                &&& r.0@[i].entry_address@ == kept_entries(results@)[i].2@
            },
{
    VecProjectMetaWireEntry(wire_entries(fetch_links(results)))
}

/// What `fetch_project_meta` answers: the first listed metadata, or an error
/// when there is none.
pub fn fetch_project_meta(metas: VecProjectMetaWireEntry) -> (r: Result<ProjectMetaWireEntry, ZomeError>)
    ensures
        metas.0.len() > 0 ==> (r matches Ok(m) && m == metas.0@[0]),
        metas.0.len() == 0 ==> (r matches Err(ZomeError::Zome(msg)) && msg@ == "no project meta exists"@),
{
    let mut metas = metas.0;
    if metas.len() > 0 {
        Ok(metas.remove(0))
    } else {
        Err(ZomeError::Zome(String::from_str("no project meta exists")))
    }
}

} // verus!
