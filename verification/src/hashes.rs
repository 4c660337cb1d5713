use vstd::prelude::*;

verus! {

/// The address of a header on a source chain, held as its raw bytes.
pub struct HeaderHash {
    pub bytes: Vec<u8>,
}

/// The address of an entry, held as its raw bytes.
pub struct EntryHash {
    pub bytes: Vec<u8>,
}

/// The public key of an agent, held as its raw bytes.
pub struct AgentPubKey {
    pub bytes: Vec<u8>,
}

impl View for HeaderHash {
    type V = Seq<u8>;

    open spec fn view(&self) -> Seq<u8> {
        self.bytes@
    }
}

impl View for EntryHash {
    type V = Seq<u8>;

    open spec fn view(&self) -> Seq<u8> {
        self.bytes@
    }
}

impl View for AgentPubKey {
    type V = Seq<u8>;

    open spec fn view(&self) -> Seq<u8> {
        self.bytes@
    }
}

/// Byte-wise equality of two byte strings.
pub fn bytes_equal(a: &Vec<u8>, b: &Vec<u8>) -> (r: bool)
    ensures
        r == (a@ == b@),
{
    if a.len() != b.len() {
        return false;
    }
    let mut i: usize = 0;
    while i < a.len()
        invariant
            a.len() == b.len(),
            0 <= i <= a.len(),
            forall|j: int| 0 <= j < i ==> a@[j] == b@[j],
        decreases a.len() - i,
    {
        if a[i] != b[i] {
            return false;
        }
        i = i + 1;
    }
    assert(a@ =~= b@);
    true
}

/// A copy of a byte string.
pub fn copy_bytes(a: &Vec<u8>) -> (r: Vec<u8>)
    ensures
        r@ == a@,
{
    let r = a.clone();
    assert(r@ =~= a@);
    r
}

impl Clone for HeaderHash {
    fn clone(&self) -> (r: Self)
        ensures
            r@ == self@,
    {
        HeaderHash { bytes: copy_bytes(&self.bytes) }
    }
}

impl Clone for EntryHash {
    fn clone(&self) -> (r: Self)
        ensures
            r@ == self@,
    {
        EntryHash { bytes: copy_bytes(&self.bytes) }
    }
}

impl Clone for AgentPubKey {
    fn clone(&self) -> (r: Self)
        ensures
            r@ == self@,
    {
        AgentPubKey { bytes: copy_bytes(&self.bytes) }
    }
}

/// The first bytes of every agent key.
pub open spec fn agent_prefix() -> Seq<u8> {
    seq![0x84u8, 0x20u8, 0x24u8]
}

/// The first bytes of every entry hash.
pub open spec fn entry_prefix() -> Seq<u8> {
    seq![0x84u8, 0x21u8, 0x24u8]
}

/// An agent key in its full form: the agent prefix, then the 32 bytes of the
/// key and 4 bytes of DHT location.
pub open spec fn agent_key_well_formed(key: Seq<u8>) -> bool {
    key.len() == 39 && key.subrange(0, 3) == agent_prefix()
}

/// The entry hash under which an agent's key is found: the same 36 bytes of key
/// and location under the entry prefix.
pub open spec fn entry_hash_of_agent(key: Seq<u8>) -> Seq<u8> {
    entry_prefix() + key.subrange(3, 39)
}

/// holo_hash's `From<AgentPubKey> for EntryHash`, reached through hdk: it keeps
/// the 36 bytes after the prefix and writes the entry prefix over the agent
/// prefix. The key must be a full agent key, or building it panics.
#[verifier::external_body]
fn retype_agent_as_entry(key: &AgentPubKey) -> (r: EntryHash)
    requires
        agent_key_well_formed(key@),
    ensures
        r@ == entry_hash_of_agent(key@),
{
    let agent = hdk::prelude::AgentPubKey::from_raw_39_panicky(key.bytes.clone());
    EntryHash { bytes: hdk::prelude::EntryHash::from(agent).get_raw_39().to_vec() }
}

impl AgentPubKey {
    /// The entry hash under which this agent is found, for linking from the agent.
    pub fn entry_hash(&self) -> (r: EntryHash)
        requires
            agent_key_well_formed(self@),
        ensures
            r@ == entry_hash_of_agent(self@),
    {
        retype_agent_as_entry(self)
    }

    /// Whether two agent keys are the same key.
    pub fn same_key(&self, other: &AgentPubKey) -> (r: bool)
        ensures
            r == (self@ == other@),
    {
        bytes_equal(&self.bytes, &other.bytes)
    }
}

/// Wrapper that the UI sees in place of a header hash.
pub struct WrappedHeaderHash(pub HeaderHash);

/// Wrapper that the UI sees in place of an entry hash.
pub struct WrappedEntryHash(pub EntryHash);

/// Wrapper that the UI sees in place of an agent key.
pub struct WrappedAgentPubKey(pub AgentPubKey);

impl View for WrappedHeaderHash {
    type V = Seq<u8>;

    open spec fn view(&self) -> Seq<u8> {
        self.0@
    }
}

impl View for WrappedEntryHash {
    type V = Seq<u8>;

    open spec fn view(&self) -> Seq<u8> {
        self.0@
    }
}

impl View for WrappedAgentPubKey {
    type V = Seq<u8>;

    open spec fn view(&self) -> Seq<u8> {
        self.0@
    }
}

impl Clone for WrappedHeaderHash {
    fn clone(&self) -> (r: Self)
        ensures
            r@ == self@,
    {
        WrappedHeaderHash(self.0.clone())
    }
}

impl Clone for WrappedEntryHash {
    fn clone(&self) -> (r: Self)
        ensures
            r@ == self@,
    {
        WrappedEntryHash(self.0.clone())
    }
}

impl Clone for WrappedAgentPubKey {
    fn clone(&self) -> (r: Self)
        ensures
            r@ == self@,
    {
        WrappedAgentPubKey(self.0.clone())
    }
}

} // verus!
