use vstd::prelude::*;

use crate::dna_help::{ActionType, EntryAndHash};
use crate::hashes::{
    agent_key_well_formed, entry_hash_of_agent, AgentPubKey, EntryHash, HeaderHash,
    WrappedAgentPubKey, WrappedHeaderHash,
};
use vstd::std_specs::convert::FromSpecImpl;

verus! {

/// The path under which every agent's profile is listed.
pub const AGENTS_PATH: &'static str = "agents";

/// An agent's profile. `created_at` holds the bit pattern of the creation time
/// (an IEEE-754 double), carried unchanged.
pub struct Profile {
    pub created_at: u64,
    pub handle: String,
    pub avatar_url: String,
    pub address: WrappedAgentPubKey,
}

impl View for Profile {
    type V = (u64, Seq<char>, Seq<char>, Seq<u8>);

    open spec fn view(&self) -> Self::V {
        (self.created_at, self.handle@, self.avatar_url@, self.address@)
    }
}

impl Clone for Profile {
    fn clone(&self) -> (r: Self)
        ensures
            r@ == self@,
    {
        Profile {
            created_at: self.created_at,
            handle: self.handle.clone(),
            avatar_url: self.avatar_url.clone(),
            address: self.address.clone(),
        }
    }
}

/// The key of the agent that a profile is about.
impl From<Profile> for AgentPubKey {
    fn from(profile: Profile) -> (r: AgentPubKey) {
        profile.address.0
    }
}

impl FromSpecImpl<Profile> for AgentPubKey {
    open spec fn obeys_from_spec() -> bool {
        true
    }

    open spec fn from_spec(profile: Profile) -> AgentPubKey {
        profile.address.0
    }
}

/// The profile out of an entry and its hashes.
impl From<EntryAndHash<Profile>> for Profile {
    fn from(entry_and_hash: EntryAndHash<Profile>) -> (r: Profile) {
        entry_and_hash.0
    }
}

impl FromSpecImpl<EntryAndHash<Profile>> for Profile {
    open spec fn obeys_from_spec() -> bool {
        true
    }

    open spec fn from_spec(entry_and_hash: EntryAndHash<Profile>) -> Profile {
        entry_and_hash.0
    }
}

/// A profile as the UI sees it, with the address of its original header.
pub struct WireEntry {
    pub entry: Profile,
    pub address: WrappedHeaderHash,
}

impl View for WireEntry {
    type V = ((u64, Seq<char>, Seq<char>, Seq<u8>), Seq<u8>);

    open spec fn view(&self) -> Self::V {
        (self.entry@, self.address@)
    }
}

impl Clone for WireEntry {
    fn clone(&self) -> (r: Self)
        ensures
            r@ == self@,
    {
        WireEntry { entry: self.entry.clone(), address: self.address.clone() }
    }
}

/// Wraps a profile and the address of its original header.
impl From<EntryAndHash<Profile>> for WireEntry {
    fn from(entry_and_hash: EntryAndHash<Profile>) -> (r: WireEntry) {
        let (entry, address, _) = entry_and_hash;
        WireEntry { entry, address: WrappedHeaderHash(address) }
    }
}

impl FromSpecImpl<EntryAndHash<Profile>> for WireEntry {
    open spec fn obeys_from_spec() -> bool {
        true
    }

    open spec fn from_spec(entry_and_hash: EntryAndHash<Profile>) -> WireEntry {
        WireEntry { entry: entry_and_hash.0, address: WrappedHeaderHash(entry_and_hash.1) }
    }
}

/// Every listed profile.
pub struct AgentsOutput(pub Vec<Profile>);

/// The caller's own profile, if there is one.
pub struct WhoAmIOutput(pub Option<WireEntry>);

/// An agent's presence.
pub enum Status {
    Online,
    Away,
    Offline,
}

/// The text that stands for a status.
pub open spec fn status_name(s: Status) -> Seq<char> {
    match s {
        Status::Online => "Online"@,
        Status::Away => "Away"@,
        Status::Offline => "Offline"@,
    }
}

/// The status that a text stands for: `Online` and `Away` by name, any other
/// text `Offline`.
pub open spec fn status_from_name(s: Seq<char>) -> Status {
    if s == "Online"@ {
        Status::Online
    } else if s == "Away"@ {
        Status::Away
    } else {
        Status::Offline
    }
}

impl Status {
    /// The status that a text stands for; a text that names no status is `Offline`.
    pub fn from_string(s: &String) -> (r: Status)
        ensures
            r == status_from_name(s@),
    {
        let online = String::from_str("Online");
        let away = String::from_str("Away");
        if *s == online {
            Status::Online
        } else if *s == away {
            Status::Away
        } else {
            Status::Offline
        }
    }

    /// The text that a status is written as.
    pub fn as_str(&self) -> (r: &'static str)
        ensures
            r@ == status_name(*self),
    {
        match self {
            Status::Online => "Online",
            Status::Away => "Away",
            Status::Offline => "Offline",
        }
    }
}

/// A status written as text reads back as the same status.
pub proof fn lemma_status_round_trip(s: Status)
    ensures
        status_from_name(status_name(s)) == s,
{
    reveal_strlit("Online");
    reveal_strlit("Away");
    reveal_strlit("Offline");
    assert("Away"@ != "Online"@ ) by {
        assert("Away"@.len() != "Online"@.len());
    }
    assert("Offline"@ != "Online"@) by {
        assert("Offline"@[1] != "Online"@[1]);
    }
    assert("Offline"@ != "Away"@) by {
        assert("Offline"@.len() != "Away"@.len());
    }
}

/// Only the exact names `Online` and `Away` read as those statuses; every other
/// text, whatever its case or length, reads as `Offline`.
pub proof fn lemma_only_exact_names_read_as_present(s: Seq<char>)
    ensures
        status_from_name(s) is Online <==> s == "Online"@,
        status_from_name(s) is Away <==> s == "Away"@,
        status_from_name(s) is Offline <==> (s != "Online"@ && s != "Away"@),
{
    reveal_strlit("Online");
    reveal_strlit("Away");
    assert("Away"@ != "Online"@) by {
        assert("Away"@.len() != "Online"@.len());
    }
}

/// What a profile signal carries.
pub enum SignalData {
    Create(WireEntry),
    Update(WireEntry),
}

/// A signal sent to peers when a profile is created or updated.
pub struct AgentSignal {
    pub entry_type: String,
    pub action: ActionType,
    pub data: SignalData,
}

/// The entry type named in profile signals.
pub fn agent_signal_entry_type() -> (r: String)
    ensures
        r@ == "agent"@,
{
    String::from_str("agent")
}

/// A link that a zome call creates, from `base` to `target`.
pub struct LinkToCreate {
    pub base: EntryHash,
    pub target: EntryHash,
}

/// What `create_whoami` does once the profile has been committed under
/// `header_hash` and hashed to `entry_hash`: it lists the profile under the agents
/// path, so that anyone can see it, and under the caller's own key, so that the
/// caller can find it; it returns the profile with its address and sends a create
/// signal that carries the same.
pub fn create_whoami(
    entry: Profile,
    header_hash: HeaderHash,
    entry_hash: EntryHash,
    agents_path_hash: EntryHash,
    me: &AgentPubKey,
) -> (r: (Vec<LinkToCreate>, WireEntry, AgentSignal))
    requires
        agent_key_well_formed(me@),
    ensures
        r.0.len() == 2,
        r.0@[0].base@ == agents_path_hash@,
        r.0@[0].target@ == entry_hash@,
        r.0@[1].base@ == entry_hash_of_agent(me@),
        r.0@[1].target@ == entry_hash@,
        r.1.entry@ == entry@,
        r.1.address@ == header_hash@,
        r.2.entry_type@ == "agent"@,
        r.2.action is Create,
        r.2.data matches SignalData::Create(w) && w@ == r.1@,
{
    let mut links: Vec<LinkToCreate> = Vec::new();
    links.push(LinkToCreate { base: agents_path_hash, target: entry_hash.clone() });
    links.push(LinkToCreate { base: me.entry_hash(), target: entry_hash });
    let wire_entry = WireEntry { entry, address: WrappedHeaderHash(header_hash) };
    let signal = AgentSignal {
        entry_type: agent_signal_entry_type(),
        action: ActionType::Create,
        data: SignalData::Create(wire_entry.clone()),
    };
    (links, wire_entry, signal)
}

/// What `update_whoami` returns and tells its peers once the update is committed:
/// the update itself, and an update signal that carries the same.
pub fn update_whoami(update: WireEntry) -> (r: (WireEntry, AgentSignal))
    ensures
        r.0@ == update@,
        r.1.entry_type@ == "agent"@,
        r.1.action is Update,
        r.1.data matches SignalData::Update(w) && w@ == update@,
{
    let signal = AgentSignal {
        entry_type: agent_signal_entry_type(),
        action: ActionType::Update,
        data: SignalData::Update(update.clone()),
    };
    (update, signal)
}

/// The target of a link from the agent to a profile.
pub struct Link {
    pub target: EntryHash,
}

/// The profile entry that `whoami` looks up: the target of the last link from
/// the agent, if any.
pub fn whoami_target(links: Vec<Link>) -> (r: Option<EntryHash>)
    ensures
        links.len() == 0 ==> r is None,
        links.len() > 0 ==> (r matches Some(t) && t@ == links@.last().target@),
{
    let mut links = links;
    match links.pop() {
        Some(link) => Some(link.target),
        None => None,
    }
}

/// What `whoami` answers once the latest version of that profile has been looked up.
pub fn whoami(latest: Option<EntryAndHash<Profile>>) -> (r: WhoAmIOutput)
    ensures
        latest is None ==> r.0 is None,
        latest matches Some(e) ==> (r.0 matches Some(w) && w.entry == e.0 && w.address@ == e.1@),
{
    match latest {
        Some(entry_and_hash) => WhoAmIOutput(Some(WireEntry::from(entry_and_hash))),
        None => WhoAmIOutput(None),
    }
}

} // verus!
