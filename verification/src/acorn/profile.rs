use vstd::prelude::*;

use crate::acorn::{
    link_definition, link_views, EntryDefinition, LinkDefinition, LinkDirection, Sharing,
    ValidationPackageDefinition,
};

verus! {

/// An entry together with its address.
pub struct GetResponse<T> {
    pub entry: T,
    pub address: String,
}

/// An agent's presence.
#[derive(PartialEq, Eq, Structural)]
pub enum Status {
    Online,
    Away,
    Offline,
}

/// An agent's profile; `address` is the address of the agent it is about.
pub struct Profile {
    pub first_name: String,
    pub last_name: String,
    pub handle: String,
    pub status: Status,
    pub avatar_url: String,
    pub address: String,
}

impl View for Profile {
    type V = (Seq<char>, Seq<char>, Seq<char>, Status, Seq<char>, Seq<char>);

    open spec fn view(&self) -> Self::V {
        (
            self.first_name@,
            self.last_name@,
            self.handle@,
            self.status,
            self.avatar_url@,
            self.address@,
        )
    }
}

impl Clone for Status {
    fn clone(&self) -> (r: Self)
        ensures
            r == *self,
    {
        match self {
            Status::Online => Status::Online,
            Status::Away => Status::Away,
            Status::Offline => Status::Offline,
        }
    }
}

impl Clone for Profile {
    fn clone(&self) -> (r: Self)
        ensures
            r@ == self@,
    {
        Profile {
            first_name: self.first_name.clone(),
            last_name: self.last_name.clone(),
            handle: self.handle.clone(),
            status: self.status.clone(),
            avatar_url: self.avatar_url.clone(),
            address: self.address.clone(),
        }
    }
}

/// The links that the profile entry type declares: one from each agent.
pub open spec fn profile_links() -> Seq<
    (LinkDirection, Seq<char>, Seq<char>, ValidationPackageDefinition),
> {
    seq![(LinkDirection::From, "%agent_id"@, "agent->profile"@, ValidationPackageDefinition::Entry)]
}

/// The profile entry type: public, validated on the entry, linked from agents.
pub fn profile_def() -> (r: EntryDefinition)
    ensures
        r@ == (
            "profile"@,
            "this is an entry representing some profile info for an agent"@,
            Sharing::Public,
            ValidationPackageDefinition::Entry,
            profile_links(),
        ),
{
    let mut links: Vec<LinkDefinition> = Vec::new();
    links.push(link_definition(LinkDirection::From, "%agent_id", "agent->profile"));
    assert(link_views(links@) =~= profile_links());
    EntryDefinition {
        name: String::from_str("profile"),
        description: String::from_str("this is an entry representing some profile info for an agent"),
        sharing: Sharing::Public,
        validation_package: ValidationPackageDefinition::Entry,
        links,
    }
}

/// A profile entry to validate: created, modified from an older version, or deleted.
pub enum ProfileValidation {
    Create { entry: Profile },
    Modify { new_entry: Profile, old_entry: Profile },
    Delete { old_entry: Profile },
}

/// Whether a profile change is allowed when `agent` made it: only the agent the
/// profile is about may create or delete it; a modification is allowed when the
/// new or the old version is about that agent.
pub open spec fn profile_change_allowed(v: ProfileValidation, agent: Seq<char>) -> bool {
    match v {
        ProfileValidation::Create { entry } => entry.address@ == agent,
        ProfileValidation::Modify { new_entry, old_entry } => new_entry.address@ == agent
            || old_entry.address@ == agent,
        ProfileValidation::Delete { old_entry } => old_entry.address@ == agent,
    }
}

/// The reason a profile change is refused.
pub open spec fn profile_change_refusal(v: ProfileValidation) -> Seq<char> {
    match v {
        ProfileValidation::Create { .. } =>
            "only the same agent as the profile is about can create their profile"@,
        ProfileValidation::Modify { .. } =>
            "only the same agent as the profile is about can modify their profile"@,
        ProfileValidation::Delete { .. } =>
            "only the same agent as the profile is about can delete their profile"@,
    }
}

/// Whether two changes are of the same kind and name the same agents.
pub open spec fn same_kind_and_addresses(v1: ProfileValidation, v2: ProfileValidation) -> bool {
    match (v1, v2) {
        (ProfileValidation::Create { entry: a }, ProfileValidation::Create { entry: b }) =>
            a.address@ == b.address@,
        (
            ProfileValidation::Modify { new_entry: n1, old_entry: o1 },
            ProfileValidation::Modify { new_entry: n2, old_entry: o2 },
        ) => n1.address@ == n2.address@ && o1.address@ == o2.address@,
        (ProfileValidation::Delete { old_entry: a }, ProfileValidation::Delete { old_entry: b }) =>
            a.address@ == b.address@,
        _ => false,
    }
}

/// The verdict on a profile change depends only on its kind, the addresses of its
/// profiles and the agent: names, handle, status and avatar play no part.
pub proof fn lemma_verdict_depends_only_on_addresses(
    v1: ProfileValidation,
    v2: ProfileValidation,
    agent: Seq<char>,
)
    requires
        same_kind_and_addresses(v1, v2),
    ensures
        profile_change_allowed(v1, agent) == profile_change_allowed(v2, agent),
        profile_change_refusal(v1) == profile_change_refusal(v2),
{
}

/// The agent a profile is about may always change it: create it, delete it, or
/// modify it when the old or the new version is about that agent. Any other agent
/// is refused.
pub proof fn lemma_own_profile_changes(p: Profile, q: Profile, agent: Seq<char>)
    ensures
        profile_change_allowed(ProfileValidation::Create { entry: p }, agent) <==> p.address@ == agent,
        profile_change_allowed(ProfileValidation::Delete { old_entry: p }, agent) <==> p.address@
            == agent,
        p.address@ == agent ==> profile_change_allowed(
            ProfileValidation::Modify { new_entry: p, old_entry: q },
            agent,
        ),
        p.address@ == agent ==> profile_change_allowed(
            ProfileValidation::Modify { new_entry: q, old_entry: p },
            agent,
        ),
        p.address@ != agent && q.address@ != agent ==> !profile_change_allowed(
            ProfileValidation::Modify { new_entry: p, old_entry: q },
            agent,
        ),
{
}

/// Validates a profile entry against the agents that signed it; the first source
/// is the agent who made the change.
pub fn validate_profile_entry(validation: &ProfileValidation, sources: &Vec<String>) -> (r: Result<
    (),
    String,
>)
    requires
        sources.len() > 0,
    ensures
        r is Ok <==> profile_change_allowed(*validation, sources@[0]@),
        r matches Err(msg) ==> msg@ == profile_change_refusal(*validation),
        *validation matches ProfileValidation::Create { entry } ==> (r is Ok <==> entry.address@
            == sources@[0]@),
        *validation matches ProfileValidation::Modify { new_entry, old_entry } ==> (r is Ok <==> (
        new_entry.address@ == sources@[0]@ || old_entry.address@ == sources@[0]@)),
        *validation matches ProfileValidation::Delete { old_entry } ==> (r is Ok <==> old_entry.address@
            == sources@[0]@),
{
    let agent_address = &sources[0];
    match validation {
        ProfileValidation::Create { entry } => {
            if entry.address != *agent_address {
                Err(
                    String::from_str(
                        "only the same agent as the profile is about can create their profile",
                    ),
                )
            } else {
                Ok(())
            }
        },
        ProfileValidation::Modify { new_entry, old_entry } => {
            if new_entry.address != *agent_address && old_entry.address != *agent_address {
                Err(
                    String::from_str(
                        "only the same agent as the profile is about can modify their profile",
                    ),
                )
            } else {
                Ok(())
            }
        },
        ProfileValidation::Delete { old_entry } => {
            if old_entry.address != *agent_address {
                Err(
                    String::from_str(
                        "only the same agent as the profile is about can delete their profile",
                    ),
                )
            } else {
                Ok(())
            }
        },
    }
}

/// An entry of the source chain that a link's validation package holds: an app
/// entry, with the profile that its content reads as (if it reads as one), or
/// another kind of entry.
pub enum SourceChainEntry {
    App { profile: Option<Profile> },
    Other,
}

/// What validating a link from an agent to a profile answers: with no source
/// chain entries it passes; else the first of them must be a profile of the agent
/// who made the link.
pub open spec fn spec_validate_profile_link(
    agent: Seq<char>,
    source_chain_entries: Option<Seq<SourceChainEntry>>,
) -> Result<(), Seq<char>> {
    match source_chain_entries {
        None => Ok(()),
        Some(entries) => match entries[0] {
            SourceChainEntry::App { profile: Some(profile), .. } => if profile.address@ == agent {
                Ok(())
            } else {
                Err("Cannot edit other people's Profile1"@)
            },
            SourceChainEntry::App { profile: None, .. } => Err("Cannot edit other people's Profile2"@),
            SourceChainEntry::Other => Err("Cannot edit other people's Profile3"@),
        },
    }
}

/// The verdict on a link depends only on the first entry of the source chain: two
/// chains that begin with the same entry get the same answer, whatever follows.
pub proof fn lemma_link_verdict_reads_first_entry(
    agent: Seq<char>,
    e1: Seq<SourceChainEntry>,
    e2: Seq<SourceChainEntry>,
)
    requires
        e1.len() > 0,
        e2.len() > 0,
        e1[0] == e2[0],
    ensures
        spec_validate_profile_link(agent, Some(e1)) == spec_validate_profile_link(agent, Some(e2)),
{
}

/// A link passes when no source chain is given, and when the chain begins with a
/// profile of the agent who made the link, whatever follows; a chain that begins
/// with anything else is refused.
pub proof fn lemma_link_own_profile_first(agent: Seq<char>, e: Seq<SourceChainEntry>)
    requires
        e.len() > 0,
    ensures
        spec_validate_profile_link(agent, None) is Ok,
        (e[0] matches SourceChainEntry::App { profile: Some(p) } && p.address@ == agent)
            <==> spec_validate_profile_link(agent, Some(e)) is Ok,
{
}

/// The source chain entries as sequences.
pub open spec fn entries_view(e: Option<Vec<SourceChainEntry>>) -> Option<Seq<SourceChainEntry>> {
    match e {
        Some(v) => Some(v@),
        None => None,
    }
}

/// Validates a link from an agent to a profile, added or removed, given the agents
/// that signed it and the source chain entries of its validation package.
pub fn validate_profile_link(sources: &Vec<String>, source_chain_entries: &Option<Vec<SourceChainEntry>>) -> (r:
    Result<(), String>)
    requires
        sources.len() > 0,
        source_chain_entries matches Some(v) ==> v.len() > 0,
    ensures
        r is Ok <==> spec_validate_profile_link(sources@[0]@, entries_view(*source_chain_entries))
            is Ok,
        r matches Err(msg) ==> spec_validate_profile_link(
            sources@[0]@,
            entries_view(*source_chain_entries),
        ) == Err::<(), Seq<char>>(msg@),
{
    let agent_address = &sources[0];
    match source_chain_entries {
        Some(vector) => match &vector[0] {
            SourceChainEntry::App { profile: Some(profile), .. } => {
                if profile.address == *agent_address {
                    Ok(())
                } else {
                    Err(String::from_str("Cannot edit other people's Profile1"))
                }
            },
            SourceChainEntry::App { profile: None, .. } => {
                Err(String::from_str("Cannot edit other people's Profile2"))
            },
            SourceChainEntry::Other => Err(String::from_str("Cannot edit other people's Profile3")),
        },
        None => Ok(()),
    }
}

/// The addresses of every listed agent other than this one, in order.
pub open spec fn recipients(profiles: Seq<Profile>, agent: Seq<char>) -> Seq<Seq<char>>
    decreases profiles.len(),
{
    if profiles.len() == 0 {
        Seq::empty()
    } else {
        let rest = recipients(profiles.drop_last(), agent);
        if profiles.last().address@ != agent {
            rest.push(profiles.last().address@)
        } else {
            rest
        }
    }
}

/// The views of a sequence of strings.
pub open spec fn string_views(s: Seq<String>) -> Seq<Seq<char>> {
    s.map_values(|x: String| x@)
}

/// Whom `notify_all` messages: the address of each listed profile, in order,
/// except this agent's own.
pub fn notify_all(profiles: &Vec<Profile>, agent_address: &String) -> (r: Vec<String>)
    ensures
        string_views(r@) == recipients(profiles@, agent_address@),
        forall|i: int|
            0 <= i < profiles.len() && (#[trigger] profiles@[i]).address@ != agent_address@
                ==> string_views(r@).contains(profiles@[i].address@),
        forall|i: int| 0 <= i < r.len() ==> (#[trigger] r@[i])@ != agent_address@,
{
    let mut out: Vec<String> = Vec::new();
    let mut i: usize = 0;
    while i < profiles.len()
        invariant
            0 <= i <= profiles.len(),
            string_views(out@) == recipients(profiles@.take(i as int), agent_address@),
        decreases profiles.len() - i,
    {
        proof {
            assert(profiles@.take(i as int + 1).drop_last() =~= profiles@.take(i as int));
        }
        if profiles[i].address != *agent_address {
            let ghost before = out@;
            out.push(profiles[i].address.clone());
            proof {
                assert(string_views(out@) =~= string_views(before).push(out@.last()@));
            }
        }
        i = i + 1;
    }
    proof {
        assert(profiles@.take(profiles.len() as int) =~= profiles@);
        assert forall|i: int|
            0 <= i < profiles.len() && (#[trigger] profiles@[i]).address@ != agent_address@
                implies string_views(out@).contains(profiles@[i].address@) by {
            lemma_recipients_include_others(profiles@, agent_address@, i);
        }
        lemma_recipients_exclude_self(profiles@, agent_address@);
        assert forall|i: int| 0 <= i < out.len() implies (#[trigger] out@[i])@ != agent_address@ by {
            assert(string_views(out@)[i] == out@[i]@);
        }
    }
    out
}

/// No agent messages itself.
pub proof fn lemma_recipients_exclude_self(profiles: Seq<Profile>, agent: Seq<char>)
    ensures
        forall|i: int|
            0 <= i < recipients(profiles, agent).len() ==> recipients(profiles, agent)[i] != agent,
    decreases profiles.len(),
{
    if profiles.len() > 0 {
        let rest = recipients(profiles.drop_last(), agent);
        lemma_recipients_exclude_self(profiles.drop_last(), agent);
        assert forall|i: int| 0 <= i < recipients(profiles, agent).len() implies recipients(
            profiles,
            agent,
        )[i] != agent by {
            if i < rest.len() {
                assert(recipients(profiles, agent)[i] == rest[i]);
            }
        }
    }
}

/// Every other agent is messaged: where no profile is this agent's, the
/// recipients are the addresses of all profiles, in order.
pub proof fn lemma_recipients_keep_others(profiles: Seq<Profile>, agent: Seq<char>)
    requires
        forall|i: int| 0 <= i < profiles.len() ==> (#[trigger] profiles[i]).address@ != agent,
    ensures
        recipients(profiles, agent) == profiles.map_values(|p: Profile| p.address@),
    decreases profiles.len(),
{
    if profiles.len() > 0 {
        let p = profiles.drop_last();
        assert forall|i: int| 0 <= i < p.len() implies (#[trigger] p[i]).address@ != agent by {
            assert(p[i] == profiles[i]);
        }
        lemma_recipients_keep_others(p, agent);
        assert(profiles.map_values(|q: Profile| q.address@) =~= p.map_values(
            |q: Profile| q.address@,
        ).push(profiles.last().address@));
    } else {
        assert(profiles.map_values(|q: Profile| q.address@) =~= Seq::<Seq<char>>::empty());
    }
}

/// Every listed profile that is not this agent's is messaged.
pub proof fn lemma_recipients_include_others(profiles: Seq<Profile>, agent: Seq<char>, i: int)
    requires
        0 <= i < profiles.len(),
        profiles[i].address@ != agent,
    ensures
        recipients(profiles, agent).contains(profiles[i].address@),
    decreases profiles.len(),
{
    let rest = recipients(profiles.drop_last(), agent);
    if i == profiles.len() - 1 {
        assert(recipients(profiles, agent) == rest.push(profiles[i].address@));
        assert(recipients(profiles, agent)[rest.len() as int] == profiles[i].address@);
    } else {
        assert(profiles.drop_last()[i] == profiles[i]);
        lemma_recipients_include_others(profiles.drop_last(), agent, i);
        let k = choose|k: int| 0 <= k < rest.len() && rest[k] == profiles[i].address@;
        assert(recipients(profiles, agent)[k] == rest[k]);
    }
}

/// Leaving out this agent's own profiles first changes nothing.
pub proof fn lemma_recipients_idempotent(profiles: Seq<Profile>, agent: Seq<char>)
    ensures
        recipients(profiles.filter(|p: Profile| p.address@ != agent), agent) == recipients(
            profiles,
            agent,
        ),
    decreases profiles.len(),
{
    reveal_with_fuel(Seq::filter, 1);
    if profiles.len() > 0 {
        let p = profiles.drop_last();
        lemma_recipients_idempotent(p, agent);
        let f = profiles.filter(|q: Profile| q.address@ != agent);
        if profiles.last().address@ != agent {
            assert(f.drop_last() =~= p.filter(|q: Profile| q.address@ != agent));
        } else {
            assert(f =~= p.filter(|q: Profile| q.address@ != agent));
        }
    }
}

/// What a new or updated profile is announced with.
pub struct NewAgentSignalPayload {
    pub agent: Profile,
}

/// A message sent directly to another agent.
pub enum DirectMessage {
    NewAgentNotification(NewAgentSignalPayload),
}

/// The message that announces a profile to the other agents.
pub fn notify_new_agent(profile: Profile) -> (r: DirectMessage)
    ensures
        r == DirectMessage::NewAgentNotification(NewAgentSignalPayload { agent: profile }),
{
    DirectMessage::NewAgentNotification(NewAgentSignalPayload { agent: profile })
}

/// An error of the zome API.
pub enum ZomeApiError {
    Internal(String),
}

/// What `create_whoami` returns once the profile has been committed at
/// `profile_address`.
pub fn create_whoami(profile: Profile, profile_address: String) -> (r: GetResponse<Profile>)
    ensures
        r.entry == profile,
        r.address == profile_address,
{
    GetResponse { entry: profile, address: profile_address }
}

/// What `update_whoami` returns once the profile at `address` has been updated.
pub fn update_whoami(profile: Profile, address: String) -> (r: GetResponse<Profile>)
    ensures
        r.entry == profile,
        r.address == address,
{
    GetResponse { entry: profile, address }
}

/// The caller's profile with its status changed, and the address to update it at;
/// an error when the caller has no profile.
pub fn update_status(current: Option<GetResponse<Profile>>, status: Status) -> (r: Result<
    (Profile, String),
    ZomeApiError,
>)
    ensures
        current is None ==> (r matches Err(ZomeApiError::Internal(msg))
            && msg@ == "Could not retrieve the agent profile"@),
        current matches Some(c) ==> (r matches Ok((p, a)) && (p.first_name == c.entry.first_name
            && p.last_name == c.entry.last_name && p.handle == c.entry.handle && p.status == status
            && p.avatar_url == c.entry.avatar_url && p.address == c.entry.address
            && a == c.address)),
{
    if let Some(GetResponse { entry, address }) = current {
        Ok(
            (
                Profile {
                    first_name: entry.first_name,
                    last_name: entry.last_name,
                    handle: entry.handle,
                    status: status,
                    avatar_url: entry.avatar_url,
                    address: entry.address,
                },
                address,
            ),
        )
    } else {
        Err(ZomeApiError::Internal(String::from_str("Could not retrieve the agent profile")))
    }
}

/// The caller's profile among the profiles linked from the caller: the first one.
pub fn whoami(profiles: Vec<Profile>) -> (r: Option<Profile>)
    ensures
        profiles.len() == 0 ==> r is None,
        profiles.len() > 0 ==> r == Some(profiles@[0]),
{
    let mut profiles = profiles;
    if profiles.len() > 0 {
        Some(profiles.remove(0))
    } else {
        None
    }
}

} // verus!
