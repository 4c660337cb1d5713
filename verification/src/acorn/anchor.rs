use vstd::prelude::*;

use crate::acorn::{
    link_definition, link_views, AppEntry, EntryDefinition, LinkDefinition, LinkDirection, Sharing,
    ValidationPackageDefinition,
};

verus! {

/// The anchor entry that names what it anchors.
pub fn anchor_entry(value: &str) -> (r: AppEntry)
    ensures
        r@ == ("anchor"@, value@),
{
    AppEntry { entry_type: String::from_str("anchor"), value: String::from_str(value) }
}

/// The anchors that `init` commits, in the order it commits them.
pub open spec fn init_anchor_values() -> Seq<Seq<char>> {
    seq![
        "goal_comments"@,
        "goal_votes"@,
        "goal_members"@,
        "goals"@,
        "edges"@,
        "agents"@,
    ]
}

/// The anchor entries that `init` commits, in the order it commits them.
pub fn init() -> (r: Vec<AppEntry>)
    ensures
        r.len() == init_anchor_values().len(),
        forall|i: int|
            0 <= i < r.len() ==> (#[trigger] r@[i])@ == ("anchor"@, init_anchor_values()[i]),
{
    let mut entries: Vec<AppEntry> = Vec::new();
    entries.push(anchor_entry("goal_comments"));
    entries.push(anchor_entry("goal_votes"));
    entries.push(anchor_entry("goal_members"));
    entries.push(anchor_entry("goals"));
    entries.push(anchor_entry("edges"));
    entries.push(anchor_entry("agents"));
    entries
}

/// The anchor under which every agent's profile is listed.
pub fn agents_anchor_entry() -> (r: AppEntry)
    ensures
        r@ == ("anchor"@, "agents"@),
{
    anchor_entry("agents")
}

/// The links that the anchor entry type declares: one to each listed entry type.
pub open spec fn anchor_links() -> Seq<
    (LinkDirection, Seq<char>, Seq<char>, ValidationPackageDefinition),
> {
    seq![
        (LinkDirection::To, "profile"@, "anchor->profiles"@, ValidationPackageDefinition::Entry),
        (LinkDirection::To, "goal"@, "anchor->goal"@, ValidationPackageDefinition::Entry),
        (LinkDirection::To, "edge"@, "anchor->edge"@, ValidationPackageDefinition::Entry),
        (LinkDirection::To, "goal_member"@, "anchor->goal_member"@, ValidationPackageDefinition::Entry),
        (LinkDirection::To, "goal_vote"@, "anchor->goal_vote"@, ValidationPackageDefinition::Entry),
        (LinkDirection::To, "goal_comment"@, "anchor->goal_comment"@, ValidationPackageDefinition::Entry),
    ]
}

/// The anchor entry type: public, validated on the entry, with its links.
pub fn anchor_def() -> (r: EntryDefinition)
    ensures
        r@ == (
            "anchor"@,
            "this is an anchor entry that we can link other entries to so we can find them"@,
            Sharing::Public,
            ValidationPackageDefinition::Entry,
            anchor_links(),
        ),
{
    let mut links: Vec<LinkDefinition> = Vec::new();
    links.push(link_definition(LinkDirection::To, "profile", "anchor->profiles"));
    links.push(link_definition(LinkDirection::To, "goal", "anchor->goal"));
    links.push(link_definition(LinkDirection::To, "edge", "anchor->edge"));
    links.push(link_definition(LinkDirection::To, "goal_member", "anchor->goal_member"));
    links.push(link_definition(LinkDirection::To, "goal_vote", "anchor->goal_vote"));
    links.push(link_definition(LinkDirection::To, "goal_comment", "anchor->goal_comment"));
    assert(link_views(links@) =~= anchor_links());
    EntryDefinition {
        name: String::from_str("anchor"),
        description: String::from_str(
            "this is an anchor entry that we can link other entries to so we can find them",
        ),
        sharing: Sharing::Public,
        validation_package: ValidationPackageDefinition::Entry,
        links,
    }
}

/// Anchor entries are always valid.
pub fn validate_anchor_entry(entry: &String) -> (r: Result<(), String>)
    ensures
        r is Ok,
{
    Ok(())
}

/// Links from an anchor are always valid.
pub fn validate_anchor_link(link_type: &String) -> (r: Result<(), String>)
    ensures
        r is Ok,
{
    Ok(())
}

} // verus!
