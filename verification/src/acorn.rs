//! The holo_acorn zome: anchors, and profiles with their validation rules.

pub mod anchor;
pub mod profile;

use vstd::prelude::*;

verus! {

/// An app entry: its entry type and its content.
pub struct AppEntry {
    pub entry_type: String,
    pub value: String,
}

impl View for AppEntry {
    type V = (Seq<char>, Seq<char>);

    open spec fn view(&self) -> Self::V {
        (self.entry_type@, self.value@)
    }
}

/// Who may see an entry.
#[derive(PartialEq, Eq, Structural)]
pub enum Sharing {
    Public,
    Private,
    Encrypted,
}

/// What a validator is given to validate an entry or a link.
#[derive(PartialEq, Eq, Structural)]
pub enum ValidationPackageDefinition {
    Entry,
    ChainEntries,
    ChainHeaders,
    ChainFull,
}

/// Whether a link leaves this entry type or arrives at it.
#[derive(PartialEq, Eq, Structural)]
pub enum LinkDirection {
    To,
    From,
}

/// A link that an entry type declares: its direction, the entry type at its other
/// end, its link type and what validating it is given.
pub struct LinkDefinition {
    pub direction: LinkDirection,
    pub other_type: String,
    pub link_type: String,
    pub validation_package: ValidationPackageDefinition,
}

impl View for LinkDefinition {
    type V = (LinkDirection, Seq<char>, Seq<char>, ValidationPackageDefinition);

    open spec fn view(&self) -> Self::V {
        (self.direction, self.other_type@, self.link_type@, self.validation_package)
    }
}

/// An entry type: its name, description, sharing, what validating it is given,
/// and its links.
pub struct EntryDefinition {
    pub name: String,
    pub description: String,
    pub sharing: Sharing,
    pub validation_package: ValidationPackageDefinition,
    pub links: Vec<LinkDefinition>,
}

/// The views of a sequence of link definitions.
pub open spec fn link_views(links: Seq<LinkDefinition>) -> Seq<
    (LinkDirection, Seq<char>, Seq<char>, ValidationPackageDefinition),
> {
    links.map_values(|l: LinkDefinition| l@)
}

impl View for EntryDefinition {
    type V = (
        Seq<char>,
        Seq<char>,
        Sharing,
        ValidationPackageDefinition,
        Seq<(LinkDirection, Seq<char>, Seq<char>, ValidationPackageDefinition)>,
    );

    open spec fn view(&self) -> Self::V {
        (self.name@, self.description@, self.sharing, self.validation_package, link_views(self.links@))
    }
}

/// A link definition whose validating is given the entry.
pub fn link_definition(direction: LinkDirection, other_type: &str, link_type: &str) -> (r:
    LinkDefinition)
    ensures
        r@ == (direction, other_type@, link_type@, ValidationPackageDefinition::Entry),
{
    LinkDefinition {
        direction,
        other_type: String::from_str(other_type),
        link_type: String::from_str(link_type),
        validation_package: ValidationPackageDefinition::Entry,
    }
}

} // verus!
