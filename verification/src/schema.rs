//! The closed set of entry types and link types.
//!
//! Every rule of the library matches on these enums in full, so a new entry
//! or link type cannot be added without revisiting each rule.

use vstd::prelude::*;
use crate::happ::Happ;
use crate::happ_release::HappRelease;
use crate::happ_version::HappVersion;
use crate::hash::ActionHash;

verus! {

/// The entry types of the schema, without their payload, in the order of
/// their type tags.
#[derive(Clone, Copy, Debug, PartialEq, Eq, Hash, Structural)]
pub enum UnitEntryTypes {
    Happ,
    HappVersion,
    HappRelease,
}

/// An entry of the schema.
#[derive(Clone, Debug, PartialEq, Eq)]
pub enum EntryTypes {
    Happ(Happ),
    HappVersion(HappVersion),
    HappRelease(HappRelease),
}

/// The link types of the schema, in the order of their type tags.
#[derive(Clone, Copy, Debug, PartialEq, Eq, Hash, Structural)]
pub enum LinkTypes {
    /// From the original action of a hApp to one of its revisions.
    HappUpdates,
    /// From a hApp to itself: the mark that it is unpublished.
    HappUnpublished,
    /// From a hApp to one of its versions.
    HappToHappVersions,
    /// From the original action of a version to one of its revisions.
    HappVersionUpdates,
    /// From the catalogue's anchor to a hApp.
    AllHapps,
    /// From a publisher to one of their hApps.
    PublisherHapps,
    /// From a hApp to one of its releases.
    HappToHappReleases,
    /// From the original action of a release to one of its revisions.
    HappReleaseUpdates,
}

impl EntryTypes {
    /// The type of this entry.
    pub open spec fn unit(self) -> UnitEntryTypes {
        match self {
            EntryTypes::Happ(_) => UnitEntryTypes::Happ,
            EntryTypes::HappVersion(_) => UnitEntryTypes::HappVersion,
            EntryTypes::HappRelease(_) => UnitEntryTypes::HappRelease,
        }
    }

    /// The type of this entry.
    pub fn to_unit(&self) -> (r: UnitEntryTypes)
        ensures
            r == self.unit(),
    {
        match self {
            EntryTypes::Happ(_) => UnitEntryTypes::Happ,
            EntryTypes::HappVersion(_) => UnitEntryTypes::HappVersion,
            EntryTypes::HappRelease(_) => UnitEntryTypes::HappRelease,
        }
    }

    /// The hApp that an entry of this payload depends on: versions and
    /// releases name the hApp they belong to, a hApp depends on nothing.
    pub open spec fn dependency(self) -> Option<ActionHash> {
        match self {
            EntryTypes::Happ(_) => None,
            EntryTypes::HappVersion(happ_version) => Some(happ_version.happ_hash),
            EntryTypes::HappRelease(happ_release) => Some(happ_release.happ_hash),
        }
    }
}

impl UnitEntryTypes {
    /// The type tag: a small number that stands for the entry type wherever
    /// entries are stored, and that never changes.
    pub open spec fn tag(self) -> u8 {
        match self {
            UnitEntryTypes::Happ => 0,
            UnitEntryTypes::HappVersion => 1,
            UnitEntryTypes::HappRelease => 2,
        }
    }

    /// The type tag of the entry type.
    pub fn index(self) -> (r: u8)
        ensures
            r == self.tag(),
    {
        match self {
            UnitEntryTypes::Happ => 0,
            UnitEntryTypes::HappVersion => 1,
            UnitEntryTypes::HappRelease => 2,
        }
    }

    /// The entry type that a type tag stands for, or `None` where the tag
    /// stands for none.
    pub open spec fn of_tag(tag: u8) -> Option<UnitEntryTypes> {
        if tag == 0 {
            Some(UnitEntryTypes::Happ)
        } else if tag == 1 {
            Some(UnitEntryTypes::HappVersion)
        } else if tag == 2 {
            Some(UnitEntryTypes::HappRelease)
        } else {
            None
        }
    }

    /// The entry type that a type tag stands for, or `None` where the tag
    /// stands for none.
    pub fn from_index(index: u8) -> (r: Option<UnitEntryTypes>)
        ensures
            r == UnitEntryTypes::of_tag(index),
    {
        match index {
            0 => Some(UnitEntryTypes::Happ),
            1 => Some(UnitEntryTypes::HappVersion),
            2 => Some(UnitEntryTypes::HappRelease),
            _ => None,
        }
    }

    /// Whether entries of this type may be deleted. Only hApps may.
    pub open spec fn deletable(self) -> bool {
        self == UnitEntryTypes::Happ
    }

    /// Whether entries of this type may be deleted.
    pub fn is_deletable(self) -> (r: bool)
        ensures
            r == self.deletable(),
    {
        match self {
            UnitEntryTypes::Happ => true,
            UnitEntryTypes::HappVersion => false,
            UnitEntryTypes::HappRelease => false,
        }
    }

    /// The link type that ties the revisions of an entry of this type to its
    /// original action.
    pub open spec fn updates_link(self) -> LinkTypes {
        match self {
            UnitEntryTypes::Happ => LinkTypes::HappUpdates,
            UnitEntryTypes::HappVersion => LinkTypes::HappVersionUpdates,
            UnitEntryTypes::HappRelease => LinkTypes::HappReleaseUpdates,
        }
    }

    /// The link type that ties the revisions of an entry of this type to its
    /// original action.
    pub fn updates_link_type(self) -> (r: LinkTypes)
        ensures
            r == self.updates_link(),
    {
        match self {
            UnitEntryTypes::Happ => LinkTypes::HappUpdates,
            UnitEntryTypes::HappVersion => LinkTypes::HappVersionUpdates,
            UnitEntryTypes::HappRelease => LinkTypes::HappReleaseUpdates,
        }
    }

    /// The link type by which a hApp owns entries of this type, if it owns
    /// them.
    pub open spec fn ownership_link(self) -> Option<LinkTypes> {
        match self {
            UnitEntryTypes::Happ => None,
            UnitEntryTypes::HappVersion => Some(LinkTypes::HappToHappVersions),
            UnitEntryTypes::HappRelease => Some(LinkTypes::HappToHappReleases),
        }
    }

    /// The link type by which a hApp owns entries of this type, if it owns
    /// them.
    pub fn ownership_link_type(self) -> (r: Option<LinkTypes>)
        ensures
            r == self.ownership_link(),
    {
        match self {
            UnitEntryTypes::Happ => None,
            UnitEntryTypes::HappVersion => Some(LinkTypes::HappToHappVersions),
            UnitEntryTypes::HappRelease => Some(LinkTypes::HappToHappReleases),
        }
    }
}

impl LinkTypes {
    /// The type tag: a small number that stands for the link type wherever
    /// links are stored, and that never changes.
    pub open spec fn tag(self) -> u8 {
        match self {
            LinkTypes::HappUpdates => 0,
            LinkTypes::HappUnpublished => 1,
            LinkTypes::HappToHappVersions => 2,
            LinkTypes::HappVersionUpdates => 3,
            LinkTypes::AllHapps => 4,
            LinkTypes::PublisherHapps => 5,
            LinkTypes::HappToHappReleases => 6,
            LinkTypes::HappReleaseUpdates => 7,
        }
    }

    /// The type tag of the link type.
    pub fn index(self) -> (r: u8)
        ensures
            r == self.tag(),
    {
        match self {
            LinkTypes::HappUpdates => 0,
            LinkTypes::HappUnpublished => 1,
            LinkTypes::HappToHappVersions => 2,
            LinkTypes::HappVersionUpdates => 3,
            LinkTypes::AllHapps => 4,
            LinkTypes::PublisherHapps => 5,
            LinkTypes::HappToHappReleases => 6,
            LinkTypes::HappReleaseUpdates => 7,
        }
    }

    /// The link type that a type tag stands for, or `None` where the tag
    /// stands for none.
    pub open spec fn of_tag(tag: u8) -> Option<LinkTypes> {
        if tag == 0 {
            Some(LinkTypes::HappUpdates)
        } else if tag == 1 {
            Some(LinkTypes::HappUnpublished)
        } else if tag == 2 {
            Some(LinkTypes::HappToHappVersions)
        } else if tag == 3 {
            Some(LinkTypes::HappVersionUpdates)
        } else if tag == 4 {
            Some(LinkTypes::AllHapps)
        } else if tag == 5 {
            Some(LinkTypes::PublisherHapps)
        } else if tag == 6 {
            Some(LinkTypes::HappToHappReleases)
        } else if tag == 7 {
            Some(LinkTypes::HappReleaseUpdates)
        } else {
            None
        }
    }

    /// The link type that a type tag stands for, or `None` where the tag
    /// stands for none.
    pub fn from_index(index: u8) -> (r: Option<LinkTypes>)
        ensures
            r == LinkTypes::of_tag(index),
    {
        match index {
            0 => Some(LinkTypes::HappUpdates),
            1 => Some(LinkTypes::HappUnpublished),
            2 => Some(LinkTypes::HappToHappVersions),
            3 => Some(LinkTypes::HappVersionUpdates),
            4 => Some(LinkTypes::AllHapps),
            5 => Some(LinkTypes::PublisherHapps),
            6 => Some(LinkTypes::HappToHappReleases),
            7 => Some(LinkTypes::HappReleaseUpdates),
            _ => None,
        }
    }

    /// For a structural link type, the entry types that its base and its
    /// target must hold, in this order. Index links and the unpublished mark
    /// have no such expectation.
    pub open spec fn endpoints(self) -> Option<(UnitEntryTypes, UnitEntryTypes)> {
        match self {
            LinkTypes::HappUpdates => Some((UnitEntryTypes::Happ, UnitEntryTypes::Happ)),
            LinkTypes::HappToHappVersions => Some(
                (UnitEntryTypes::Happ, UnitEntryTypes::HappVersion),
            ),
            LinkTypes::HappVersionUpdates => Some(
                (UnitEntryTypes::HappVersion, UnitEntryTypes::HappVersion),
            ),
            LinkTypes::HappToHappReleases => Some(
                (UnitEntryTypes::Happ, UnitEntryTypes::HappRelease),
            ),
            LinkTypes::HappReleaseUpdates => Some(
                (UnitEntryTypes::HappRelease, UnitEntryTypes::HappRelease),
            ),
            LinkTypes::HappUnpublished => None,
            LinkTypes::AllHapps => None,
            LinkTypes::PublisherHapps => None,
        }
    }

    /// The entry types expected at the two ends of a link of this type.
    pub fn expected_endpoints(self) -> (r: Option<(UnitEntryTypes, UnitEntryTypes)>)
        ensures
            r == self.endpoints(),
    {
        match self {
            LinkTypes::HappUpdates => Some((UnitEntryTypes::Happ, UnitEntryTypes::Happ)),
            LinkTypes::HappToHappVersions => Some(
                (UnitEntryTypes::Happ, UnitEntryTypes::HappVersion),
            ),
            LinkTypes::HappVersionUpdates => Some(
                (UnitEntryTypes::HappVersion, UnitEntryTypes::HappVersion),
            ),
            LinkTypes::HappToHappReleases => Some(
                (UnitEntryTypes::Happ, UnitEntryTypes::HappRelease),
            ),
            LinkTypes::HappReleaseUpdates => Some(
                (UnitEntryTypes::HappRelease, UnitEntryTypes::HappRelease),
            ),
            LinkTypes::HappUnpublished => None,
            LinkTypes::AllHapps => None,
            LinkTypes::PublisherHapps => None,
        }
    }

    /// Whether links of this type may be deleted. Only the unpublished mark
    /// may: every other link is permanent once created.
    pub open spec fn deletable(self) -> bool {
        self == LinkTypes::HappUnpublished
    }

    /// Whether links of this type may be deleted.
    pub fn is_deletable(self) -> (r: bool)
        ensures
            r == self.deletable(),
    {
        match self {
            LinkTypes::HappUnpublished => true,
            LinkTypes::HappUpdates => false,
            LinkTypes::HappToHappVersions => false,
            LinkTypes::HappVersionUpdates => false,
            LinkTypes::HappToHappReleases => false,
            LinkTypes::HappReleaseUpdates => false,
            LinkTypes::AllHapps => false,
            LinkTypes::PublisherHapps => false,
        }
    }
}

/// Type tags stand for the types one for one: a type is found again by its
/// tag, and a tag that stands for a type is the tag of that type.
pub proof fn tags_stand_for_types(entry_type: UnitEntryTypes, link_type: LinkTypes, tag: u8)
    ensures
        UnitEntryTypes::of_tag(entry_type.tag()) == Some(entry_type),
        LinkTypes::of_tag(link_type.tag()) == Some(link_type),
        UnitEntryTypes::of_tag(tag) matches Some(found) ==> found.tag() == tag,
        LinkTypes::of_tag(tag) matches Some(found) ==> found.tag() == tag,
{
}

/// The links that tie an entry to its revisions connect two entries of its
/// own type, the links by which a hApp owns an entry start at a hApp, and
/// neither can be deleted.
pub proof fn structural_links_follow_the_schema(entry_type: UnitEntryTypes)
    ensures
        entry_type.updates_link().endpoints() == Some((entry_type, entry_type)),
        entry_type.ownership_link() matches Some(link_type) ==> link_type.endpoints() == Some(
            (UnitEntryTypes::Happ, entry_type),
        ),
        !entry_type.updates_link().deletable(),
        entry_type.ownership_link() matches Some(link_type) ==> !link_type.deletable(),
{
}

} // verus!
