//! What can go wrong when the catalogue is read or written.

use vstd::prelude::*;
use crate::schema::UnitEntryTypes;

verus! {

/// A failure of a read or a write of the catalogue.
#[derive(Clone, Copy, Debug, PartialEq, Eq, Hash, Structural)]
pub enum HappError {
    /// A link leads to something that is not an action.
    NoActionHash,
    /// The record of an entry that was just created cannot be found.
    CreatedNotFound(UnitEntryTypes),
    /// The record of an entry that was just updated cannot be found.
    UpdatedNotFound(UnitEntryTypes),
    /// The details asked of a record came back as those of an entry.
    MalformedGetDetailsResponse,
    /// The details asked of a record's deletes came back as those of an
    /// entry.
    MalformedDetails,
    /// A hApp that is not unpublished cannot be republished.
    NotUnpublished,
}

impl HappError {
    /// The failure in words.
    pub open spec fn reason(self) -> Seq<char> {
        match self {
            HappError::NoActionHash => "No action hash associated with link"@,
            HappError::CreatedNotFound(UnitEntryTypes::Happ) => "Could not find the newly created Happ"@,
            HappError::CreatedNotFound(UnitEntryTypes::HappVersion) => "Could not find the newly created HappVersion"@,
            HappError::CreatedNotFound(UnitEntryTypes::HappRelease) => "Could not find the newly created HappRelease"@,
            HappError::UpdatedNotFound(UnitEntryTypes::Happ) => "Could not find the newly updated Happ"@,
            HappError::UpdatedNotFound(UnitEntryTypes::HappVersion) => "Could not find the newly updated HappVersion"@,
            HappError::UpdatedNotFound(UnitEntryTypes::HappRelease) => "Could not find the newly updated HappRelease"@,
            HappError::MalformedGetDetailsResponse => "Malformed get details response"@,
            HappError::MalformedDetails => "Malformed details"@,
            HappError::NotUnpublished => "App is not unpublished."@,
        }
    }

    /// The failure in words.
    pub fn message(&self) -> (r: String)
        ensures
            r@ == self.reason(),
    {
        let text: &str = match self {
            HappError::NoActionHash => "No action hash associated with link",
            HappError::CreatedNotFound(UnitEntryTypes::Happ) => "Could not find the newly created Happ",
            HappError::CreatedNotFound(UnitEntryTypes::HappVersion) => "Could not find the newly created HappVersion",
            HappError::CreatedNotFound(UnitEntryTypes::HappRelease) => "Could not find the newly created HappRelease",
            HappError::UpdatedNotFound(UnitEntryTypes::Happ) => "Could not find the newly updated Happ",
            HappError::UpdatedNotFound(UnitEntryTypes::HappVersion) => "Could not find the newly updated HappVersion",
            HappError::UpdatedNotFound(UnitEntryTypes::HappRelease) => "Could not find the newly updated HappRelease",
            HappError::MalformedGetDetailsResponse => "Malformed get details response",
            HappError::MalformedDetails => "Malformed details",
            HappError::NotUnpublished => "App is not unpublished.",
        };
        text.to_owned()
    }
}

} // verus!
