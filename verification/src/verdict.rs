//! The outcome of validation.
//!
//! A rejection names the rule that was broken. It is never an irrecoverable
//! fault: whatever the input, validation returns a verdict.

use vstd::prelude::*;
use crate::hash::ActionHash;
use crate::hash::AnyLinkableHash;
use crate::schema::LinkTypes;
use crate::schema::UnitEntryTypes;

verus! {

/// The classes of rejection.
#[derive(Clone, Copy, Debug, PartialEq, Eq, Hash, Structural)]
pub enum ErrorKind {
    /// A referenced hash does not resolve.
    MissingDependency,
    /// What a hash resolves to is not of the expected variant.
    TypeMismatch,
    /// A delete was attempted on an entry or link that cannot be deleted.
    ImmutableViolation,
    /// A hash that should be an action hash is not one.
    MalformedReference,
    /// An agent's key does not follow its membrane proof.
    MalformedJoinSequence,
}

/// What a rule expected to find at a resolved hash.
#[derive(Clone, Copy, Debug, PartialEq, Eq, Hash)]
pub enum Expected {
    /// A record that holds an entry of this type.
    Entry(UnitEntryTypes),
    /// A record that holds an entry of any of the schema's types.
    SchemaEntry,
    /// A record that comes with its entry.
    StoredEntry,
    /// A record whose action is a create or an update.
    EntryCreation,
    /// A record whose action creates a link.
    CreateLink,
}

/// Why an operation was rejected.
#[derive(Clone, Copy, Debug, PartialEq, Eq, Hash)]
pub enum Rejection {
    /// The hash does not resolve to a record.
    MissingDependency(ActionHash),
    /// The record at the hash is not what the rule expects there.
    TypeMismatch(ActionHash, Expected),
    /// Entries of this type cannot be deleted.
    ImmutableEntry(UnitEntryTypes),
    /// Links of this type cannot be deleted.
    ImmutableLink(LinkTypes),
    /// The address should be the hash of an action and is not.
    MalformedReference(AnyLinkableHash),
    /// The action before an agent's key is not its membrane proof.
    MalformedJoinSequence,
}

impl Rejection {
    /// The class of the rejection.
    pub open spec fn class(self) -> ErrorKind {
        match self {
            Rejection::MissingDependency(_) => ErrorKind::MissingDependency,
            Rejection::TypeMismatch(_, _) => ErrorKind::TypeMismatch,
            Rejection::ImmutableEntry(_) => ErrorKind::ImmutableViolation,
            Rejection::ImmutableLink(_) => ErrorKind::ImmutableViolation,
            Rejection::MalformedReference(_) => ErrorKind::MalformedReference,
            Rejection::MalformedJoinSequence => ErrorKind::MalformedJoinSequence,
        }
    }

    /// The class of the rejection.
    pub fn kind(&self) -> (r: ErrorKind)
        ensures
            r == self.class(),
    {
        match self {
            Rejection::MissingDependency(_) => ErrorKind::MissingDependency,
            Rejection::TypeMismatch(_, _) => ErrorKind::TypeMismatch,
            Rejection::ImmutableEntry(_) => ErrorKind::ImmutableViolation,
            Rejection::ImmutableLink(_) => ErrorKind::ImmutableViolation,
            Rejection::MalformedReference(_) => ErrorKind::MalformedReference,
            Rejection::MalformedJoinSequence => ErrorKind::MalformedJoinSequence,
        }
    }

    /// The reason of the rejection, in words.
    pub open spec fn reason(self) -> Seq<char> {
        match self {
            Rejection::MissingDependency(_) => "Missing dependency: the referenced action does not resolve"@,
            Rejection::TypeMismatch(_, Expected::Entry(UnitEntryTypes::Happ)) => "Linked action must reference an entry of type Happ"@,
            Rejection::TypeMismatch(_, Expected::Entry(UnitEntryTypes::HappVersion)) => "Linked action must reference an entry of type HappVersion"@,
            Rejection::TypeMismatch(_, Expected::Entry(UnitEntryTypes::HappRelease)) => "Linked action must reference an entry of type HappRelease"@,
            Rejection::TypeMismatch(_, Expected::SchemaEntry) => "Original app entry must be one of the defined entry types for this zome"@,
            Rejection::TypeMismatch(_, Expected::StoredEntry) => "Original record must contain an entry"@,
            Rejection::TypeMismatch(_, Expected::EntryCreation) => "Original action must be a Create or Update action"@,
            Rejection::TypeMismatch(_, Expected::CreateLink) => "The action that a DeleteLink deletes must be a CreateLink"@,
            Rejection::ImmutableEntry(UnitEntryTypes::Happ) => "Happs cannot be deleted"@,
            Rejection::ImmutableEntry(UnitEntryTypes::HappVersion) => "Happ Versions cannot be deleted"@,
            Rejection::ImmutableEntry(UnitEntryTypes::HappRelease) => "hApp Releases cannot be deleted"@,
            Rejection::ImmutableLink(LinkTypes::HappUpdates) => "HappUpdates links cannot be deleted"@,
            Rejection::ImmutableLink(LinkTypes::HappUnpublished) => "HappUnpublished links cannot be deleted"@,
            Rejection::ImmutableLink(LinkTypes::HappToHappVersions) => "HappToHappVersions links cannot be deleted"@,
            Rejection::ImmutableLink(LinkTypes::HappVersionUpdates) => "HappVersionUpdates links cannot be deleted"@,
            Rejection::ImmutableLink(LinkTypes::HappToHappReleases) => "HappToHappReleases links cannot be deleted"@,
            Rejection::ImmutableLink(LinkTypes::HappReleaseUpdates) => "HappReleaseUpdates links cannot be deleted"@,
            Rejection::ImmutableLink(LinkTypes::AllHapps) => "AllHapps links cannot be deleted"@,
            Rejection::ImmutableLink(LinkTypes::PublisherHapps) => "PublisherHapps links cannot be deleted"@,
            Rejection::MalformedReference(_) => "No action hash associated with link"@,
            Rejection::MalformedJoinSequence => "The previous action for a `CreateAgent` action must be an `AgentValidationPkg`"@,
        }
    }

    /// The reason of the rejection, in words.
    pub fn message(&self) -> (r: String)
        ensures
            r@ == self.reason(),
    {
        let text: &str = match self {
            Rejection::MissingDependency(_) => "Missing dependency: the referenced action does not resolve",
            Rejection::TypeMismatch(_, Expected::Entry(UnitEntryTypes::Happ)) => "Linked action must reference an entry of type Happ",
            Rejection::TypeMismatch(_, Expected::Entry(UnitEntryTypes::HappVersion)) => "Linked action must reference an entry of type HappVersion",
            Rejection::TypeMismatch(_, Expected::Entry(UnitEntryTypes::HappRelease)) => "Linked action must reference an entry of type HappRelease",
            Rejection::TypeMismatch(_, Expected::SchemaEntry) => "Original app entry must be one of the defined entry types for this zome",
            Rejection::TypeMismatch(_, Expected::StoredEntry) => "Original record must contain an entry",
            Rejection::TypeMismatch(_, Expected::EntryCreation) => "Original action must be a Create or Update action",
            Rejection::TypeMismatch(_, Expected::CreateLink) => "The action that a DeleteLink deletes must be a CreateLink",
            Rejection::ImmutableEntry(UnitEntryTypes::Happ) => "Happs cannot be deleted",
            Rejection::ImmutableEntry(UnitEntryTypes::HappVersion) => "Happ Versions cannot be deleted",
            Rejection::ImmutableEntry(UnitEntryTypes::HappRelease) => "hApp Releases cannot be deleted",
            Rejection::ImmutableLink(LinkTypes::HappUpdates) => "HappUpdates links cannot be deleted",
            Rejection::ImmutableLink(LinkTypes::HappUnpublished) => "HappUnpublished links cannot be deleted",
            Rejection::ImmutableLink(LinkTypes::HappToHappVersions) => "HappToHappVersions links cannot be deleted",
            Rejection::ImmutableLink(LinkTypes::HappVersionUpdates) => "HappVersionUpdates links cannot be deleted",
            Rejection::ImmutableLink(LinkTypes::HappToHappReleases) => "HappToHappReleases links cannot be deleted",
            Rejection::ImmutableLink(LinkTypes::HappReleaseUpdates) => "HappReleaseUpdates links cannot be deleted",
            Rejection::ImmutableLink(LinkTypes::AllHapps) => "AllHapps links cannot be deleted",
            Rejection::ImmutableLink(LinkTypes::PublisherHapps) => "PublisherHapps links cannot be deleted",
            Rejection::MalformedReference(_) => "No action hash associated with link",
            Rejection::MalformedJoinSequence => "The previous action for a `CreateAgent` action must be an `AgentValidationPkg`",
        };
        text.to_owned()
    }
}

/// The verdict on a proposed operation.
#[derive(Clone, Copy, Debug, PartialEq, Eq, Hash)]
pub enum ValidateCallbackResult {
    /// The operation is admitted.
    Valid,
    /// The operation is rejected.
    Invalid(Rejection),
}

impl ValidateCallbackResult {
    /// Whether the operation is admitted.
    pub fn is_valid(&self) -> (r: bool)
        ensures
            r == (*self is Valid),
    {
        match self {
            ValidateCallbackResult::Valid => true,
            ValidateCallbackResult::Invalid(_) => false,
        }
    }

    /// The rejection, where the operation is rejected.
    pub fn rejection(&self) -> (r: Option<Rejection>)
        ensures
            r == (match *self {
                ValidateCallbackResult::Valid => None,
                ValidateCallbackResult::Invalid(rejection) => Some(rejection),
            }),
    {
        match self {
            ValidateCallbackResult::Valid => None,
            ValidateCallbackResult::Invalid(rejection) => Some(*rejection),
        }
    }
}

} // verus!
