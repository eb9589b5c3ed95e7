//! Releases of a hApp.

use vstd::prelude::*;
use crate::action::CreateLink;
use crate::action::Delete;
use crate::action::DeleteLink;
use crate::action::EntryCreationAction;
use crate::action::LinkTag;
use crate::action::Update;
use crate::details::Details;
use crate::details::found_or;
use crate::details::original_record;
use crate::error::HappError;
use crate::hash::ActionHash;
use crate::hash::AnyLinkableHash;
use crate::hash::EntryHash;
use crate::link::CreateLinkInput;
use crate::link::GetLinksInput;
use crate::link::Link;
use crate::rules::create_link_rule;
use crate::rules::create_rule;
use crate::rules::delete_link_rule;
use crate::rules::delete_rule;
use crate::rules::entry_at;
use crate::rules::link_between;
use crate::rules::must_get_entry;
use crate::rules::validate_link_between;
use crate::schema::EntryTypes;
use crate::schema::LinkTypes;
use crate::schema::UnitEntryTypes;
use crate::store::RecordStore;
use crate::verdict::Rejection;
use crate::verdict::ValidateCallbackResult;
use crate::versioning::all_revisions;
use crate::versioning::latest_revision;
use crate::versioning::latest_revision_of;
use crate::versioning::present;
use crate::versioning::revision_hashes;
use crate::versioning::revisions_of;
use crate::versioning::update_link;

verus! {

/// A release of a hApp. `happ_hash` is the original action hash of the hApp
/// it belongs to.
#[derive(Clone, Debug, PartialEq, Eq)]
pub struct HappRelease {
    pub happ_hash: ActionHash,
    pub version: String,
    pub changes: String,
    pub web_bundle_hash: EntryHash,
}

/// A release is admitted where the hApp it names resolves to a hApp.
pub fn validate_create_happ_release(
    action: &EntryCreationAction,
    happ_release: &HappRelease,
    store: &RecordStore,
) -> (r: ValidateCallbackResult)
    ensures
        r == create_rule(store@, EntryTypes::HappRelease(*happ_release)),
        r == entry_at(store@, happ_release.happ_hash, UnitEntryTypes::Happ),
{
    must_get_entry(store, &happ_release.happ_hash, UnitEntryTypes::Happ)
}

/// Nothing is asked of a release beyond what is asked of every update.
pub fn validate_update_happ_release(
    action: &Update,
    happ_release: &HappRelease,
    original_action: &EntryCreationAction,
    original_happ_release: &HappRelease,
) -> (r: ValidateCallbackResult)
    ensures
        r is Valid,
{
    ValidateCallbackResult::Valid
}

/// A release is never deleted.
pub fn validate_delete_happ_release(
    action: &Delete,
    original_action: &EntryCreationAction,
    original_happ_release: &HappRelease,
) -> (r: ValidateCallbackResult)
    ensures
        r == delete_rule(UnitEntryTypes::HappRelease),
        r == ValidateCallbackResult::Invalid(Rejection::ImmutableEntry(UnitEntryTypes::HappRelease)),
{
    ValidateCallbackResult::Invalid(Rejection::ImmutableEntry(UnitEntryTypes::HappRelease))
}

/// A link from a hApp to one of its releases: the base must lead to a hApp,
/// the target to a release.
pub fn validate_create_link_happ_to_happ_releases(
    action: &CreateLink,
    base_address: &AnyLinkableHash,
    target_address: &AnyLinkableHash,
    tag: &LinkTag,
    store: &RecordStore,
) -> (r: ValidateCallbackResult)
    ensures
        r == link_between(
            store@,
            *base_address,
            *target_address,
            UnitEntryTypes::Happ,
            UnitEntryTypes::HappRelease,
        ),
        r == create_link_rule(
            store@,
            LinkTypes::HappToHappReleases,
            *base_address,
            *target_address,
        ),
{
    validate_link_between(
        store,
        base_address,
        target_address,
        UnitEntryTypes::Happ,
        UnitEntryTypes::HappRelease,
    )
}

/// A link from a hApp to one of its releases is permanent.
pub fn validate_delete_link_happ_to_happ_releases(
    action: &DeleteLink,
    original_action: &CreateLink,
    base: &AnyLinkableHash,
    target: &AnyLinkableHash,
    tag: &LinkTag,
) -> (r: ValidateCallbackResult)
    ensures
        r == delete_link_rule(LinkTypes::HappToHappReleases),
        r == ValidateCallbackResult::Invalid(
            Rejection::ImmutableLink(LinkTypes::HappToHappReleases),
        ),
{
    ValidateCallbackResult::Invalid(Rejection::ImmutableLink(LinkTypes::HappToHappReleases))
}

/// A link from a release to one of its revisions: both ends must lead to
/// releases.
pub fn validate_create_link_happ_release_updates(
    action: &CreateLink,
    base_address: &AnyLinkableHash,
    target_address: &AnyLinkableHash,
    tag: &LinkTag,
    store: &RecordStore,
) -> (r: ValidateCallbackResult)
    ensures
        r == link_between(
            store@,
            *base_address,
            *target_address,
            UnitEntryTypes::HappRelease,
            UnitEntryTypes::HappRelease,
        ),
        r == create_link_rule(
            store@,
            LinkTypes::HappReleaseUpdates,
            *base_address,
            *target_address,
        ),
{
    validate_link_between(
        store,
        base_address,
        target_address,
        UnitEntryTypes::HappRelease,
        UnitEntryTypes::HappRelease,
    )
}

/// A link to a revision is permanent.
pub fn validate_delete_link_happ_release_updates(
    action: &DeleteLink,
    original_action: &CreateLink,
    base: &AnyLinkableHash,
    target: &AnyLinkableHash,
    tag: &LinkTag,
) -> (r: ValidateCallbackResult)
    ensures
        r == delete_link_rule(LinkTypes::HappReleaseUpdates),
        r == ValidateCallbackResult::Invalid(
            Rejection::ImmutableLink(LinkTypes::HappReleaseUpdates),
        ),
{
    ValidateCallbackResult::Invalid(Rejection::ImmutableLink(LinkTypes::HappReleaseUpdates))
}

/// What an update of a release is made from: the action that first wrote
/// the release, the revision that is replaced, and the new content.
#[derive(Clone, Debug, PartialEq, Eq)]
pub struct UpdateHappReleaseInput {
    pub original_happ_release_hash: ActionHash,
    pub previous_happ_release_hash: ActionHash,
    pub updated_happ_release: HappRelease,
}

/// The link that the creation of a release adds: from the hApp that the
/// release names to the release.
pub fn create_happ_release(happ_release: &HappRelease, happ_release_hash: ActionHash) -> (r:
    CreateLinkInput)
    ensures
        r.base_address == AnyLinkableHash::Action(happ_release.happ_hash),
        r.target_address == AnyLinkableHash::Action(happ_release_hash),
        r.link_type == LinkTypes::HappToHappReleases,
        r.tag.bytes@ == Seq::<u8>::empty(),
{
    CreateLinkInput::untagged(
        AnyLinkableHash::from_action_hash(happ_release.happ_hash),
        AnyLinkableHash::from_action_hash(happ_release_hash),
        LinkTypes::HappToHappReleases,
    )
}

/// The record of a release that was just created, as the store gave it back.
pub fn created_happ_release<R>(found: Option<R>) -> (r: Result<R, HappError>)
    ensures
        r == (match found {
            Some(record) => Ok(record),
            None => Err(HappError::CreatedNotFound(UnitEntryTypes::HappRelease)),
        }),
{
    found_or(found, HappError::CreatedNotFound(UnitEntryTypes::HappRelease))
}

/// The hash under which the latest revision of a release is found, given the
/// links that the index lists for the original.
pub fn get_latest_happ_release(original_happ_release_hash: ActionHash, links: &Vec<Link>) -> (r:
    Result<ActionHash, HappError>)
    ensures
        r == latest_revision_of(original_happ_release_hash, links@, UnitEntryTypes::HappRelease),
{
    latest_revision(original_happ_release_hash, links, UnitEntryTypes::HappRelease)
}

/// The record of a release as it was first written, from the details of its
/// original action.
pub fn get_original_happ_release<R, A>(details: Option<Details<R, A>>) -> (r: Result<
    Option<R>,
    HappError,
>)
    ensures
        r == (match details {
            None => Ok(None),
            Some(Details::Record(record_details)) => Ok(Some(record_details.record)),
            Some(Details::Entry) => Err(HappError::MalformedGetDetailsResponse),
        }),
{
    original_record(details)
}

/// The hashes under which the revisions of a release are found, given the
/// links that the index lists for the original.
pub fn get_revision_hashes_for_happ_release(
    original_happ_release_hash: ActionHash,
    links: &Vec<Link>,
) -> (r: Result<Vec<ActionHash>, HappError>)
    ensures
        match r {
            Ok(hashes) => revisions_of(
                original_happ_release_hash,
                links@,
                UnitEntryTypes::HappRelease,
            ) == Ok::<Seq<ActionHash>, HappError>(hashes@),
            Err(error) => revisions_of(
                original_happ_release_hash,
                links@,
                UnitEntryTypes::HappRelease,
            ) == Err::<Seq<ActionHash>, HappError>(error),
        },
{
    revision_hashes(original_happ_release_hash, links, UnitEntryTypes::HappRelease)
}

/// All the revisions of a release: the original first, then the revisions
/// that were found. Empty where the original is not found.
pub fn get_all_revisions_for_happ_release<R>(original: Option<R>, revisions: Vec<Option<R>>) -> (r:
    Vec<R>)
    ensures
        r@ == (match original {
            Some(first) => seq![first] + present(revisions@),
            None => Seq::empty(),
        }),
{
    all_revisions(original, revisions)
}

/// The link that an update of a release adds: from the original to the new
/// revision.
pub fn update_happ_release(
    input: &UpdateHappReleaseInput,
    updated_happ_release_hash: ActionHash,
) -> (r: CreateLinkInput)
    ensures
        r.base_address == AnyLinkableHash::Action(input.original_happ_release_hash),
        r.target_address == AnyLinkableHash::Action(updated_happ_release_hash),
        r.link_type == LinkTypes::HappReleaseUpdates,
        r.tag.bytes@ == Seq::<u8>::empty(),
{
    update_link(
        input.original_happ_release_hash,
        updated_happ_release_hash,
        UnitEntryTypes::HappRelease,
    )
}

/// The record of a release that was just updated, as the store gave it back.
pub fn updated_happ_release<R>(found: Option<R>) -> (r: Result<R, HappError>)
    ensures
        r == (match found {
            Some(record) => Ok(record),
            None => Err(HappError::UpdatedNotFound(UnitEntryTypes::HappRelease)),
        }),
{
    found_or(found, HappError::UpdatedNotFound(UnitEntryTypes::HappRelease))
}

/// The question that lists the releases of a hApp.
pub fn get_happ_releases_for_happ(happ_hash: ActionHash) -> (r: GetLinksInput)
    ensures
        r.base_address == AnyLinkableHash::Action(happ_hash),
        r.link_type == LinkTypes::HappToHappReleases,
{
    GetLinksInput {
        base_address: AnyLinkableHash::from_action_hash(happ_hash),
        link_type: LinkTypes::HappToHappReleases,
    }
}

} // verus!
