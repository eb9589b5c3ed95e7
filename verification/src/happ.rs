//! hApps: the applications of the catalogue.

use vstd::prelude::*;
use crate::action::CreateLink;
use crate::action::Delete;
use crate::action::DeleteLink;
use crate::action::EntryCreationAction;
use crate::action::LinkTag;
use crate::action::Timestamp;
use crate::action::Update;
use crate::details::all_deletes;
use crate::details::Details;
use crate::details::found_or;
use crate::details::is_oldest;
use crate::details::oldest_delete;
use crate::details::original_record;
use crate::error::HappError;
use crate::hash::ActionHash;
use crate::hash::AnyLinkableHash;
use crate::hash::EntryHash;
use crate::link::CreateLinkInput;
use crate::link::Link;
use crate::rules::create_link_rule;
use crate::rules::create_rule;
use crate::rules::delete_link_rule;
use crate::rules::delete_rule;
use crate::rules::link_between;
use crate::rules::validate_link_between;
use crate::schema::EntryTypes;
use crate::schema::LinkTypes;
use crate::schema::UnitEntryTypes;
use crate::store::RecordStore;
use crate::verdict::Rejection;
use crate::verdict::ValidateCallbackResult;
use crate::versioning::all_revisions;
use crate::versioning::latest_revision;
use crate::versioning::latest_revision_of;
use crate::versioning::present;
use crate::versioning::revision_hashes;
use crate::versioning::revisions_of;
use crate::versioning::update_link;

verus! {

/// An application published in the catalogue.
#[derive(Clone, Debug, PartialEq, Eq)]
pub struct Happ {
    pub name: String,
    pub description: String,
    pub icon: EntryHash,
}

/// A hApp depends on nothing: writing one is always admitted.
pub fn validate_create_happ(action: &EntryCreationAction, happ: &Happ, store: &RecordStore) -> (r:
    ValidateCallbackResult)
    ensures
        r == create_rule(store@, EntryTypes::Happ(*happ)),
        r is Valid,
{
    ValidateCallbackResult::Valid
}

/// Nothing is asked of a hApp beyond what is asked of every update.
pub fn validate_update_happ(
    action: &Update,
    happ: &Happ,
    original_action: &EntryCreationAction,
    original_happ: &Happ,
) -> (r: ValidateCallbackResult)
    ensures
        r is Valid,
{
    ValidateCallbackResult::Valid
}

/// A hApp may be deleted.
pub fn validate_delete_happ(
    action: &Delete,
    original_action: &EntryCreationAction,
    original_happ: &Happ,
) -> (r: ValidateCallbackResult)
    ensures
        r == delete_rule(UnitEntryTypes::Happ),
        r is Valid,
{
    ValidateCallbackResult::Valid
}

/// A link from a hApp to one of its revisions: both ends must lead to hApps.
pub fn validate_create_link_happ_updates(
    action: &CreateLink,
    base_address: &AnyLinkableHash,
    target_address: &AnyLinkableHash,
    tag: &LinkTag,
    store: &RecordStore,
) -> (r: ValidateCallbackResult)
    ensures
        r == link_between(
            store@,
            *base_address,
            *target_address,
            UnitEntryTypes::Happ,
            UnitEntryTypes::Happ,
        ),
        r == create_link_rule(store@, LinkTypes::HappUpdates, *base_address, *target_address),
{
    validate_link_between(
        store,
        base_address,
        target_address,
        UnitEntryTypes::Happ,
        UnitEntryTypes::Happ,
    )
}

/// A link to a revision is permanent.
pub fn validate_delete_link_happ_updates(
    action: &DeleteLink,
    original_action: &CreateLink,
    base: &AnyLinkableHash,
    target: &AnyLinkableHash,
    tag: &LinkTag,
) -> (r: ValidateCallbackResult)
    ensures
        r == delete_link_rule(LinkTypes::HappUpdates),
        r == ValidateCallbackResult::Invalid(Rejection::ImmutableLink(LinkTypes::HappUpdates)),
{
    ValidateCallbackResult::Invalid(Rejection::ImmutableLink(LinkTypes::HappUpdates))
}

/// A link from the catalogue's anchor to a hApp is admitted as it is.
pub fn validate_create_link_all_happs(
    action: &CreateLink,
    base_address: &AnyLinkableHash,
    target_address: &AnyLinkableHash,
    tag: &LinkTag,
    store: &RecordStore,
) -> (r: ValidateCallbackResult)
    ensures
        r == create_link_rule(store@, LinkTypes::AllHapps, *base_address, *target_address),
        r is Valid,
{
    ValidateCallbackResult::Valid
}

/// A link of the catalogue is permanent.
pub fn validate_delete_link_all_happs(
    action: &DeleteLink,
    original_action: &CreateLink,
    base: &AnyLinkableHash,
    target: &AnyLinkableHash,
    tag: &LinkTag,
) -> (r: ValidateCallbackResult)
    ensures
        r == delete_link_rule(LinkTypes::AllHapps),
        r == ValidateCallbackResult::Invalid(Rejection::ImmutableLink(LinkTypes::AllHapps)),
{
    ValidateCallbackResult::Invalid(Rejection::ImmutableLink(LinkTypes::AllHapps))
}

/// A link from a publisher to one of their hApps is admitted as it is.
pub fn validate_create_link_publisher_happs(
    action: &CreateLink,
    base_address: &AnyLinkableHash,
    target_address: &AnyLinkableHash,
    tag: &LinkTag,
    store: &RecordStore,
) -> (r: ValidateCallbackResult)
    ensures
        r == create_link_rule(store@, LinkTypes::PublisherHapps, *base_address, *target_address),
        r is Valid,
{
    ValidateCallbackResult::Valid
}

/// A link from a publisher to one of their hApps is permanent.
pub fn validate_delete_link_publisher_happs(
    action: &DeleteLink,
    original_action: &CreateLink,
    base: &AnyLinkableHash,
    target: &AnyLinkableHash,
    tag: &LinkTag,
) -> (r: ValidateCallbackResult)
    ensures
        r == delete_link_rule(LinkTypes::PublisherHapps),
        r == ValidateCallbackResult::Invalid(Rejection::ImmutableLink(LinkTypes::PublisherHapps)),
{
    ValidateCallbackResult::Invalid(Rejection::ImmutableLink(LinkTypes::PublisherHapps))
}

/// What an update of a hApp is made from: the action that first wrote the
/// hApp, the revision that is replaced, and the new content.
#[derive(Clone, Debug, PartialEq, Eq)]
pub struct UpdateHappInput {
    pub original_happ_hash: ActionHash,
    pub previous_happ_hash: ActionHash,
    pub updated_happ: Happ,
}

/// The record of a hApp that was just created, as the store gave it back.
pub fn create_happ<R>(found: Option<R>) -> (r: Result<R, HappError>)
    ensures
        r == (match found {
            Some(record) => Ok(record),
            None => Err(HappError::CreatedNotFound(UnitEntryTypes::Happ)),
        }),
{
    found_or(found, HappError::CreatedNotFound(UnitEntryTypes::Happ))
}

/// The hash under which the latest revision of a hApp is found, given the
/// links that the index lists for the original.
pub fn get_latest_happ(original_happ_hash: ActionHash, links: &Vec<Link>) -> (r: Result<
    ActionHash,
    HappError,
>)
    ensures
        r == latest_revision_of(original_happ_hash, links@, UnitEntryTypes::Happ),
{
    latest_revision(original_happ_hash, links, UnitEntryTypes::Happ)
}

/// The record of a hApp as it was first written, from the details of its
/// original action.
pub fn get_original_happ<R, A>(details: Option<Details<R, A>>) -> (r: Result<Option<R>, HappError>)
    ensures
        r == (match details {
            None => Ok(None),
            Some(Details::Record(record_details)) => Ok(Some(record_details.record)),
            Some(Details::Entry) => Err(HappError::MalformedGetDetailsResponse),
        }),
{
    original_record(details)
}

/// The hashes under which the revisions of a hApp are found, given the links
/// that the index lists for the original.
pub fn get_revision_hashes_for_happ(original_happ_hash: ActionHash, links: &Vec<Link>) -> (r:
    Result<Vec<ActionHash>, HappError>)
    ensures
        match r {
            Ok(hashes) => revisions_of(original_happ_hash, links@, UnitEntryTypes::Happ) == Ok::<
                Seq<ActionHash>,
                HappError,
            >(hashes@),
            Err(error) => revisions_of(original_happ_hash, links@, UnitEntryTypes::Happ) == Err::<
                Seq<ActionHash>,
                HappError,
            >(error),
        },
{
    revision_hashes(original_happ_hash, links, UnitEntryTypes::Happ)
}

/// All the revisions of a hApp: the original first, then the revisions that
/// were found. Empty where the original is not found.
pub fn get_all_revisions_for_happ<R>(original: Option<R>, revisions: Vec<Option<R>>) -> (r: Vec<R>)
    ensures
        r@ == (match original {
            Some(first) => seq![first] + present(revisions@),
            None => Seq::empty(),
        }),
{
    all_revisions(original, revisions)
}

/// The link that an update of a hApp adds: from the original to the new
/// revision.
pub fn update_happ(input: &UpdateHappInput, updated_happ_hash: ActionHash) -> (r: CreateLinkInput)
    ensures
        r.base_address == AnyLinkableHash::Action(input.original_happ_hash),
        r.target_address == AnyLinkableHash::Action(updated_happ_hash),
        r.link_type == LinkTypes::HappUpdates,
        r.tag.bytes@ == Seq::<u8>::empty(),
{
    update_link(input.original_happ_hash, updated_happ_hash, UnitEntryTypes::Happ)
}

/// The record of a hApp that was just updated, as the store gave it back.
pub fn updated_happ<R>(found: Option<R>) -> (r: Result<R, HappError>)
    ensures
        r == (match found {
            Some(record) => Ok(record),
            None => Err(HappError::UpdatedNotFound(UnitEntryTypes::Happ)),
        }),
{
    found_or(found, HappError::UpdatedNotFound(UnitEntryTypes::Happ))
}

/// The actions that delete a hApp, from the details of its original action.
pub fn get_all_deletes_for_happ<R, A>(details: Option<Details<R, A>>) -> (r: Result<
    Option<Vec<A>>,
    HappError,
>)
    ensures
        r == (match details {
            None => Ok(None),
            Some(Details::Record(record_details)) => Ok(Some(record_details.deletes)),
            Some(Details::Entry) => Err(HappError::MalformedDetails),
        }),
{
    all_deletes(details)
}

/// The position of the oldest delete of a hApp, given the timestamps of its
/// deletes in the order in which the store lists them.
pub fn get_oldest_delete_for_happ(timestamps: &Vec<Timestamp>) -> (r: Option<usize>)
    ensures
        match r {
            Some(i) => is_oldest(timestamps@, i as int),
            None => timestamps@.len() == 0,
        },
{
    oldest_delete(timestamps)
}

} // verus!
