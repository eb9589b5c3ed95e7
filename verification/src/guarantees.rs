//! What validation guarantees, whatever the operation and whatever the
//! records it is validated against.

use vstd::prelude::*;
use crate::action::Action;
use crate::action::EntryType;
use crate::hash::ActionHash;
use crate::hash::AnyLinkableHash;
use crate::op::Op;
use crate::op::OpDelete;
use crate::op::OpEntry;
use crate::op::OpRecord;
use crate::op::OpUpdate;
use crate::record::Record;
use crate::rules::is_entry_creation;
use crate::schema::EntryTypes;
use crate::schema::LinkTypes;
use crate::schema::UnitEntryTypes;
use crate::store::resolve_in;
use crate::validation::verdict;
use crate::verdict::Rejection;
use crate::verdict::ValidateCallbackResult;

verus! {

/// The entry that an operation writes, where it writes one of the schema.
pub open spec fn written_entry(op: Op) -> Option<EntryTypes> {
    match op {
        Op::StoreEntry(OpEntry::CreateEntry { app_entry, .. }) => Some(app_entry),
        Op::StoreEntry(OpEntry::UpdateEntry { app_entry, .. }) => Some(app_entry),
        Op::StoreRecord(OpRecord::CreateEntry { app_entry, .. }) => Some(app_entry),
        Op::StoreRecord(OpRecord::UpdateEntry { app_entry, .. }) => Some(app_entry),
        Op::RegisterUpdate(OpUpdate::Entry { app_entry, .. }) => Some(app_entry),
        _ => None,
    }
}

/// The hash of what an operation deletes, where it deletes an entry.
pub open spec fn deleted_address(op: Op) -> Option<ActionHash> {
    match op {
        Op::RegisterDelete(OpDelete { action }) => Some(action.deletes_address),
        Op::StoreRecord(OpRecord::DeleteEntry { action }) => Some(action.deletes_address),
        _ => None,
    }
}

/// The type of the link that an operation deletes, where it deletes a link of
/// the schema. A stored record names the link by the action that created it,
/// which has to resolve for the type to be known.
pub open spec fn deleted_link_type(op: Op, records: Map<ActionHash, Record>) -> Option<LinkTypes> {
    match op {
        Op::RegisterDeleteLink { link_type, .. } => Some(link_type),
        Op::StoreRecord(OpRecord::DeleteLink { action, .. }) => match resolve_in(
            records,
            action.link_add_address,
        ) {
            Some(record) => match record.action {
                Action::CreateLink(create_link) => create_link.link_type,
                _ => None,
            },
            None => None,
        },
        _ => None,
    }
}

/// No version and no release is written without its hApp: an operation that
/// writes one whose `happ_hash` does not resolve to a record that holds a
/// hApp is rejected.
pub proof fn dependency_integrity(op: Op, records: Map<ActionHash, Record>)
    requires
        written_entry(op) matches Some(entry) && entry.dependency() matches Some(happ_hash) && !(
        resolve_in(records, happ_hash) matches Some(record) && record.holds(UnitEntryTypes::Happ)),
    ensures
        verdict(op, records) is Invalid,
{
}

/// A version or a release whose `happ_hash` resolves to a hApp is admitted
/// when it is created.
pub proof fn creation_with_dependency(op: Op, records: Map<ActionHash, Record>)
    requires
        op matches Op::StoreEntry(OpEntry::CreateEntry { .. }) || op matches Op::StoreRecord(
            OpRecord::CreateEntry { .. },
        ),
        written_entry(op) matches Some(entry) && (match entry.dependency() {
            Some(happ_hash) => resolve_in(records, happ_hash) matches Some(record) && record.holds(
                UnitEntryTypes::Happ,
            ),
            None => true,
        }),
    ensures
        verdict(op, records) is Valid,
{
}

/// Versions and releases are never deleted: an operation that deletes a
/// record that holds one is rejected, whatever the record holds besides.
/// Where the record was written by a create or an update, the rejection names
/// the type.
pub proof fn delete_immutability(op: Op, records: Map<ActionHash, Record>)
    requires
        deleted_address(op) matches Some(hash) && resolve_in(records, hash) matches Some(record) && (
        record.holds(UnitEntryTypes::HappVersion) || record.holds(UnitEntryTypes::HappRelease)),
    ensures
        verdict(op, records) is Invalid,
        ({
            let record = resolve_in(records, deleted_address(op).unwrap()).unwrap();
            is_entry_creation(record.action) ==> verdict(op, records)
                == ValidateCallbackResult::Invalid(
                Rejection::ImmutableEntry(record.app_entry().unwrap().unit()),
            )
        }),
{
}

/// A hApp may be deleted: an operation that deletes a record that holds one,
/// written by a create or an update, is admitted.
pub proof fn happ_may_be_deleted(op: Op, records: Map<ActionHash, Record>)
    requires
        deleted_address(op) matches Some(hash) && resolve_in(records, hash) matches Some(record)
            && record.holds(UnitEntryTypes::Happ) && is_entry_creation(record.action),
    ensures
        verdict(op, records) is Valid,
{
}

/// Links are permanent, but for the mark of an unpublished hApp: an
/// operation that deletes a link of any other type is rejected, and one that
/// deletes a mark is admitted.
pub proof fn link_immutability(op: Op, records: Map<ActionHash, Record>)
    requires
        deleted_link_type(op, records).is_some(),
    ensures
        ({
            let link_type = deleted_link_type(op, records).unwrap();
            if link_type == LinkTypes::HappUnpublished {
                verdict(op, records) is Valid
            } else {
                verdict(op, records) == ValidateCallbackResult::Invalid(
                    Rejection::ImmutableLink(link_type),
                )
            }
        }),
{
}

/// The entry that an operation creates, where it creates one of the schema.
pub open spec fn carried_creation(op: Op) -> Option<EntryTypes> {
    match op {
        Op::StoreEntry(OpEntry::CreateEntry { app_entry, .. }) => Some(app_entry),
        Op::StoreRecord(OpRecord::CreateEntry { app_entry, .. }) => Some(app_entry),
        _ => None,
    }
}

/// The update that an operation carries, where it carries one: the hash of
/// the record that is revised, and the new entry.
pub open spec fn carried_update(op: Op) -> Option<(ActionHash, EntryTypes)> {
    match op {
        Op::StoreEntry(OpEntry::UpdateEntry { app_entry, action }) => Some(
            (action.original_action_address, app_entry),
        ),
        Op::RegisterUpdate(OpUpdate::Entry { app_entry, action }) => Some(
            (action.original_action_address, app_entry),
        ),
        Op::StoreRecord(OpRecord::UpdateEntry { app_entry, action }) => Some(
            (action.original_action_address, app_entry),
        ),
        _ => None,
    }
}

/// The link that an operation creates, where it creates one of the schema:
/// its type, its base and its target.
pub open spec fn carried_link(op: Op) -> Option<(LinkTypes, AnyLinkableHash, AnyLinkableHash)> {
    match op {
        Op::RegisterCreateLink { link_type, base_address, target_address, .. } => Some(
            (link_type, base_address, target_address),
        ),
        Op::StoreRecord(
            OpRecord::CreateLink { link_type, base_address, target_address, .. },
        ) => Some((link_type, base_address, target_address)),
        _ => None,
    }
}

/// The shapes in which one write reaches validation agree, so that no write
/// is taken in under one shape and turned away under another: two operations
/// that create the same entry, that carry the same update, that delete the
/// same entry, that create the same link, or that delete a link of the same
/// type get the same verdict.
pub proof fn shapes_agree(first: Op, second: Op, records: Map<ActionHash, Record>)
    requires
        ({
            ||| carried_creation(first).is_some() && carried_creation(first) == carried_creation(
                second,
            )
            ||| carried_update(first).is_some() && carried_update(first) == carried_update(second)
            ||| deleted_address(first).is_some() && deleted_address(first) == deleted_address(
                second,
            )
            ||| carried_link(first).is_some() && carried_link(first) == carried_link(second)
            ||| deleted_link_type(first, records).is_some() && deleted_link_type(first, records)
                == deleted_link_type(second, records)
        }),
    ensures
        verdict(first, records) == verdict(second, records),
{
}

/// A structural link is admitted exactly where both of its ends are action
/// hashes that resolve to records holding entries of the types that the link
/// type connects.
pub proof fn link_integrity(op: Op, records: Map<ActionHash, Record>)
    requires
        carried_link(op) matches Some((link_type, _, _)) && link_type.endpoints().is_some(),
    ensures
        ({
            let (link_type, base_address, target_address) = carried_link(op).unwrap();
            let (base_type, target_type) = link_type.endpoints().unwrap();
            verdict(op, records) is Valid <==> {
                &&& base_address.action_hash() matches Some(base)
                &&& resolve_in(records, base) matches Some(record)
                &&& record.holds(base_type)
                &&& target_address.action_hash() matches Some(target)
                &&& resolve_in(records, target) matches Some(record)
                &&& record.holds(target_type)
            }
        }),
{
}

/// An update is admitted only where what it revises resolves to a record
/// that holds an entry of the type of the new entry: an entry never changes
/// its type.
pub proof fn updates_keep_the_type(op: Op, records: Map<ActionHash, Record>)
    requires
        carried_update(op).is_some(),
        verdict(op, records) is Valid,
    ensures
        ({
            let (original, entry) = carried_update(op).unwrap();
            &&& resolve_in(records, original) matches Some(record)
            &&& record.holds(entry.unit())
        }),
{
}

/// What is no application entry may be deleted: an operation that deletes a
/// record that was written by a create or an update of an agent key or a
/// capability, and that holds no entry of the schema, is admitted.
pub proof fn system_entries_may_be_deleted(op: Op, records: Map<ActionHash, Record>)
    requires
        deleted_address(op) matches Some(hash) && resolve_in(records, hash) matches Some(record)
            && is_entry_creation(record.action) && record.app_entry().is_none()
            && record.action.created_entry_type() != Some(EntryType::App),
    ensures
        verdict(op, records) is Valid,
{
}

} // verus!
