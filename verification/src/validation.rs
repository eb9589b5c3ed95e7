//! Validation: the one decision on whether a proposed operation is admitted.
//!
//! Validation keeps no state. Its verdict is a function of the operation and
//! of what the operation's hashes resolve to, so every node that validates
//! the same operation against the same records reaches the same verdict.

use vstd::prelude::*;
use crate::action::Action;
use crate::action::Create;
use crate::action::CreateLink;
use crate::action::Delete;
use crate::action::DeleteLink;
use crate::action::EntryCreationAction;
use crate::action::EntryType;
use crate::action::LinkTag;
use crate::action::MembraneProof;
use crate::action::Update;
use crate::happ::validate_create_happ;
use crate::happ::validate_create_link_all_happs;
use crate::happ::validate_create_link_happ_updates;
use crate::happ::validate_create_link_publisher_happs;
use crate::happ::validate_delete_happ;
use crate::happ::validate_delete_link_all_happs;
use crate::happ::validate_delete_link_happ_updates;
use crate::happ::validate_delete_link_publisher_happs;
use crate::happ::validate_update_happ;
use crate::happ_release::validate_create_happ_release;
use crate::happ_release::validate_create_link_happ_release_updates;
use crate::happ_release::validate_create_link_happ_to_happ_releases;
use crate::happ_release::validate_delete_happ_release;
use crate::happ_release::validate_delete_link_happ_release_updates;
use crate::happ_release::validate_delete_link_happ_to_happ_releases;
use crate::happ_release::validate_update_happ_release;
use crate::happ_unpublished::validate_create_link_happ_unpublished;
use crate::happ_unpublished::validate_delete_link_happ_unpublished;
use crate::happ_version::validate_create_happ_version;
use crate::happ_version::validate_create_link_happ_to_happ_versions;
use crate::happ_version::validate_create_link_happ_version_updates;
use crate::happ_version::validate_delete_happ_version;
use crate::happ_version::validate_delete_link_happ_to_happ_versions;
use crate::happ_version::validate_delete_link_happ_version_updates;
use crate::happ_version::validate_update_happ_version;
use crate::hash::ActionHash;
use crate::hash::AgentPubKey;
use crate::hash::AnyLinkableHash;
use crate::op::Op;
use crate::op::OpActivity;
use crate::op::OpDelete;
use crate::op::OpEntry;
use crate::op::OpRecord;
use crate::op::OpUpdate;
use crate::record::Record;
use crate::record::RecordEntry;
use crate::rules::create_link_rule;
use crate::rules::create_rule;
use crate::rules::delete_entry_rule;
use crate::rules::delete_link_record_rule;
use crate::rules::delete_link_rule;
use crate::rules::join_rule;
use crate::rules::update_rule;
use crate::schema::EntryTypes;
use crate::schema::LinkTypes;
use crate::store::RecordStore;
use crate::verdict::Expected;
use crate::verdict::Rejection;
use crate::verdict::ValidateCallbackResult;

verus! {

/// The verdict on an operation, given what its hashes resolve to.
///
/// Every shape of operation is judged by the rule of what it carries, and
/// one write is judged by one rule in whatever shape it arrives. The shapes
/// that carry no entry or link of the schema are admitted.
pub open spec fn verdict(op: Op, records: Map<ActionHash, Record>) -> ValidateCallbackResult {
    match op {
        Op::StoreEntry(OpEntry::CreateEntry { app_entry, .. }) => create_rule(records, app_entry),
        Op::StoreEntry(OpEntry::UpdateEntry { app_entry, action }) => update_rule(
            records,
            action.original_action_address,
            app_entry,
        ),
        Op::StoreEntry(OpEntry::Other) => ValidateCallbackResult::Valid,
        Op::RegisterUpdate(OpUpdate::Entry { app_entry, action }) => update_rule(
            records,
            action.original_action_address,
            app_entry,
        ),
        Op::RegisterUpdate(OpUpdate::Other) => ValidateCallbackResult::Valid,
        Op::RegisterDelete(OpDelete { action }) => delete_entry_rule(
            records,
            action.deletes_address,
        ),
        Op::RegisterCreateLink { link_type, base_address, target_address, .. } => create_link_rule(
            records,
            link_type,
            base_address,
            target_address,
        ),
        Op::RegisterDeleteLink { link_type, .. } => delete_link_rule(link_type),
        Op::StoreRecord(OpRecord::CreateEntry { app_entry, .. }) => create_rule(records, app_entry),
        Op::StoreRecord(OpRecord::UpdateEntry { app_entry, action }) => update_rule(
            records,
            action.original_action_address,
            app_entry,
        ),
        Op::StoreRecord(OpRecord::DeleteEntry { action }) => delete_entry_rule(
            records,
            action.deletes_address,
        ),
        Op::StoreRecord(
            OpRecord::CreateLink { link_type, base_address, target_address, .. },
        ) => create_link_rule(records, link_type, base_address, target_address),
        Op::StoreRecord(OpRecord::DeleteLink { action, .. }) => delete_link_record_rule(
            records,
            action.link_add_address,
        ),
        Op::StoreRecord(OpRecord::Other) => ValidateCallbackResult::Valid,
        Op::RegisterAgentActivity(OpActivity::CreateAgent { action, .. }) => join_rule(
            records,
            action.prev_action,
        ),
        Op::RegisterAgentActivity(OpActivity::Other) => ValidateCallbackResult::Valid,
    }
}

/// What an agent holds of itself before it joins.
#[derive(Clone, Debug, PartialEq, Eq)]
pub struct GenesisSelfCheckData {
    pub membrane_proof: Option<MembraneProof>,
    pub agent_key: AgentPubKey,
}

/// The check an agent runs on itself before it joins. Nothing is asked.
pub fn genesis_self_check(data: &GenesisSelfCheckData) -> (r: ValidateCallbackResult)
    ensures
        r is Valid,
{
    ValidateCallbackResult::Valid
}

/// The check the network runs on an agent that joins. Every agent whose key
/// follows its membrane proof is let in, whatever the proof holds.
pub fn validate_agent_joining(
    agent_pub_key: &AgentPubKey,
    membrane_proof: &Option<MembraneProof>,
) -> (r: ValidateCallbackResult)
    ensures
        r is Valid,
{
    ValidateCallbackResult::Valid
}

/// Judges the writing of an entry by the check of its type.
pub fn validate_create_entry(
    action: &EntryCreationAction,
    app_entry: &EntryTypes,
    store: &RecordStore,
) -> (r: ValidateCallbackResult)
    ensures
        r == create_rule(store@, *app_entry),
{
    match app_entry {
        EntryTypes::Happ(happ) => validate_create_happ(action, happ, store),
        EntryTypes::HappVersion(happ_version) => validate_create_happ_version(
            action,
            happ_version,
            store,
        ),
        EntryTypes::HappRelease(happ_release) => validate_create_happ_release(
            action,
            happ_release,
            store,
        ),
    }
}

/// Compares the entry that an update writes with the record it revises, and
/// hands both to the check of their type.
fn validate_update_against(
    action: &Update,
    app_entry: &EntryTypes,
    original_action: &EntryCreationAction,
    original_record: &Record,
) -> (r: ValidateCallbackResult)
    ensures
        r == if original_record.holds(app_entry.unit()) {
            ValidateCallbackResult::Valid
        } else {
            ValidateCallbackResult::Invalid(
                Rejection::TypeMismatch(
                    action.original_action_address,
                    Expected::Entry(app_entry.unit()),
                ),
            )
        },
{
    let mismatch = ValidateCallbackResult::Invalid(
        Rejection::TypeMismatch(action.original_action_address, Expected::Entry(app_entry.to_unit())),
    );
    match app_entry {
        EntryTypes::Happ(happ) => match original_record.to_app_option() {
            Some(EntryTypes::Happ(original_happ)) => validate_update_happ(
                action,
                happ,
                original_action,
                original_happ,
            ),
            _ => mismatch,
        },
        EntryTypes::HappVersion(happ_version) => match original_record.to_app_option() {
            Some(EntryTypes::HappVersion(original_happ_version)) => validate_update_happ_version(
                action,
                happ_version,
                original_action,
                original_happ_version,
            ),
            _ => mismatch,
        },
        EntryTypes::HappRelease(happ_release) => match original_record.to_app_option() {
            Some(EntryTypes::HappRelease(original_happ_release)) => validate_update_happ_release(
                action,
                happ_release,
                original_action,
                original_happ_release,
            ),
            _ => mismatch,
        },
    }
}

/// Judges the update of an entry: the new entry is judged as any entry that
/// is written, and then against the record it revises.
pub fn validate_update_entry(action: &Update, app_entry: &EntryTypes, store: &RecordStore) -> (r:
    ValidateCallbackResult)
    ensures
        r == update_rule(store@, action.original_action_address, *app_entry),
{
    let original = &action.original_action_address;
    let original_record = match store.resolve(original) {
        Some(record) => record,
        None => {
            return ValidateCallbackResult::Invalid(Rejection::MissingDependency(*original));
        },
    };
    let original_action = match EntryCreationAction::try_from_action(&original_record.action) {
        Some(action) => action,
        None => {
            return ValidateCallbackResult::Invalid(
                Rejection::TypeMismatch(*original, Expected::EntryCreation),
            );
        },
    };
    let result = validate_create_entry(&EntryCreationAction::Update(*action), app_entry, store);
    if result.is_valid() {
        validate_update_against(action, app_entry, &original_action, original_record)
    } else {
        result
    }
}

/// Judges the deletion of what a delete names.
pub fn validate_delete_entry(action: &Delete, store: &RecordStore) -> (r: ValidateCallbackResult)
    ensures
        r == delete_entry_rule(store@, action.deletes_address),
{
    let deletes = &action.deletes_address;
    let original_record = match store.resolve(deletes) {
        Some(record) => record,
        None => {
            return ValidateCallbackResult::Invalid(Rejection::MissingDependency(*deletes));
        },
    };
    let original_action = match EntryCreationAction::try_from_action(&original_record.action) {
        Some(action) => action,
        None => {
            return ValidateCallbackResult::Invalid(
                Rejection::TypeMismatch(*deletes, Expected::EntryCreation),
            );
        },
    };
    match original_record.to_app_option() {
        Some(EntryTypes::Happ(original_happ)) => validate_delete_happ(
            action,
            &original_action,
            original_happ,
        ),
        Some(EntryTypes::HappVersion(original_happ_version)) => validate_delete_happ_version(
            action,
            &original_action,
            original_happ_version,
        ),
        Some(EntryTypes::HappRelease(original_happ_release)) => validate_delete_happ_release(
            action,
            &original_action,
            original_happ_release,
        ),
        None => {
            match original_action.entry_type() {
                EntryType::App => match &original_record.entry {
                    RecordEntry::Present(_) => ValidateCallbackResult::Invalid(
                        Rejection::TypeMismatch(*deletes, Expected::SchemaEntry),
                    ),
                    _ => ValidateCallbackResult::Invalid(
                        Rejection::TypeMismatch(*deletes, Expected::StoredEntry),
                    ),
                },
                _ => ValidateCallbackResult::Valid,
            }
        },
    }
}

/// Judges the creation of a link by the check of its type.
pub fn validate_create_link(
    link_type: LinkTypes,
    action: &CreateLink,
    base_address: &AnyLinkableHash,
    target_address: &AnyLinkableHash,
    tag: &LinkTag,
    store: &RecordStore,
) -> (r: ValidateCallbackResult)
    ensures
        r == create_link_rule(store@, link_type, *base_address, *target_address),
{
    match link_type {
        LinkTypes::HappUpdates => validate_create_link_happ_updates(
            action,
            base_address,
            target_address,
            tag,
            store,
        ),
        LinkTypes::HappToHappVersions => validate_create_link_happ_to_happ_versions(
            action,
            base_address,
            target_address,
            tag,
            store,
        ),
        LinkTypes::HappVersionUpdates => validate_create_link_happ_version_updates(
            action,
            base_address,
            target_address,
            tag,
            store,
        ),
        LinkTypes::HappToHappReleases => validate_create_link_happ_to_happ_releases(
            action,
            base_address,
            target_address,
            tag,
            store,
        ),
        LinkTypes::HappReleaseUpdates => validate_create_link_happ_release_updates(
            action,
            base_address,
            target_address,
            tag,
            store,
        ),
        LinkTypes::AllHapps => validate_create_link_all_happs(
            action,
            base_address,
            target_address,
            tag,
            store,
        ),
        LinkTypes::PublisherHapps => validate_create_link_publisher_happs(
            action,
            base_address,
            target_address,
            tag,
            store,
        ),
        LinkTypes::HappUnpublished => validate_create_link_happ_unpublished(
            action,
            base_address,
            target_address,
            tag,
            store,
        ),
    }
}

/// Judges the deletion of a link by the check of its type.
pub fn validate_delete_link(
    link_type: LinkTypes,
    action: &DeleteLink,
    original_action: &CreateLink,
    base_address: &AnyLinkableHash,
    target_address: &AnyLinkableHash,
    tag: &LinkTag,
) -> (r: ValidateCallbackResult)
    ensures
        r == delete_link_rule(link_type),
{
    match link_type {
        LinkTypes::HappUpdates => validate_delete_link_happ_updates(
            action,
            original_action,
            base_address,
            target_address,
            tag,
        ),
        LinkTypes::HappToHappVersions => validate_delete_link_happ_to_happ_versions(
            action,
            original_action,
            base_address,
            target_address,
            tag,
        ),
        LinkTypes::HappVersionUpdates => validate_delete_link_happ_version_updates(
            action,
            original_action,
            base_address,
            target_address,
            tag,
        ),
        LinkTypes::HappToHappReleases => validate_delete_link_happ_to_happ_releases(
            action,
            original_action,
            base_address,
            target_address,
            tag,
        ),
        LinkTypes::HappReleaseUpdates => validate_delete_link_happ_release_updates(
            action,
            original_action,
            base_address,
            target_address,
            tag,
        ),
        LinkTypes::AllHapps => validate_delete_link_all_happs(
            action,
            original_action,
            base_address,
            target_address,
            tag,
        ),
        LinkTypes::PublisherHapps => validate_delete_link_publisher_happs(
            action,
            original_action,
            base_address,
            target_address,
            tag,
        ),
        LinkTypes::HappUnpublished => validate_delete_link_happ_unpublished(
            action,
            original_action,
            base_address,
            target_address,
            tag,
        ),
    }
}

/// Judges a stored record that deletes a link: the link is found through the
/// action that created it.
pub fn validate_delete_link_record(
    action: &DeleteLink,
    base_address: &AnyLinkableHash,
    store: &RecordStore,
) -> (r: ValidateCallbackResult)
    ensures
        r == delete_link_record_rule(store@, action.link_add_address),
{
    let original = &action.link_add_address;
    let record = match store.resolve(original) {
        Some(record) => record,
        None => {
            return ValidateCallbackResult::Invalid(Rejection::MissingDependency(*original));
        },
    };
    let create_link = match &record.action {
        Action::CreateLink(create_link) => create_link,
        _ => {
            return ValidateCallbackResult::Invalid(
                Rejection::TypeMismatch(*original, Expected::CreateLink),
            );
        },
    };
    match create_link.link_type {
        Some(link_type) => validate_delete_link(
            link_type,
            action,
            create_link,
            base_address,
            &create_link.target_address,
            &create_link.tag,
        ),
        None => ValidateCallbackResult::Valid,
    }
}

/// Judges the action by which an agent writes its key.
pub fn validate_create_agent(agent: &AgentPubKey, action: &Create, store: &RecordStore) -> (r:
    ValidateCallbackResult)
    ensures
        r == join_rule(store@, action.prev_action),
{
    match store.resolve(&action.prev_action) {
        None => ValidateCallbackResult::Invalid(Rejection::MissingDependency(action.prev_action)),
        Some(previous) => match &previous.action {
            Action::AgentValidationPkg(package) => validate_agent_joining(
                agent,
                &package.membrane_proof,
            ),
            _ => ValidateCallbackResult::Invalid(Rejection::MalformedJoinSequence),
        },
    }
}

/// Decides whether an operation is admitted.
///
/// `store` holds what the hashes that the operation depends on resolve to; a
/// hash that is not in it counts as unresolved, and an operation that depends
/// on it is rejected.
pub fn validate(op: &Op, store: &RecordStore) -> (r: ValidateCallbackResult)
    ensures
        r == verdict(*op, store@),
{
    match op {
        Op::StoreEntry(store_entry) => match store_entry {
            OpEntry::CreateEntry { app_entry, action } => validate_create_entry(
                &EntryCreationAction::Create(*action),
                app_entry,
                store,
            ),
            OpEntry::UpdateEntry { app_entry, action } => validate_update_entry(
                action,
                app_entry,
                store,
            ),
            OpEntry::Other => ValidateCallbackResult::Valid,
        },
        Op::RegisterUpdate(update_entry) => match update_entry {
            OpUpdate::Entry { app_entry, action } => validate_update_entry(
                action,
                app_entry,
                store,
            ),
            OpUpdate::Other => ValidateCallbackResult::Valid,
        },
        Op::RegisterDelete(delete_entry) => validate_delete_entry(&delete_entry.action, store),
        Op::RegisterCreateLink {
            link_type,
            base_address,
            target_address,
            tag,
            action,
        } => validate_create_link(*link_type, action, base_address, target_address, tag, store),
        Op::RegisterDeleteLink {
            link_type,
            base_address,
            target_address,
            tag,
            original_action,
            action,
        } => validate_delete_link(
            *link_type,
            action,
            original_action,
            base_address,
            target_address,
            tag,
        ),
        Op::StoreRecord(store_record) => match store_record {
            OpRecord::CreateEntry { app_entry, action } => validate_create_entry(
                &EntryCreationAction::Create(*action),
                app_entry,
                store,
            ),
            OpRecord::UpdateEntry { app_entry, action } => validate_update_entry(
                action,
                app_entry,
                store,
            ),
            OpRecord::DeleteEntry { action } => validate_delete_entry(action, store),
            OpRecord::CreateLink {
                base_address,
                target_address,
                tag,
                link_type,
                action,
            } => validate_create_link(*link_type, action, base_address, target_address, tag, store),
            OpRecord::DeleteLink { base_address, action } => validate_delete_link_record(
                action,
                base_address,
                store,
            ),
            OpRecord::Other => ValidateCallbackResult::Valid,
        },
        Op::RegisterAgentActivity(agent_activity) => match agent_activity {
            OpActivity::CreateAgent { agent, action } => validate_create_agent(agent, action, store),
            OpActivity::Other => ValidateCallbackResult::Valid,
        },
    }
}

} // verus!
