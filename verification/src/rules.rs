//! The rules of admission, stated once for every entry and link type.
//!
//! Each rule is a function of what an operation carries and of the map from
//! hash to record that the operation's hashes are resolved in. The checks of
//! the single entry and link types are instances of the rules given here.

use vstd::prelude::*;
use crate::action::Action;
use crate::action::EntryType;
use crate::hash::ActionHash;
use crate::hash::AnyLinkableHash;
use crate::record::Record;
use crate::schema::EntryTypes;
use crate::schema::LinkTypes;
use crate::schema::UnitEntryTypes;
use crate::store::RecordStore;
use crate::store::resolve_in;
use crate::verdict::Expected;
use crate::verdict::Rejection;
use crate::verdict::ValidateCallbackResult;

verus! {

/// The one way in which a rule depends on another record: the hash must
/// resolve, and the record found must hold an entry of the expected type.
pub open spec fn entry_at(
    records: Map<ActionHash, Record>,
    hash: ActionHash,
    expected: UnitEntryTypes,
) -> ValidateCallbackResult {
    match resolve_in(records, hash) {
        None => ValidateCallbackResult::Invalid(Rejection::MissingDependency(hash)),
        Some(record) => if record.holds(expected) {
            ValidateCallbackResult::Valid
        } else {
            ValidateCallbackResult::Invalid(
                Rejection::TypeMismatch(hash, Expected::Entry(expected)),
            )
        },
    }
}

/// The same for one end of a link: the address must be an action hash, and
/// that hash must lead to an entry of the expected type.
pub open spec fn entry_at_address(
    records: Map<ActionHash, Record>,
    address: AnyLinkableHash,
    expected: UnitEntryTypes,
) -> ValidateCallbackResult {
    match address.action_hash() {
        None => ValidateCallbackResult::Invalid(Rejection::MalformedReference(address)),
        Some(hash) => entry_at(records, hash, expected),
    }
}

/// Both ends of a link, the base first.
pub open spec fn link_between(
    records: Map<ActionHash, Record>,
    base_address: AnyLinkableHash,
    target_address: AnyLinkableHash,
    base_type: UnitEntryTypes,
    target_type: UnitEntryTypes,
) -> ValidateCallbackResult {
    let base = entry_at_address(records, base_address, base_type);
    if base is Valid {
        entry_at_address(records, target_address, target_type)
    } else {
        base
    }
}

/// The rule for writing an entry: a version or a release is admitted where
/// the hApp it names resolves to a hApp; a hApp is admitted as it is.
pub open spec fn create_rule(
    records: Map<ActionHash, Record>,
    entry: EntryTypes,
) -> ValidateCallbackResult {
    match entry.dependency() {
        None => ValidateCallbackResult::Valid,
        Some(happ_hash) => entry_at(records, happ_hash, UnitEntryTypes::Happ),
    }
}

/// The rule for deleting an entry of a given type.
pub open spec fn delete_rule(entry_type: UnitEntryTypes) -> ValidateCallbackResult {
    if entry_type.deletable() {
        ValidateCallbackResult::Valid
    } else {
        ValidateCallbackResult::Invalid(Rejection::ImmutableEntry(entry_type))
    }
}

/// The rule for creating a link: a structural link is admitted where both
/// ends lead to entries of the types that the link type connects; any other
/// link is admitted as it is.
pub open spec fn create_link_rule(
    records: Map<ActionHash, Record>,
    link_type: LinkTypes,
    base_address: AnyLinkableHash,
    target_address: AnyLinkableHash,
) -> ValidateCallbackResult {
    match link_type.endpoints() {
        None => ValidateCallbackResult::Valid,
        Some((base_type, target_type)) => link_between(
            records,
            base_address,
            target_address,
            base_type,
            target_type,
        ),
    }
}

/// The rule for deleting a link of a given type.
pub open spec fn delete_link_rule(link_type: LinkTypes) -> ValidateCallbackResult {
    if link_type.deletable() {
        ValidateCallbackResult::Valid
    } else {
        ValidateCallbackResult::Invalid(Rejection::ImmutableLink(link_type))
    }
}

/// Whether an action writes an entry.
pub open spec fn is_entry_creation(action: Action) -> bool {
    action is Create || action is Update
}

/// The rule for updating an entry: the record that is revised must resolve
/// and must itself have written an entry, the new entry must pass the rule
/// for writing an entry, and the record that is revised must hold an entry
/// of the same type as the new one. The checks are made in this order, and
/// the first that fails gives the verdict.
pub open spec fn update_rule(
    records: Map<ActionHash, Record>,
    original: ActionHash,
    entry: EntryTypes,
) -> ValidateCallbackResult {
    match resolve_in(records, original) {
        None => ValidateCallbackResult::Invalid(Rejection::MissingDependency(original)),
        Some(record) => if !is_entry_creation(record.action) {
            ValidateCallbackResult::Invalid(
                Rejection::TypeMismatch(original, Expected::EntryCreation),
            )
        } else if !(create_rule(records, entry) is Valid) {
            create_rule(records, entry)
        } else if !record.holds(entry.unit()) {
            ValidateCallbackResult::Invalid(
                Rejection::TypeMismatch(original, Expected::Entry(entry.unit())),
            )
        } else {
            ValidateCallbackResult::Valid
        },
    }
}

/// The rule for deleting what a hash resolves to. The record must resolve
/// and must have written an entry. An entry of the schema is judged by its
/// type. Of the rest, only what is no application entry may go.
pub open spec fn delete_entry_rule(
    records: Map<ActionHash, Record>,
    deletes: ActionHash,
) -> ValidateCallbackResult {
    match resolve_in(records, deletes) {
        None => ValidateCallbackResult::Invalid(Rejection::MissingDependency(deletes)),
        Some(record) => if !is_entry_creation(record.action) {
            ValidateCallbackResult::Invalid(
                Rejection::TypeMismatch(deletes, Expected::EntryCreation),
            )
        } else {
            match record.app_entry() {
                Some(entry) => delete_rule(entry.unit()),
                None => if record.action.created_entry_type() != Some(EntryType::App) {
                    ValidateCallbackResult::Valid
                } else if !record.has_entry() {
                    ValidateCallbackResult::Invalid(
                        Rejection::TypeMismatch(deletes, Expected::StoredEntry),
                    )
                } else {
                    ValidateCallbackResult::Invalid(
                        Rejection::TypeMismatch(deletes, Expected::SchemaEntry),
                    )
                },
            }
        },
    }
}

/// The rule for storing a record that deletes a link: the action it names
/// must resolve and must have created a link. A link of the schema is judged
/// by its type, any other link may go.
pub open spec fn delete_link_record_rule(
    records: Map<ActionHash, Record>,
    link_add_address: ActionHash,
) -> ValidateCallbackResult {
    match resolve_in(records, link_add_address) {
        None => ValidateCallbackResult::Invalid(Rejection::MissingDependency(link_add_address)),
        Some(record) => match record.action {
            Action::CreateLink(create_link) => match create_link.link_type {
                Some(link_type) => delete_link_rule(link_type),
                None => ValidateCallbackResult::Valid,
            },
            _ => ValidateCallbackResult::Invalid(
                Rejection::TypeMismatch(link_add_address, Expected::CreateLink),
            ),
        },
    }
}

/// The rule for an agent that joins: the action before the one that writes
/// its key must resolve and must be its membrane proof.
pub open spec fn join_rule(
    records: Map<ActionHash, Record>,
    prev_action: ActionHash,
) -> ValidateCallbackResult {
    match resolve_in(records, prev_action) {
        None => ValidateCallbackResult::Invalid(Rejection::MissingDependency(prev_action)),
        Some(record) => if record.action is AgentValidationPkg {
            ValidateCallbackResult::Valid
        } else {
            ValidateCallbackResult::Invalid(Rejection::MalformedJoinSequence)
        },
    }
}

/// Resolves a hash and checks that the record found holds an entry of the
/// expected type.
pub fn must_get_entry(store: &RecordStore, hash: &ActionHash, expected: UnitEntryTypes) -> (r:
    ValidateCallbackResult)
    ensures
        r == entry_at(store@, *hash, expected),
{
    match store.resolve(hash) {
        None => ValidateCallbackResult::Invalid(Rejection::MissingDependency(*hash)),
        Some(record) => {
            if record.holds_entry_of(expected) {
                ValidateCallbackResult::Valid
            } else {
                ValidateCallbackResult::Invalid(
                    Rejection::TypeMismatch(*hash, Expected::Entry(expected)),
                )
            }
        },
    }
}

/// Checks one end of a link: the address must be an action hash that leads
/// to an entry of the expected type.
pub fn must_get_linked_entry(
    store: &RecordStore,
    address: &AnyLinkableHash,
    expected: UnitEntryTypes,
) -> (r: ValidateCallbackResult)
    ensures
        r == entry_at_address(store@, *address, expected),
{
    match address.into_action_hash() {
        None => ValidateCallbackResult::Invalid(Rejection::MalformedReference(*address)),
        Some(hash) => must_get_entry(store, &hash, expected),
    }
}

/// Checks both ends of a link, the base first.
pub fn validate_link_between(
    store: &RecordStore,
    base_address: &AnyLinkableHash,
    target_address: &AnyLinkableHash,
    base_type: UnitEntryTypes,
    target_type: UnitEntryTypes,
) -> (r: ValidateCallbackResult)
    ensures
        r == link_between(store@, *base_address, *target_address, base_type, target_type),
{
    let base = must_get_linked_entry(store, base_address, base_type);
    if base.is_valid() {
        must_get_linked_entry(store, target_address, target_type)
    } else {
        base
    }
}

} // verus!
