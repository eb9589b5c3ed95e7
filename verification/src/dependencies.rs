//! The hashes that the verdict on an operation rests on.
//!
//! Whoever runs validation resolves these hashes and nothing else: the
//! verdict is the same in any two stores that agree on them.

use vstd::prelude::*;
use crate::hash::ActionHash;
use crate::hash::AnyLinkableHash;
use crate::op::Op;
use crate::op::OpActivity;
use crate::op::OpDelete;
use crate::op::OpEntry;
use crate::op::OpRecord;
use crate::op::OpUpdate;
use crate::record::Record;
use crate::schema::EntryTypes;
use crate::schema::LinkTypes;
use crate::store::resolve_in;
use crate::validation::verdict;

verus! {

/// The hash that writing an entry rests on: the hApp that a version or a
/// release names.
pub open spec fn entry_dependencies(entry: EntryTypes) -> Seq<ActionHash> {
    match entry.dependency() {
        Some(happ_hash) => seq![happ_hash],
        None => Seq::empty(),
    }
}

/// The hashes that updating an entry rests on: the record that is revised,
/// then what writing the new entry rests on.
pub open spec fn update_dependencies(original: ActionHash, entry: EntryTypes) -> Seq<ActionHash> {
    seq![original] + entry_dependencies(entry)
}

/// The hash that one end of a link stands for, where it is an action.
pub open spec fn address_dependencies(address: AnyLinkableHash) -> Seq<ActionHash> {
    match address.action_hash() {
        Some(hash) => seq![hash],
        None => Seq::empty(),
    }
}

/// The hashes that creating a link rests on: both ends of a structural link,
/// the base first.
pub open spec fn link_dependencies(
    link_type: LinkTypes,
    base_address: AnyLinkableHash,
    target_address: AnyLinkableHash,
) -> Seq<ActionHash> {
    if link_type.endpoints().is_some() {
        address_dependencies(base_address) + address_dependencies(target_address)
    } else {
        Seq::empty()
    }
}

/// The hashes that the verdict on an operation rests on.
pub open spec fn dependencies_of(op: Op) -> Seq<ActionHash> {
    match op {
        Op::StoreEntry(OpEntry::CreateEntry { app_entry, .. }) => entry_dependencies(app_entry),
        Op::StoreEntry(OpEntry::UpdateEntry { app_entry, action }) => update_dependencies(
            action.original_action_address,
            app_entry,
        ),
        Op::StoreEntry(OpEntry::Other) => Seq::empty(),
        Op::RegisterUpdate(OpUpdate::Entry { app_entry, action }) => update_dependencies(
            action.original_action_address,
            app_entry,
        ),
        Op::RegisterUpdate(OpUpdate::Other) => Seq::empty(),
        Op::RegisterDelete(OpDelete { action }) => seq![action.deletes_address],
        Op::RegisterCreateLink {
            link_type,
            base_address,
            target_address,
            ..
        } => link_dependencies(link_type, base_address, target_address),
        Op::RegisterDeleteLink { .. } => Seq::empty(),
        Op::StoreRecord(OpRecord::CreateEntry { app_entry, .. }) => entry_dependencies(app_entry),
        Op::StoreRecord(OpRecord::UpdateEntry { app_entry, action }) => update_dependencies(
            action.original_action_address,
            app_entry,
        ),
        Op::StoreRecord(OpRecord::DeleteEntry { action }) => seq![action.deletes_address],
        Op::StoreRecord(
            OpRecord::CreateLink { link_type, base_address, target_address, .. },
        ) => link_dependencies(link_type, base_address, target_address),
        Op::StoreRecord(OpRecord::DeleteLink { action, .. }) => seq![action.link_add_address],
        Op::StoreRecord(OpRecord::Other) => Seq::empty(),
        Op::RegisterAgentActivity(OpActivity::CreateAgent { action, .. }) => seq![
            action.prev_action,
        ],
        Op::RegisterAgentActivity(OpActivity::Other) => Seq::empty(),
    }
}

fn entry_dependency_list(entry: &EntryTypes) -> (r: Vec<ActionHash>)
    ensures
        r@ == entry_dependencies(*entry),
{
    let mut hashes: Vec<ActionHash> = Vec::new();
    match entry {
        EntryTypes::Happ(_) => {},
        EntryTypes::HappVersion(happ_version) => {
            hashes.push(happ_version.happ_hash);
        },
        EntryTypes::HappRelease(happ_release) => {
            hashes.push(happ_release.happ_hash);
        },
    }
    assert(hashes@ =~= entry_dependencies(*entry));
    hashes
}

fn link_dependency_list(
    link_type: LinkTypes,
    base_address: &AnyLinkableHash,
    target_address: &AnyLinkableHash,
) -> (r: Vec<ActionHash>)
    ensures
        r@ == link_dependencies(link_type, *base_address, *target_address),
{
    let mut hashes: Vec<ActionHash> = Vec::new();
    if link_type.expected_endpoints().is_some() {
        match base_address.into_action_hash() {
            Some(hash) => {
                hashes.push(hash);
            },
            None => {},
        }
        match target_address.into_action_hash() {
            Some(hash) => {
                hashes.push(hash);
            },
            None => {},
        }
    }
    assert(hashes@ =~= link_dependencies(link_type, *base_address, *target_address));
    hashes
}

fn single(hash: ActionHash) -> (r: Vec<ActionHash>)
    ensures
        r@ == seq![hash],
{
    let mut hashes: Vec<ActionHash> = Vec::new();
    hashes.push(hash);
    assert(hashes@ =~= seq![hash]);
    hashes
}

fn update_dependency_list(original: ActionHash, entry: &EntryTypes) -> (r: Vec<ActionHash>)
    ensures
        r@ == update_dependencies(original, *entry),
{
    let mut hashes = single(original);
    let mut of_entry = entry_dependency_list(entry);
    hashes.append(&mut of_entry);
    hashes
}

/// Lists the hashes that have to be resolved before an operation is
/// validated.
pub fn dependencies(op: &Op) -> (r: Vec<ActionHash>)
    ensures
        r@ == dependencies_of(*op),
{
    match op {
        Op::StoreEntry(OpEntry::CreateEntry { app_entry, .. }) => entry_dependency_list(app_entry),
        Op::StoreEntry(OpEntry::UpdateEntry { app_entry, action }) => update_dependency_list(
            action.original_action_address,
            app_entry,
        ),
        Op::StoreEntry(OpEntry::Other) => Vec::new(),
        Op::RegisterUpdate(OpUpdate::Entry { app_entry, action }) => update_dependency_list(
            action.original_action_address,
            app_entry,
        ),
        Op::RegisterUpdate(OpUpdate::Other) => Vec::new(),
        Op::RegisterDelete(delete_entry) => single(delete_entry.action.deletes_address),
        Op::RegisterCreateLink {
            link_type,
            base_address,
            target_address,
            ..
        } => link_dependency_list(*link_type, base_address, target_address),
        Op::RegisterDeleteLink { .. } => Vec::new(),
        Op::StoreRecord(OpRecord::CreateEntry { app_entry, .. }) => entry_dependency_list(
            app_entry,
        ),
        Op::StoreRecord(OpRecord::UpdateEntry { app_entry, action }) => update_dependency_list(
            action.original_action_address,
            app_entry,
        ),
        Op::StoreRecord(OpRecord::DeleteEntry { action }) => single(action.deletes_address),
        Op::StoreRecord(
            OpRecord::CreateLink { link_type, base_address, target_address, .. },
        ) => link_dependency_list(*link_type, base_address, target_address),
        Op::StoreRecord(OpRecord::DeleteLink { action, .. }) => single(action.link_add_address),
        Op::StoreRecord(OpRecord::Other) => Vec::new(),
        Op::RegisterAgentActivity(OpActivity::CreateAgent { action, .. }) => single(
            action.prev_action,
        ),
        Op::RegisterAgentActivity(OpActivity::Other) => Vec::new(),
    }
}

/// Validation looks at nothing but what the dependencies of the operation
/// resolve to: two maps of records that agree on them give the same verdict.
pub proof fn verdict_rests_on_dependencies(
    op: Op,
    first: Map<ActionHash, Record>,
    second: Map<ActionHash, Record>,
)
    requires
        forall|hash: ActionHash|
            dependencies_of(op).contains(hash) ==> resolve_in(first, hash) == resolve_in(second, hash),
    ensures
        verdict(op, first) == verdict(op, second),
{
    let all = dependencies_of(op);
    match op {
        Op::StoreEntry(OpEntry::CreateEntry { app_entry, .. }) => {
            agree_on_entry(app_entry, all, first, second);
        },
        Op::StoreEntry(OpEntry::UpdateEntry { app_entry, action }) => {
            agree_on_update(action.original_action_address, app_entry, first, second);
        },
        Op::StoreEntry(OpEntry::Other) => {},
        Op::RegisterUpdate(OpUpdate::Entry { app_entry, action }) => {
            agree_on_update(action.original_action_address, app_entry, first, second);
        },
        Op::RegisterUpdate(OpUpdate::Other) => {},
        Op::RegisterDelete(OpDelete { action }) => {
            assert(all[0] == action.deletes_address);
        },
        Op::RegisterCreateLink { link_type, base_address, target_address, .. } => {
            agree_on_link(link_type, base_address, target_address, first, second);
        },
        Op::RegisterDeleteLink { .. } => {},
        Op::StoreRecord(OpRecord::CreateEntry { app_entry, .. }) => {
            agree_on_entry(app_entry, all, first, second);
        },
        Op::StoreRecord(OpRecord::UpdateEntry { app_entry, action }) => {
            agree_on_update(action.original_action_address, app_entry, first, second);
        },
        Op::StoreRecord(OpRecord::DeleteEntry { action }) => {
            assert(all[0] == action.deletes_address);
        },
        Op::StoreRecord(OpRecord::CreateLink { link_type, base_address, target_address, .. }) => {
            agree_on_link(link_type, base_address, target_address, first, second);
        },
        Op::StoreRecord(OpRecord::DeleteLink { action, .. }) => {
            assert(all[0] == action.link_add_address);
        },
        Op::StoreRecord(OpRecord::Other) => {},
        Op::RegisterAgentActivity(OpActivity::CreateAgent { action, .. }) => {
            assert(all[0] == action.prev_action);
        },
        Op::RegisterAgentActivity(OpActivity::Other) => {},
    }
}

proof fn agree_on_entry(
    entry: EntryTypes,
    all: Seq<ActionHash>,
    first: Map<ActionHash, Record>,
    second: Map<ActionHash, Record>,
)
    requires
        forall|hash: ActionHash| entry_dependencies(entry).contains(hash) ==> all.contains(hash),
        forall|hash: ActionHash| all.contains(hash) ==> resolve_in(first, hash) == resolve_in(second, hash),
    ensures
        crate::rules::create_rule(first, entry) == crate::rules::create_rule(second, entry),
{
    match entry.dependency() {
        Some(happ_hash) => {
            assert(entry_dependencies(entry)[0] == happ_hash);
            assert(entry_dependencies(entry).contains(happ_hash));
        },
        None => {},
    }
}

proof fn agree_on_update(
    original: ActionHash,
    entry: EntryTypes,
    first: Map<ActionHash, Record>,
    second: Map<ActionHash, Record>,
)
    requires
        forall|hash: ActionHash|
            update_dependencies(original, entry).contains(hash) ==> resolve_in(first, hash)
                == resolve_in(second, hash),
    ensures
        crate::rules::update_rule(first, original, entry) == crate::rules::update_rule(
            second,
            original,
            entry,
        ),
{
    let all = update_dependencies(original, entry);
    assert(all[0] == original);
    assert forall|hash: ActionHash| entry_dependencies(entry).contains(hash) implies all.contains(
        hash,
    ) by {
        let k = choose|k: int|
            0 <= k < entry_dependencies(entry).len() && entry_dependencies(entry)[k] == hash;
        assert(all[k + 1] == hash);
    }
    agree_on_entry(entry, all, first, second);
}

proof fn agree_on_link(
    link_type: LinkTypes,
    base_address: AnyLinkableHash,
    target_address: AnyLinkableHash,
    first: Map<ActionHash, Record>,
    second: Map<ActionHash, Record>,
)
    requires
        forall|hash: ActionHash|
            link_dependencies(link_type, base_address, target_address).contains(hash) ==> resolve_in(
                first,
                hash,
            ) == resolve_in(second, hash),
    ensures
        crate::rules::create_link_rule(first, link_type, base_address, target_address)
            == crate::rules::create_link_rule(second, link_type, base_address, target_address),
{
    let all = link_dependencies(link_type, base_address, target_address);
    if link_type.endpoints().is_some() {
        match base_address.action_hash() {
            Some(hash) => {
                assert(all[0] == hash);
            },
            None => {},
        }
        match target_address.action_hash() {
            Some(hash) => {
                assert(all[all.len() - 1] == hash);
            },
            None => {},
        }
    }
}

} // verus!
