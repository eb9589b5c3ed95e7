use happs::action::Action;
use happs::action::AgentValidationPkg;
use happs::action::Create;
use happs::action::CreateLink;
use happs::action::Delete;
use happs::action::DeleteLink;
use happs::action::EntryCreationAction;
use happs::action::EntryType;
use happs::action::LinkTag;
use happs::action::MembraneProof;
use happs::action::Timestamp;
use happs::action::Update;
use happs::dependencies::dependencies;
use happs::happ::validate_create_happ;
use happs::happ::validate_create_link_all_happs;
use happs::happ::validate_create_link_happ_updates;
use happs::happ::validate_create_link_publisher_happs;
use happs::happ::validate_delete_happ;
use happs::happ::validate_delete_link_all_happs;
use happs::happ::validate_delete_link_happ_updates;
use happs::happ::validate_delete_link_publisher_happs;
use happs::happ::validate_update_happ;
use happs::happ::Happ;
use happs::happ_release::validate_create_happ_release;
use happs::happ_release::validate_create_link_happ_release_updates;
use happs::happ_release::validate_create_link_happ_to_happ_releases;
use happs::happ_release::validate_delete_happ_release;
use happs::happ_release::validate_delete_link_happ_release_updates;
use happs::happ_release::validate_delete_link_happ_to_happ_releases;
use happs::happ_release::validate_update_happ_release;
use happs::happ_release::HappRelease;
use happs::happ_unpublished::validate_create_link_happ_unpublished;
use happs::happ_unpublished::validate_delete_link_happ_unpublished;
use happs::happ_version::validate_create_happ_version;
use happs::happ_version::validate_create_link_happ_to_happ_versions;
use happs::happ_version::validate_create_link_happ_version_updates;
use happs::happ_version::validate_delete_happ_version;
use happs::happ_version::validate_delete_link_happ_to_happ_versions;
use happs::happ_version::validate_delete_link_happ_version_updates;
use happs::happ_version::validate_update_happ_version;
use happs::happ_version::HappVersion;
use happs::hash::ActionHash;
use happs::hash::AgentPubKey;
use happs::hash::AnyLinkableHash;
use happs::hash::EntryHash;
use happs::hash::ExternalHash;
use happs::op::Op;
use happs::op::OpActivity;
use happs::op::OpDelete;
use happs::op::OpEntry;
use happs::op::OpRecord;
use happs::op::OpUpdate;
use happs::record::Entry;
use happs::record::Record;
use happs::record::RecordEntry;
use happs::schema::EntryTypes;
use happs::schema::LinkTypes;
use happs::schema::UnitEntryTypes;
use happs::store::RecordStore;
use happs::validation::genesis_self_check;
use happs::validation::validate;
use happs::validation::validate_agent_joining;
use happs::validation::GenesisSelfCheckData;
use happs::verdict::ErrorKind;
use happs::verdict::Expected;
use happs::verdict::Rejection;
use happs::verdict::ValidateCallbackResult;

fn action_hash(n: u8) -> ActionHash {
    ActionHash::from_raw_36([n; 36])
}

fn entry_hash(n: u8) -> EntryHash {
    EntryHash::from_raw_36([n; 36])
}

fn agent(n: u8) -> AgentPubKey {
    AgentPubKey::from_raw_36([n; 36])
}

fn address(n: u8) -> AnyLinkableHash {
    AnyLinkableHash::Action(action_hash(n))
}

fn create(entry_type: EntryType) -> Create {
    Create {
        author: agent(1),
        timestamp: Timestamp(1_000),
        prev_action: action_hash(200),
        entry_type,
        entry_hash: entry_hash(50),
    }
}

fn update(original: ActionHash) -> Update {
    Update {
        author: agent(1),
        timestamp: Timestamp(2_000),
        prev_action: action_hash(201),
        original_action_address: original,
        original_entry_address: entry_hash(50),
        entry_type: EntryType::App,
        entry_hash: entry_hash(51),
    }
}

fn delete(deletes: ActionHash) -> Delete {
    Delete {
        author: agent(1),
        timestamp: Timestamp(3_000),
        prev_action: action_hash(202),
        deletes_address: deletes,
        deletes_entry_address: entry_hash(50),
    }
}

fn create_link(
    base: AnyLinkableHash,
    target: AnyLinkableHash,
    link_type: Option<LinkTypes>,
) -> CreateLink {
    CreateLink {
        author: agent(1),
        timestamp: Timestamp(4_000),
        prev_action: action_hash(203),
        base_address: base,
        target_address: target,
        link_type,
        tag: LinkTag::empty(),
    }
}

fn delete_link(base: AnyLinkableHash, link_add_address: ActionHash) -> DeleteLink {
    DeleteLink {
        author: agent(1),
        timestamp: Timestamp(5_000),
        prev_action: action_hash(204),
        base_address: base,
        link_add_address,
    }
}

fn happ(name: &str) -> Happ {
    Happ { name: name.to_string(), description: "Lorem ipsum".to_string(), icon: entry_hash(9) }
}

fn happ_version(happ_hash: ActionHash, version: &str) -> HappVersion {
    HappVersion {
        happ_hash,
        version: version.to_string(),
        changes: "Lorem ipsum".to_string(),
        web_bundle_hash: entry_hash(8),
    }
}

fn happ_release(happ_hash: ActionHash, version: &str) -> HappRelease {
    HappRelease {
        happ_hash,
        version: version.to_string(),
        changes: "Lorem ipsum".to_string(),
        web_bundle_hash: entry_hash(7),
    }
}

fn record_of(hash: ActionHash, entry: EntryTypes) -> Record {
    Record {
        action_hash: hash,
        action: Action::Create(create(EntryType::App)),
        entry: RecordEntry::Present(Entry::App(entry)),
    }
}

/// A store with a hApp at 10, a version at 20 and a release at 30.
fn catalogue() -> RecordStore {
    let mut store = RecordStore::new();
    assert!(store.insert(record_of(action_hash(10), EntryTypes::Happ(happ("X")))));
    assert!(store.insert(record_of(
        action_hash(20),
        EntryTypes::HappVersion(happ_version(action_hash(10), "1.0")),
    )));
    assert!(store.insert(record_of(
        action_hash(30),
        EntryTypes::HappRelease(happ_release(action_hash(10), "1.0")),
    )));
    store
}

fn invalid(rejection: Rejection) -> ValidateCallbackResult {
    ValidateCallbackResult::Invalid(rejection)
}

#[test]
fn creating_a_happ_is_always_valid() {
    let empty = RecordStore::new();
    let op = Op::StoreEntry(OpEntry::CreateEntry {
        app_entry: EntryTypes::Happ(happ("X")),
        action: create(EntryType::App),
    });
    assert_eq!(validate(&op, &empty), ValidateCallbackResult::Valid);
    let as_record = Op::StoreRecord(OpRecord::CreateEntry {
        app_entry: EntryTypes::Happ(happ("X")),
        action: create(EntryType::App),
    });
    assert_eq!(validate(&as_record, &empty), ValidateCallbackResult::Valid);
    assert_eq!(
        validate_create_happ(
            &EntryCreationAction::Create(create(EntryType::App)),
            &happ("X"),
            &empty
        ),
        ValidateCallbackResult::Valid
    );
    assert!(dependencies(&op).is_empty());
}

#[test]
fn version_of_an_existing_happ_is_valid() {
    let mut store = RecordStore::new();
    let r0 = record_of(action_hash(10), EntryTypes::Happ(happ("X")));
    store.insert(r0);
    let version = happ_version(action_hash(10), "1.0");
    let op = Op::StoreEntry(OpEntry::CreateEntry {
        app_entry: EntryTypes::HappVersion(version.clone()),
        action: create(EntryType::App),
    });
    assert_eq!(dependencies(&op), vec![action_hash(10)]);
    assert_eq!(validate(&op, &store), ValidateCallbackResult::Valid);
    let as_record = Op::StoreRecord(OpRecord::CreateEntry {
        app_entry: EntryTypes::HappVersion(version.clone()),
        action: create(EntryType::App),
    });
    assert_eq!(validate(&as_record, &store), ValidateCallbackResult::Valid);
    assert_eq!(
        validate_create_happ_version(
            &EntryCreationAction::Create(create(EntryType::App)),
            &version,
            &store
        ),
        ValidateCallbackResult::Valid
    );
}

#[test]
fn version_of_an_unknown_happ_is_a_missing_dependency() {
    let store = catalogue();
    let unused = action_hash(99);
    let op = Op::StoreEntry(OpEntry::CreateEntry {
        app_entry: EntryTypes::HappVersion(happ_version(unused, "1.0")),
        action: create(EntryType::App),
    });
    let verdict = validate(&op, &store);
    assert_eq!(verdict, invalid(Rejection::MissingDependency(unused)));
    assert!(!verdict.is_valid());
    assert_eq!(verdict.rejection().unwrap().kind(), ErrorKind::MissingDependency);
    let as_record = Op::StoreRecord(OpRecord::CreateEntry {
        app_entry: EntryTypes::HappVersion(happ_version(unused, "1.0")),
        action: create(EntryType::App),
    });
    assert_eq!(validate(&as_record, &store), invalid(Rejection::MissingDependency(unused)));
}

#[test]
fn release_needs_its_happ() {
    let store = catalogue();
    let good = happ_release(action_hash(10), "2.0");
    let orphan = happ_release(action_hash(98), "2.0");
    let action = EntryCreationAction::Create(create(EntryType::App));
    assert_eq!(validate_create_happ_release(&action, &good, &store), ValidateCallbackResult::Valid);
    assert_eq!(
        validate_create_happ_release(&action, &orphan, &store),
        invalid(Rejection::MissingDependency(action_hash(98)))
    );
    let op = Op::StoreRecord(OpRecord::CreateEntry {
        app_entry: EntryTypes::HappRelease(orphan),
        action: create(EntryType::App),
    });
    assert_eq!(validate(&op, &store), invalid(Rejection::MissingDependency(action_hash(98))));
}

#[test]
fn dependency_of_another_type_is_a_type_mismatch() {
    let store = catalogue();
    // 20 resolves, but to a version, not to a hApp.
    let version = happ_version(action_hash(20), "1.0");
    let op = Op::StoreEntry(OpEntry::CreateEntry {
        app_entry: EntryTypes::HappVersion(version),
        action: create(EntryType::App),
    });
    let verdict = validate(&op, &store);
    assert_eq!(
        verdict,
        invalid(Rejection::TypeMismatch(action_hash(20), Expected::Entry(UnitEntryTypes::Happ)))
    );
    assert_eq!(verdict.rejection().unwrap().kind(), ErrorKind::TypeMismatch);
}

#[test]
fn dependency_without_entry_is_a_type_mismatch() {
    let mut store = RecordStore::new();
    store.insert(Record {
        action_hash: action_hash(10),
        action: Action::Create(create(EntryType::App)),
        entry: RecordEntry::Hidden,
    });
    store.insert(Record {
        action_hash: action_hash(11),
        action: Action::Create(create(EntryType::App)),
        entry: RecordEntry::Present(Entry::Other),
    });
    for n in [10u8, 11u8] {
        let op = Op::StoreEntry(OpEntry::CreateEntry {
            app_entry: EntryTypes::HappRelease(happ_release(action_hash(n), "1.0")),
            action: create(EntryType::App),
        });
        assert_eq!(
            validate(&op, &store),
            invalid(Rejection::TypeMismatch(
                action_hash(n),
                Expected::Entry(UnitEntryTypes::Happ)
            ))
        );
    }
}

#[test]
fn storing_an_update_runs_the_create_rule() {
    let store = catalogue();
    let good = Op::StoreEntry(OpEntry::UpdateEntry {
        app_entry: EntryTypes::HappVersion(happ_version(action_hash(10), "1.1")),
        action: update(action_hash(20)),
    });
    assert_eq!(validate(&good, &store), ValidateCallbackResult::Valid);
    let orphan = Op::StoreEntry(OpEntry::UpdateEntry {
        app_entry: EntryTypes::HappVersion(happ_version(action_hash(77), "1.1")),
        action: update(action_hash(20)),
    });
    assert_eq!(validate(&orphan, &store), invalid(Rejection::MissingDependency(action_hash(77))));
}

#[test]
fn registered_update_must_keep_the_type() {
    let store = catalogue();
    let same = Op::RegisterUpdate(OpUpdate::Entry {
        app_entry: EntryTypes::HappVersion(happ_version(action_hash(10), "1.1")),
        action: update(action_hash(20)),
    });
    assert_eq!(dependencies(&same), vec![action_hash(20), action_hash(10)]);
    assert_eq!(validate(&same, &store), ValidateCallbackResult::Valid);
    let happ_update = Op::RegisterUpdate(OpUpdate::Entry {
        app_entry: EntryTypes::Happ(happ("Y")),
        action: update(action_hash(10)),
    });
    assert_eq!(validate(&happ_update, &store), ValidateCallbackResult::Valid);
    let other = Op::RegisterUpdate(OpUpdate::Entry {
        app_entry: EntryTypes::HappRelease(happ_release(action_hash(10), "1.1")),
        action: update(action_hash(20)),
    });
    assert_eq!(
        validate(&other, &store),
        invalid(Rejection::TypeMismatch(
            action_hash(20),
            Expected::Entry(UnitEntryTypes::HappRelease)
        ))
    );
    let unknown = Op::RegisterUpdate(OpUpdate::Entry {
        app_entry: EntryTypes::Happ(happ("Y")),
        action: update(action_hash(66)),
    });
    assert_eq!(validate(&unknown, &store), invalid(Rejection::MissingDependency(action_hash(66))));
    assert_eq!(validate(&Op::RegisterUpdate(OpUpdate::Other), &store), ValidateCallbackResult::Valid);
}

#[test]
fn an_update_is_judged_alike_in_every_shape() {
    let store = catalogue();
    let cases = [
        // A good update of the version at 20.
        (EntryTypes::HappVersion(happ_version(action_hash(10), "1.1")), 20u8),
        // The hApp named by the new content does not resolve.
        (EntryTypes::HappVersion(happ_version(action_hash(77), "1.1")), 20),
        // The new content is of another type than what it revises.
        (EntryTypes::HappRelease(happ_release(action_hash(10), "1.1")), 20),
        // What is revised does not resolve.
        (EntryTypes::Happ(happ("Y")), 66),
    ];
    let expected = [
        ValidateCallbackResult::Valid,
        invalid(Rejection::MissingDependency(action_hash(77))),
        invalid(Rejection::TypeMismatch(
            action_hash(20),
            Expected::Entry(UnitEntryTypes::HappRelease),
        )),
        invalid(Rejection::MissingDependency(action_hash(66))),
    ];
    for ((app_entry, original), verdict) in cases.into_iter().zip(expected) {
        let action = update(action_hash(original));
        let stored_entry =
            Op::StoreEntry(OpEntry::UpdateEntry { app_entry: app_entry.clone(), action });
        let registered =
            Op::RegisterUpdate(OpUpdate::Entry { app_entry: app_entry.clone(), action });
        let stored_record = Op::StoreRecord(OpRecord::UpdateEntry { app_entry, action });
        assert_eq!(validate(&stored_entry, &store), verdict);
        assert_eq!(validate(&registered, &store), verdict);
        assert_eq!(validate(&stored_record, &store), verdict);
        assert_eq!(dependencies(&stored_entry), dependencies(&registered));
        assert_eq!(dependencies(&stored_entry), dependencies(&stored_record));
    }
}

#[test]
fn update_of_what_is_no_entry_is_rejected() {
    let mut store = catalogue();
    store.insert(Record {
        action_hash: action_hash(40),
        action: Action::Delete(delete(action_hash(10))),
        entry: RecordEntry::NA,
    });
    let registered = Op::RegisterUpdate(OpUpdate::Entry {
        app_entry: EntryTypes::Happ(happ("Y")),
        action: update(action_hash(40)),
    });
    let expected = invalid(Rejection::TypeMismatch(action_hash(40), Expected::EntryCreation));
    assert_eq!(validate(&registered, &store), expected);
    let stored = Op::StoreRecord(OpRecord::UpdateEntry {
        app_entry: EntryTypes::Happ(happ("Y")),
        action: update(action_hash(40)),
    });
    assert_eq!(validate(&stored, &store), expected);
}

#[test]
fn stored_update_record_checks_dependency_then_type() {
    let store = catalogue();
    let good = Op::StoreRecord(OpRecord::UpdateEntry {
        app_entry: EntryTypes::HappRelease(happ_release(action_hash(10), "1.1")),
        action: update(action_hash(30)),
    });
    assert_eq!(dependencies(&good), vec![action_hash(30), action_hash(10)]);
    assert_eq!(validate(&good, &store), ValidateCallbackResult::Valid);
    // Both the dependency and the type are wrong: the dependency is reported.
    let both = Op::StoreRecord(OpRecord::UpdateEntry {
        app_entry: EntryTypes::HappRelease(happ_release(action_hash(77), "1.1")),
        action: update(action_hash(20)),
    });
    assert_eq!(validate(&both, &store), invalid(Rejection::MissingDependency(action_hash(77))));
    let wrong_type = Op::StoreRecord(OpRecord::UpdateEntry {
        app_entry: EntryTypes::HappRelease(happ_release(action_hash(10), "1.1")),
        action: update(action_hash(20)),
    });
    assert_eq!(
        validate(&wrong_type, &store),
        invalid(Rejection::TypeMismatch(
            action_hash(20),
            Expected::Entry(UnitEntryTypes::HappRelease)
        ))
    );
    let unknown = Op::StoreRecord(OpRecord::UpdateEntry {
        app_entry: EntryTypes::Happ(happ("Y")),
        action: update(action_hash(66)),
    });
    assert_eq!(validate(&unknown, &store), invalid(Rejection::MissingDependency(action_hash(66))));
}

#[test]
fn update_checks_of_each_type_ask_nothing() {
    let original_action = EntryCreationAction::Create(create(EntryType::App));
    let h = action_hash(10);
    assert_eq!(
        validate_update_happ(&update(h), &happ("B"), &original_action, &happ("A")),
        ValidateCallbackResult::Valid
    );
    assert_eq!(
        validate_update_happ_version(
            &update(h),
            &happ_version(h, "2"),
            &original_action,
            &happ_version(h, "1")
        ),
        ValidateCallbackResult::Valid
    );
    assert_eq!(
        validate_update_happ_release(
            &update(h),
            &happ_release(h, "2"),
            &original_action,
            &happ_release(h, "1")
        ),
        ValidateCallbackResult::Valid
    );
}

#[test]
fn a_happ_may_be_deleted() {
    let store = catalogue();
    let registered = Op::RegisterDelete(OpDelete { action: delete(action_hash(10)) });
    assert_eq!(dependencies(&registered), vec![action_hash(10)]);
    assert_eq!(validate(&registered, &store), ValidateCallbackResult::Valid);
    let stored = Op::StoreRecord(OpRecord::DeleteEntry { action: delete(action_hash(10)) });
    assert_eq!(validate(&stored, &store), ValidateCallbackResult::Valid);
    assert_eq!(
        validate_delete_happ(
            &delete(action_hash(10)),
            &EntryCreationAction::Create(create(EntryType::App)),
            &happ("X")
        ),
        ValidateCallbackResult::Valid
    );
}

#[test]
fn versions_and_releases_are_never_deleted() {
    let store = catalogue();
    let version = invalid(Rejection::ImmutableEntry(UnitEntryTypes::HappVersion));
    let release = invalid(Rejection::ImmutableEntry(UnitEntryTypes::HappRelease));
    assert_eq!(
        validate(&Op::RegisterDelete(OpDelete { action: delete(action_hash(20)) }), &store),
        version
    );
    assert_eq!(
        validate(&Op::StoreRecord(OpRecord::DeleteEntry { action: delete(action_hash(20)) }), &store),
        version
    );
    assert_eq!(
        validate(&Op::RegisterDelete(OpDelete { action: delete(action_hash(30)) }), &store),
        release
    );
    assert_eq!(
        validate(&Op::StoreRecord(OpRecord::DeleteEntry { action: delete(action_hash(30)) }), &store),
        release
    );
    let original_action = EntryCreationAction::Update(update(action_hash(20)));
    assert_eq!(
        validate_delete_happ_version(
            &delete(action_hash(20)),
            &original_action,
            &happ_version(action_hash(10), "whatever")
        ),
        version
    );
    assert_eq!(
        validate_delete_happ_release(
            &delete(action_hash(30)),
            &original_action,
            &happ_release(action_hash(99), "")
        ),
        release
    );
    assert_eq!(version.rejection().unwrap().kind(), ErrorKind::ImmutableViolation);
    assert_eq!(version.rejection().unwrap().message(), "Happ Versions cannot be deleted");
    assert_eq!(release.rejection().unwrap().message(), "hApp Releases cannot be deleted");
}

#[test]
fn delete_of_what_does_not_resolve_is_rejected() {
    let store = catalogue();
    let op = Op::RegisterDelete(OpDelete { action: delete(action_hash(66)) });
    assert_eq!(validate(&op, &store), invalid(Rejection::MissingDependency(action_hash(66))));
}

#[test]
fn delete_looks_at_what_the_record_holds() {
    let mut store = RecordStore::new();
    // A capability, private: no entry at hand, and none is needed.
    store.insert(Record {
        action_hash: action_hash(1),
        action: Action::Create(create(EntryType::CapGrant)),
        entry: RecordEntry::Hidden,
    });
    // An agent key.
    store.insert(Record {
        action_hash: action_hash(2),
        action: Action::Create(create(EntryType::AgentPubKey)),
        entry: RecordEntry::Present(Entry::Other),
    });
    // An application entry that was stored without its entry.
    store.insert(Record {
        action_hash: action_hash(3),
        action: Action::Create(create(EntryType::App)),
        entry: RecordEntry::NotStored,
    });
    // An application entry of another schema.
    store.insert(Record {
        action_hash: action_hash(4),
        action: Action::Update(update(action_hash(3))),
        entry: RecordEntry::Present(Entry::Other),
    });
    // Not an entry at all.
    store.insert(Record {
        action_hash: action_hash(5),
        action: Action::CreateLink(create_link(address(1), address(2), None)),
        entry: RecordEntry::NA,
    });
    let run = |n: u8| validate(&Op::RegisterDelete(OpDelete { action: delete(action_hash(n)) }), &store);
    assert_eq!(run(1), ValidateCallbackResult::Valid);
    assert_eq!(run(2), ValidateCallbackResult::Valid);
    assert_eq!(run(3), invalid(Rejection::TypeMismatch(action_hash(3), Expected::StoredEntry)));
    assert_eq!(run(4), invalid(Rejection::TypeMismatch(action_hash(4), Expected::SchemaEntry)));
    assert_eq!(run(5), invalid(Rejection::TypeMismatch(action_hash(5), Expected::EntryCreation)));
}

#[test]
fn structural_links_need_both_ends() {
    let store = catalogue();
    let cases = [
        (LinkTypes::HappUpdates, 10u8, 10u8, UnitEntryTypes::Happ, UnitEntryTypes::Happ),
        (LinkTypes::HappToHappVersions, 10, 20, UnitEntryTypes::Happ, UnitEntryTypes::HappVersion),
        (
            LinkTypes::HappVersionUpdates,
            20,
            20,
            UnitEntryTypes::HappVersion,
            UnitEntryTypes::HappVersion,
        ),
        (LinkTypes::HappToHappReleases, 10, 30, UnitEntryTypes::Happ, UnitEntryTypes::HappRelease),
        (
            LinkTypes::HappReleaseUpdates,
            30,
            30,
            UnitEntryTypes::HappRelease,
            UnitEntryTypes::HappRelease,
        ),
    ];
    for (link_type, base, target, base_type, target_type) in cases {
        assert_eq!(link_type.expected_endpoints(), Some((base_type, target_type)));
        let op = |b: AnyLinkableHash, t: AnyLinkableHash| Op::RegisterCreateLink {
            base_address: b,
            target_address: t,
            tag: LinkTag::empty(),
            link_type,
            action: create_link(b, t, Some(link_type)),
        };
        assert_eq!(dependencies(&op(address(base), address(target))), vec![
            action_hash(base),
            action_hash(target)
        ]);
        assert_eq!(validate(&op(address(base), address(target)), &store), ValidateCallbackResult::Valid);
        // The base does not resolve.
        assert_eq!(
            validate(&op(address(66), address(target)), &store),
            invalid(Rejection::MissingDependency(action_hash(66)))
        );
        // The target does not resolve.
        assert_eq!(
            validate(&op(address(base), address(67)), &store),
            invalid(Rejection::MissingDependency(action_hash(67)))
        );
        // Both are wrong: the base is reported.
        assert_eq!(
            validate(&op(address(66), address(67)), &store),
            invalid(Rejection::MissingDependency(action_hash(66)))
        );
        // The base is no action hash.
        let entry_address = AnyLinkableHash::Entry(entry_hash(base));
        assert_eq!(
            validate(&op(entry_address, address(target)), &store),
            invalid(Rejection::MalformedReference(entry_address))
        );
        // The target is no action hash.
        let outside = AnyLinkableHash::External(ExternalHash::from_raw_36([target; 36]));
        assert_eq!(
            validate(&op(address(base), outside), &store),
            invalid(Rejection::MalformedReference(outside))
        );
        // The same link stored as a record.
        let stored = Op::StoreRecord(OpRecord::CreateLink {
            base_address: address(base),
            target_address: address(67),
            tag: LinkTag::empty(),
            link_type,
            action: create_link(address(base), address(67), Some(link_type)),
        });
        assert_eq!(validate(&stored, &store), invalid(Rejection::MissingDependency(action_hash(67))));
    }
}

#[test]
fn structural_links_need_the_right_types() {
    let store = catalogue();
    let link = create_link(address(0), address(0), None);
    let tag = LinkTag::empty();
    let mismatch = |n: u8, t: UnitEntryTypes| {
        invalid(Rejection::TypeMismatch(action_hash(n), Expected::Entry(t)))
    };
    assert_eq!(
        validate_create_link_happ_updates(&link, &address(10), &address(20), &tag, &store),
        mismatch(20, UnitEntryTypes::Happ)
    );
    assert_eq!(
        validate_create_link_happ_updates(&link, &address(10), &address(10), &tag, &store),
        ValidateCallbackResult::Valid
    );
    assert_eq!(
        validate_create_link_happ_to_happ_versions(&link, &address(20), &address(20), &tag, &store),
        mismatch(20, UnitEntryTypes::Happ)
    );
    assert_eq!(
        validate_create_link_happ_to_happ_versions(&link, &address(10), &address(30), &tag, &store),
        mismatch(30, UnitEntryTypes::HappVersion)
    );
    assert_eq!(
        validate_create_link_happ_to_happ_versions(&link, &address(10), &address(20), &tag, &store),
        ValidateCallbackResult::Valid
    );
    assert_eq!(
        validate_create_link_happ_version_updates(&link, &address(10), &address(20), &tag, &store),
        mismatch(10, UnitEntryTypes::HappVersion)
    );
    assert_eq!(
        validate_create_link_happ_version_updates(&link, &address(20), &address(20), &tag, &store),
        ValidateCallbackResult::Valid
    );
    assert_eq!(
        validate_create_link_happ_to_happ_releases(&link, &address(10), &address(20), &tag, &store),
        mismatch(20, UnitEntryTypes::HappRelease)
    );
    assert_eq!(
        validate_create_link_happ_to_happ_releases(&link, &address(10), &address(30), &tag, &store),
        ValidateCallbackResult::Valid
    );
    assert_eq!(
        validate_create_link_happ_release_updates(&link, &address(30), &address(20), &tag, &store),
        mismatch(20, UnitEntryTypes::HappRelease)
    );
    assert_eq!(
        validate_create_link_happ_release_updates(&link, &address(30), &address(30), &tag, &store),
        ValidateCallbackResult::Valid
    );
    assert_eq!(
        mismatch(20, UnitEntryTypes::HappRelease).rejection().unwrap().message(),
        "Linked action must reference an entry of type HappRelease"
    );
}

#[test]
fn index_links_and_marks_are_created_freely() {
    let empty = RecordStore::new();
    let link = create_link(address(0), address(0), None);
    let tag = LinkTag::empty();
    let anywhere = AnyLinkableHash::Entry(entry_hash(1));
    assert_eq!(
        validate_create_link_all_happs(&link, &anywhere, &address(66), &tag, &empty),
        ValidateCallbackResult::Valid
    );
    assert_eq!(
        validate_create_link_publisher_happs(&link, &anywhere, &address(66), &tag, &empty),
        ValidateCallbackResult::Valid
    );
    assert_eq!(
        validate_create_link_happ_unpublished(&link, &address(66), &address(67), &tag, &empty),
        ValidateCallbackResult::Valid
    );
    for link_type in [LinkTypes::AllHapps, LinkTypes::PublisherHapps, LinkTypes::HappUnpublished] {
        assert_eq!(link_type.expected_endpoints(), None);
        let op = Op::RegisterCreateLink {
            base_address: anywhere,
            target_address: address(66),
            tag: LinkTag::empty(),
            link_type,
            action: create_link(anywhere, address(66), Some(link_type)),
        };
        assert!(dependencies(&op).is_empty());
        assert_eq!(validate(&op, &empty), ValidateCallbackResult::Valid);
        let stored = Op::StoreRecord(OpRecord::CreateLink {
            base_address: anywhere,
            target_address: address(66),
            tag: LinkTag::empty(),
            link_type,
            action: create_link(anywhere, address(66), Some(link_type)),
        });
        assert_eq!(validate(&stored, &empty), ValidateCallbackResult::Valid);
    }
}

fn permanent_links() -> [(LinkTypes, &'static str); 7] {
    [
        (LinkTypes::HappUpdates, "HappUpdates links cannot be deleted"),
        (LinkTypes::HappVersionUpdates, "HappVersionUpdates links cannot be deleted"),
        (LinkTypes::HappReleaseUpdates, "HappReleaseUpdates links cannot be deleted"),
        (LinkTypes::HappToHappVersions, "HappToHappVersions links cannot be deleted"),
        (LinkTypes::HappToHappReleases, "HappToHappReleases links cannot be deleted"),
        (LinkTypes::AllHapps, "AllHapps links cannot be deleted"),
        (LinkTypes::PublisherHapps, "PublisherHapps links cannot be deleted"),
    ]
}

#[test]
fn links_are_permanent_but_for_the_mark() {
    let empty = RecordStore::new();
    for (link_type, message) in permanent_links() {
        assert!(!link_type.is_deletable());
        let op = Op::RegisterDeleteLink {
            original_action: create_link(address(10), address(20), Some(link_type)),
            base_address: address(10),
            target_address: address(20),
            tag: LinkTag::empty(),
            link_type,
            action: delete_link(address(10), action_hash(90)),
        };
        assert!(dependencies(&op).is_empty());
        let verdict = validate(&op, &empty);
        assert_eq!(verdict, invalid(Rejection::ImmutableLink(link_type)));
        assert_eq!(verdict.rejection().unwrap().kind(), ErrorKind::ImmutableViolation);
        assert_eq!(verdict.rejection().unwrap().message(), message);
    }
    assert!(LinkTypes::HappUnpublished.is_deletable());
    let op = Op::RegisterDeleteLink {
        original_action: create_link(address(10), address(10), Some(LinkTypes::HappUnpublished)),
        base_address: address(10),
        target_address: address(10),
        tag: LinkTag::empty(),
        link_type: LinkTypes::HappUnpublished,
        action: delete_link(address(10), action_hash(90)),
    };
    assert_eq!(validate(&op, &empty), ValidateCallbackResult::Valid);
}

#[test]
fn delete_link_checks_of_each_type() {
    let action = delete_link(address(10), action_hash(90));
    let original = create_link(address(10), address(20), None);
    let tag = LinkTag::empty();
    let (b, t) = (address(10), address(20));
    let rejected = |link_type: LinkTypes| invalid(Rejection::ImmutableLink(link_type));
    assert_eq!(
        validate_delete_link_happ_updates(&action, &original, &b, &t, &tag),
        rejected(LinkTypes::HappUpdates)
    );
    assert_eq!(
        validate_delete_link_all_happs(&action, &original, &b, &t, &tag),
        rejected(LinkTypes::AllHapps)
    );
    assert_eq!(
        validate_delete_link_publisher_happs(&action, &original, &b, &t, &tag),
        rejected(LinkTypes::PublisherHapps)
    );
    assert_eq!(
        validate_delete_link_happ_to_happ_versions(&action, &original, &b, &t, &tag),
        rejected(LinkTypes::HappToHappVersions)
    );
    assert_eq!(
        validate_delete_link_happ_version_updates(&action, &original, &b, &t, &tag),
        rejected(LinkTypes::HappVersionUpdates)
    );
    assert_eq!(
        validate_delete_link_happ_to_happ_releases(&action, &original, &b, &t, &tag),
        rejected(LinkTypes::HappToHappReleases)
    );
    assert_eq!(
        validate_delete_link_happ_release_updates(&action, &original, &b, &t, &tag),
        rejected(LinkTypes::HappReleaseUpdates)
    );
    assert_eq!(
        validate_delete_link_happ_unpublished(&action, &original, &b, &t, &tag),
        ValidateCallbackResult::Valid
    );
}

#[test]
fn stored_delete_link_finds_the_link_by_its_creation() {
    let mut store = RecordStore::new();
    let mut n = 100u8;
    for (link_type, _) in permanent_links() {
        store.insert(Record {
            action_hash: action_hash(n),
            action: Action::CreateLink(create_link(address(10), address(20), Some(link_type))),
            entry: RecordEntry::NA,
        });
        let op = Op::StoreRecord(OpRecord::DeleteLink {
            base_address: address(10),
            action: delete_link(address(10), action_hash(n)),
        });
        assert_eq!(dependencies(&op), vec![action_hash(n)]);
        assert_eq!(validate(&op, &store), invalid(Rejection::ImmutableLink(link_type)));
        n += 1;
    }
    store.insert(Record {
        action_hash: action_hash(120),
        action: Action::CreateLink(create_link(
            address(10),
            address(10),
            Some(LinkTypes::HappUnpublished),
        )),
        entry: RecordEntry::NA,
    });
    store.insert(Record {
        action_hash: action_hash(121),
        action: Action::CreateLink(create_link(address(10), address(10), None)),
        entry: RecordEntry::NA,
    });
    store.insert(Record {
        action_hash: action_hash(122),
        action: Action::Create(create(EntryType::App)),
        entry: RecordEntry::Present(Entry::App(EntryTypes::Happ(happ("X")))),
    });
    let run = |n: u8| {
        validate(
            &Op::StoreRecord(OpRecord::DeleteLink {
                base_address: address(10),
                action: delete_link(address(10), action_hash(n)),
            }),
            &store,
        )
    };
    // The mark may go.
    assert_eq!(run(120), ValidateCallbackResult::Valid);
    // A link of another schema is not ours to judge.
    assert_eq!(run(121), ValidateCallbackResult::Valid);
    // What is deleted must have created a link.
    let not_a_link = run(122);
    assert_eq!(
        not_a_link,
        invalid(Rejection::TypeMismatch(action_hash(122), Expected::CreateLink))
    );
    assert_eq!(
        not_a_link.rejection().unwrap().message(),
        "The action that a DeleteLink deletes must be a CreateLink"
    );
    // And it must resolve.
    assert_eq!(run(123), invalid(Rejection::MissingDependency(action_hash(123))));
}

#[test]
fn an_agent_joins_after_its_membrane_proof() {
    let mut store = RecordStore::new();
    store.insert(Record {
        action_hash: action_hash(200),
        action: Action::AgentValidationPkg(AgentValidationPkg {
            author: agent(1),
            timestamp: Timestamp(500),
            prev_action: action_hash(199),
            membrane_proof: Some(MembraneProof { bytes: vec![1, 2, 3] }),
        }),
        entry: RecordEntry::NA,
    });
    store.insert(Record {
        action_hash: action_hash(199),
        action: Action::Dna { author: agent(1), timestamp: Timestamp(400) },
        entry: RecordEntry::NA,
    });
    let key = |prev: u8| {
        let mut action = create(EntryType::AgentPubKey);
        action.prev_action = action_hash(prev);
        Op::RegisterAgentActivity(OpActivity::CreateAgent { agent: agent(1), action })
    };
    assert_eq!(dependencies(&key(200)), vec![action_hash(200)]);
    assert_eq!(validate(&key(200), &store), ValidateCallbackResult::Valid);
    let out_of_order = validate(&key(199), &store);
    assert_eq!(out_of_order, invalid(Rejection::MalformedJoinSequence));
    assert_eq!(out_of_order.rejection().unwrap().kind(), ErrorKind::MalformedJoinSequence);
    assert_eq!(
        out_of_order.rejection().unwrap().message(),
        "The previous action for a `CreateAgent` action must be an `AgentValidationPkg`"
    );
    assert_eq!(validate(&key(198), &store), invalid(Rejection::MissingDependency(action_hash(198))));
    assert_eq!(
        validate(&Op::RegisterAgentActivity(OpActivity::Other), &store),
        ValidateCallbackResult::Valid
    );
}

#[test]
fn joining_asks_nothing_of_the_proof() {
    assert_eq!(validate_agent_joining(&agent(1), &None), ValidateCallbackResult::Valid);
    assert_eq!(
        validate_agent_joining(&agent(1), &Some(MembraneProof { bytes: vec![0; 16] })),
        ValidateCallbackResult::Valid
    );
    assert_eq!(
        genesis_self_check(&GenesisSelfCheckData { membrane_proof: None, agent_key: agent(1) }),
        ValidateCallbackResult::Valid
    );
}

#[test]
fn operations_without_entry_or_link_are_valid() {
    let empty = RecordStore::new();
    assert_eq!(validate(&Op::StoreEntry(OpEntry::Other), &empty), ValidateCallbackResult::Valid);
    assert_eq!(validate(&Op::StoreRecord(OpRecord::Other), &empty), ValidateCallbackResult::Valid);
    assert_eq!(validate(&Op::RegisterUpdate(OpUpdate::Other), &empty), ValidateCallbackResult::Valid);
    assert!(dependencies(&Op::StoreRecord(OpRecord::Other)).is_empty());
}

#[test]
fn verdict_rests_on_the_dependencies_alone() {
    // Two stores that differ, but not in what the operation depends on.
    let small = {
        let mut store = RecordStore::new();
        store.insert(record_of(action_hash(10), EntryTypes::Happ(happ("X"))));
        store
    };
    let large = catalogue();
    let op = Op::StoreEntry(OpEntry::CreateEntry {
        app_entry: EntryTypes::HappVersion(happ_version(action_hash(10), "1.0")),
        action: create(EntryType::App),
    });
    assert_eq!(validate(&op, &small), validate(&op, &large));
    // The same verdict every time.
    assert_eq!(validate(&op, &large), validate(&op, &large));
}

#[test]
fn rejections_say_why() {
    let h = action_hash(1);
    let cases = [
        (
            Rejection::MissingDependency(h),
            ErrorKind::MissingDependency,
            "Missing dependency: the referenced action does not resolve",
        ),
        (
            Rejection::TypeMismatch(h, Expected::Entry(UnitEntryTypes::Happ)),
            ErrorKind::TypeMismatch,
            "Linked action must reference an entry of type Happ",
        ),
        (
            Rejection::TypeMismatch(h, Expected::Entry(UnitEntryTypes::HappVersion)),
            ErrorKind::TypeMismatch,
            "Linked action must reference an entry of type HappVersion",
        ),
        (
            Rejection::TypeMismatch(h, Expected::SchemaEntry),
            ErrorKind::TypeMismatch,
            "Original app entry must be one of the defined entry types for this zome",
        ),
        (
            Rejection::TypeMismatch(h, Expected::StoredEntry),
            ErrorKind::TypeMismatch,
            "Original record must contain an entry",
        ),
        (
            Rejection::TypeMismatch(h, Expected::EntryCreation),
            ErrorKind::TypeMismatch,
            "Original action must be a Create or Update action",
        ),
        (
            Rejection::ImmutableEntry(UnitEntryTypes::Happ),
            ErrorKind::ImmutableViolation,
            "Happs cannot be deleted",
        ),
        (
            Rejection::ImmutableLink(LinkTypes::HappUnpublished),
            ErrorKind::ImmutableViolation,
            "HappUnpublished links cannot be deleted",
        ),
        (
            Rejection::MalformedReference(AnyLinkableHash::Entry(entry_hash(1))),
            ErrorKind::MalformedReference,
            "No action hash associated with link",
        ),
    ];
    for (rejection, kind, message) in cases {
        assert_eq!(rejection.kind(), kind);
        assert_eq!(rejection.message(), message);
    }
    assert_eq!(ValidateCallbackResult::Valid.rejection(), None);
    assert!(ValidateCallbackResult::Valid.is_valid());
}
