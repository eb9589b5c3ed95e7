use happs::action::LinkTag;
use happs::action::Timestamp;
use happs::details::all_deletes;
use happs::details::found_or;
use happs::details::oldest_delete;
use happs::details::original_record;
use happs::details::Details;
use happs::details::RecordDetails;
use happs::error::HappError;
use happs::happ::create_happ;
use happs::happ::get_all_deletes_for_happ;
use happs::happ::get_all_revisions_for_happ;
use happs::happ::get_latest_happ;
use happs::happ::get_oldest_delete_for_happ;
use happs::happ::get_original_happ;
use happs::happ::get_revision_hashes_for_happ;
use happs::happ::update_happ;
use happs::happ::updated_happ;
use happs::happ::Happ;
use happs::happ::UpdateHappInput;
use happs::happ_release::create_happ_release;
use happs::happ_release::created_happ_release;
use happs::happ_release::get_all_revisions_for_happ_release;
use happs::happ_release::get_happ_releases_for_happ;
use happs::happ_release::get_latest_happ_release;
use happs::happ_release::get_original_happ_release;
use happs::happ_release::get_revision_hashes_for_happ_release;
use happs::happ_release::update_happ_release;
use happs::happ_release::updated_happ_release;
use happs::happ_release::HappRelease;
use happs::happ_release::UpdateHappReleaseInput;
use happs::happ_version::create_happ_version;
use happs::happ_version::created_happ_version;
use happs::happ_version::get_all_revisions_for_happ_version;
use happs::happ_version::get_happ_versions_for_happ;
use happs::happ_version::get_latest_happ_version;
use happs::happ_version::get_original_happ_version;
use happs::happ_version::get_revision_hashes_for_happ_version;
use happs::happ_version::update_happ_version;
use happs::happ_version::updated_happ_version;
use happs::happ_version::HappVersion;
use happs::happ_version::UpdateHappVersionInput;
use happs::hash::ActionHash;
use happs::hash::AgentPubKey;
use happs::hash::AnyLinkableHash;
use happs::hash::EntryHash;
use happs::link::CreateLinkInput;
use happs::link::Link;
use happs::schema::LinkTypes;
use happs::schema::UnitEntryTypes;
use happs::versioning::all_revisions;
use happs::versioning::latest_link;
use happs::versioning::latest_revision;
use happs::versioning::revision_hashes;
use happs::versioning::update_link;

fn action_hash(n: u8) -> ActionHash {
    ActionHash::from_raw_36([n; 36])
}

fn address(n: u8) -> AnyLinkableHash {
    AnyLinkableHash::Action(action_hash(n))
}

fn link(base: u8, target: u8, timestamp: i64, link_type: LinkTypes) -> Link {
    Link {
        author: AgentPubKey::from_raw_36([1; 36]),
        base: address(base),
        target: address(target),
        timestamp: Timestamp(timestamp),
        link_type: Some(link_type),
        tag: LinkTag::empty(),
        create_link_hash: action_hash(target.wrapping_add(100)),
    }
}

#[test]
fn later_timestamp_is_latest() {
    let (o, a, b) = (1u8, 2u8, 3u8);
    let l1 = link(o, a, 10, LinkTypes::HappUpdates);
    let l2 = link(o, b, 20, LinkTypes::HappUpdates);
    assert_eq!(get_latest_happ(action_hash(o), &vec![l1.clone(), l2.clone()]), Ok(action_hash(b)));
    // The order of the list plays no part where the timestamps differ.
    assert_eq!(get_latest_happ(action_hash(o), &vec![l2, l1]), Ok(action_hash(b)));
}

#[test]
fn without_updates_the_original_is_latest() {
    assert_eq!(get_latest_happ(action_hash(1), &vec![]), Ok(action_hash(1)));
    assert_eq!(get_latest_happ_version(action_hash(1), &vec![]), Ok(action_hash(1)));
    assert_eq!(get_latest_happ_release(action_hash(1), &vec![]), Ok(action_hash(1)));
    assert_eq!(latest_link(&vec![], &address(1), LinkTypes::HappUpdates), None);
}

#[test]
fn equal_timestamps_take_the_last_listed() {
    let links = vec![
        link(1, 2, 50, LinkTypes::HappUpdates),
        link(1, 3, 70, LinkTypes::HappUpdates),
        link(1, 4, 70, LinkTypes::HappUpdates),
        link(1, 5, 60, LinkTypes::HappUpdates),
    ];
    assert_eq!(latest_link(&links, &address(1), LinkTypes::HappUpdates), Some(2));
    assert_eq!(get_latest_happ(action_hash(1), &links), Ok(action_hash(4)));
}

#[test]
fn a_slow_author_can_show_over_a_fast_one() {
    // Two authors update the same original. Both links start at the original,
    // so the later timestamp shows, whoever wrote first.
    let mut fast = link(1, 2, 100, LinkTypes::HappVersionUpdates);
    fast.author = AgentPubKey::from_raw_36([7; 36]);
    let mut slow = link(1, 3, 101, LinkTypes::HappVersionUpdates);
    slow.author = AgentPubKey::from_raw_36([8; 36]);
    let links = vec![slow, fast];
    assert_eq!(get_latest_happ_version(action_hash(1), &links), Ok(action_hash(3)));
    // Both stay reachable.
    assert_eq!(
        get_revision_hashes_for_happ_version(action_hash(1), &links),
        Ok(vec![action_hash(3), action_hash(2)])
    );
}

#[test]
fn only_update_links_of_the_original_count() {
    let links = vec![
        // An update of another original.
        link(9, 2, 900, LinkTypes::HappUpdates),
        // A link of another type from the same original.
        link(1, 3, 800, LinkTypes::HappToHappVersions),
        link(1, 4, 10, LinkTypes::HappUpdates),
        // A link of a type that the schema does not define.
        Link { link_type: None, ..link(1, 5, 700, LinkTypes::HappUpdates) },
    ];
    assert_eq!(get_latest_happ(action_hash(1), &links), Ok(action_hash(4)));
    assert_eq!(get_revision_hashes_for_happ(action_hash(1), &links), Ok(vec![action_hash(4)]));
    assert_eq!(get_latest_happ(action_hash(9), &links), Ok(action_hash(2)));
    assert_eq!(get_latest_happ_version(action_hash(1), &links), Ok(action_hash(1)));
    assert_eq!(latest_revision(action_hash(1), &links, UnitEntryTypes::HappRelease), Ok(action_hash(1)));
}

#[test]
fn negative_timestamps_are_ordered_as_numbers() {
    let links = vec![
        link(1, 2, -5, LinkTypes::HappReleaseUpdates),
        link(1, 3, i64::MIN, LinkTypes::HappReleaseUpdates),
        link(1, 4, -6, LinkTypes::HappReleaseUpdates),
    ];
    assert_eq!(get_latest_happ_release(action_hash(1), &links), Ok(action_hash(2)));
    let links = vec![link(1, 2, i64::MAX, LinkTypes::HappReleaseUpdates), link(1, 3, 0, LinkTypes::HappReleaseUpdates)];
    assert_eq!(get_latest_happ_release(action_hash(1), &links), Ok(action_hash(2)));
}

#[test]
fn latest_link_to_what_is_no_action_fails() {
    let mut stray = link(1, 3, 20, LinkTypes::HappUpdates);
    stray.target = AnyLinkableHash::Entry(EntryHash::from_raw_36([3; 36]));
    let links = vec![link(1, 2, 10, LinkTypes::HappUpdates), stray.clone()];
    assert_eq!(get_latest_happ(action_hash(1), &links), Err(HappError::NoActionHash));
    assert_eq!(HappError::NoActionHash.message(), "No action hash associated with link");
    // It only matters where it is the latest.
    stray.timestamp = Timestamp(5);
    let links = vec![link(1, 2, 10, LinkTypes::HappUpdates), stray];
    assert_eq!(get_latest_happ(action_hash(1), &links), Ok(action_hash(2)));
    // But every link is followed when all revisions are asked for.
    assert_eq!(get_revision_hashes_for_happ(action_hash(1), &links), Err(HappError::NoActionHash));
}

#[test]
fn revisions_follow_the_list_not_the_clock() {
    let links = vec![
        link(1, 4, 300, LinkTypes::HappUpdates),
        link(1, 2, 100, LinkTypes::HappUpdates),
        link(1, 3, 200, LinkTypes::HappUpdates),
    ];
    assert_eq!(
        revision_hashes(action_hash(1), &links, UnitEntryTypes::Happ),
        Ok(vec![action_hash(4), action_hash(2), action_hash(3)])
    );
    assert_eq!(get_revision_hashes_for_happ(action_hash(1), &vec![]), Ok(vec![]));
    assert_eq!(
        get_revision_hashes_for_happ_release(action_hash(1), &links),
        Ok(vec![])
    );
}

#[test]
fn all_revisions_start_with_the_original() {
    assert_eq!(
        all_revisions(Some("r0"), vec![Some("r1"), None, Some("r2")]),
        vec!["r0", "r1", "r2"]
    );
    assert_eq!(get_all_revisions_for_happ(Some("r0"), vec![]), vec!["r0"]);
    assert_eq!(get_all_revisions_for_happ(Some(0), vec![None, None]), vec![0]);
    // Without the original there is nothing, whatever else was found.
    assert_eq!(get_all_revisions_for_happ(None, vec![Some("r1")]), Vec::<&str>::new());
    assert_eq!(get_all_revisions_for_happ_version(Some(1), vec![Some(2)]), vec![1, 2]);
    assert_eq!(get_all_revisions_for_happ_release(Some(1), vec![Some(3), Some(2)]), vec![1, 3, 2]);
}

#[test]
fn updates_are_anchored_to_the_original() {
    let input = UpdateHappInput {
        original_happ_hash: action_hash(1),
        previous_happ_hash: action_hash(2),
        updated_happ: Happ {
            name: "Lorem ipsum 2".to_string(),
            description: "Lorem ipsum 2".to_string(),
            icon: EntryHash::from_raw_36([9; 36]),
        },
    };
    let expected = CreateLinkInput {
        base_address: address(1),
        target_address: address(3),
        link_type: LinkTypes::HappUpdates,
        tag: LinkTag { bytes: vec![] },
    };
    assert_eq!(update_happ(&input, action_hash(3)), expected);
    assert_eq!(update_link(action_hash(1), action_hash(3), UnitEntryTypes::Happ), expected);
    let version = HappVersion {
        happ_hash: action_hash(50),
        version: "2".to_string(),
        changes: "".to_string(),
        web_bundle_hash: EntryHash::from_raw_36([8; 36]),
    };
    let input = UpdateHappVersionInput {
        original_happ_version_hash: action_hash(1),
        previous_happ_version_hash: action_hash(2),
        updated_happ_version: version,
    };
    assert_eq!(
        update_happ_version(&input, action_hash(3)),
        CreateLinkInput { link_type: LinkTypes::HappVersionUpdates, ..expected.clone() }
    );
    let release = HappRelease {
        happ_hash: action_hash(50),
        version: "2".to_string(),
        changes: "".to_string(),
        web_bundle_hash: EntryHash::from_raw_36([8; 36]),
    };
    let input = UpdateHappReleaseInput {
        original_happ_release_hash: action_hash(1),
        previous_happ_release_hash: action_hash(2),
        updated_happ_release: release,
    };
    assert_eq!(
        update_happ_release(&input, action_hash(3)),
        CreateLinkInput { link_type: LinkTypes::HappReleaseUpdates, ..expected }
    );
    assert_eq!(UnitEntryTypes::Happ.updates_link_type(), LinkTypes::HappUpdates);
    assert_eq!(UnitEntryTypes::HappVersion.updates_link_type(), LinkTypes::HappVersionUpdates);
    assert_eq!(UnitEntryTypes::HappRelease.updates_link_type(), LinkTypes::HappReleaseUpdates);
}

#[test]
fn versions_and_releases_are_linked_from_their_happ() {
    let version = HappVersion {
        happ_hash: action_hash(10),
        version: "1.0".to_string(),
        changes: "first".to_string(),
        web_bundle_hash: EntryHash::from_raw_36([8; 36]),
    };
    assert_eq!(
        create_happ_version(&version, action_hash(20)),
        CreateLinkInput {
            base_address: address(10),
            target_address: address(20),
            link_type: LinkTypes::HappToHappVersions,
            tag: LinkTag::empty(),
        }
    );
    let release = HappRelease {
        happ_hash: action_hash(10),
        version: "1.0".to_string(),
        changes: "first".to_string(),
        web_bundle_hash: EntryHash::from_raw_36([8; 36]),
    };
    assert_eq!(
        create_happ_release(&release, action_hash(30)),
        CreateLinkInput {
            base_address: address(10),
            target_address: address(30),
            link_type: LinkTypes::HappToHappReleases,
            tag: LinkTag::empty(),
        }
    );
    let versions = get_happ_versions_for_happ(action_hash(10));
    assert_eq!(versions.base_address, address(10));
    assert_eq!(versions.link_type, LinkTypes::HappToHappVersions);
    let releases = get_happ_releases_for_happ(action_hash(10));
    assert_eq!(releases.base_address, address(10));
    assert_eq!(releases.link_type, LinkTypes::HappToHappReleases);
    assert_eq!(UnitEntryTypes::Happ.ownership_link_type(), None);
    assert_eq!(UnitEntryTypes::HappVersion.ownership_link_type(), Some(LinkTypes::HappToHappVersions));
    assert_eq!(UnitEntryTypes::HappRelease.ownership_link_type(), Some(LinkTypes::HappToHappReleases));
}

#[test]
fn a_write_that_cannot_be_read_back_fails() {
    assert_eq!(create_happ(Some("record")), Ok("record"));
    let cases: [(Result<&str, HappError>, HappError, &str); 6] = [
        (
            create_happ(None),
            HappError::CreatedNotFound(UnitEntryTypes::Happ),
            "Could not find the newly created Happ",
        ),
        (
            created_happ_version(None),
            HappError::CreatedNotFound(UnitEntryTypes::HappVersion),
            "Could not find the newly created HappVersion",
        ),
        (
            created_happ_release(None),
            HappError::CreatedNotFound(UnitEntryTypes::HappRelease),
            "Could not find the newly created HappRelease",
        ),
        (
            updated_happ(None),
            HappError::UpdatedNotFound(UnitEntryTypes::Happ),
            "Could not find the newly updated Happ",
        ),
        (
            updated_happ_version(None),
            HappError::UpdatedNotFound(UnitEntryTypes::HappVersion),
            "Could not find the newly updated HappVersion",
        ),
        (
            updated_happ_release(None),
            HappError::UpdatedNotFound(UnitEntryTypes::HappRelease),
            "Could not find the newly updated HappRelease",
        ),
    ];
    for (result, error, message) in cases {
        assert_eq!(result, Err(error));
        assert_eq!(error.message(), message);
    }
    assert_eq!(created_happ_version(Some(1)), Ok(1));
    assert_eq!(updated_happ_release(Some(2)), Ok(2));
    assert_eq!(found_or(Some(3), HappError::NoActionHash), Ok(3));
    assert_eq!(found_or::<u8>(None, HappError::NoActionHash), Err(HappError::NoActionHash));
}

#[test]
fn original_is_read_from_record_details() {
    let details: Details<&str, u8> =
        Details::Record(RecordDetails { record: "r0", deletes: vec![], updates: vec![7] });
    assert_eq!(get_original_happ(Some(details.clone())), Ok(Some("r0")));
    assert_eq!(get_original_happ_version(Some(details.clone())), Ok(Some("r0")));
    assert_eq!(get_original_happ_release(Some(details.clone())), Ok(Some("r0")));
    assert_eq!(original_record(Some(details)), Ok(Some("r0")));
    assert_eq!(get_original_happ::<&str, u8>(None), Ok(None));
    assert_eq!(
        get_original_happ::<&str, u8>(Some(Details::Entry)),
        Err(HappError::MalformedGetDetailsResponse)
    );
    assert_eq!(
        HappError::MalformedGetDetailsResponse.message(),
        "Malformed get details response"
    );
}

#[test]
fn deletes_are_read_from_record_details() {
    let details: Details<&str, &str> =
        Details::Record(RecordDetails { record: "r0", deletes: vec!["d0"], updates: vec![] });
    let deletes = get_all_deletes_for_happ(Some(details.clone())).unwrap().unwrap();
    assert_eq!(deletes.len(), 1);
    assert_eq!(deletes[0], "d0");
    assert_eq!(all_deletes(Some(details)), Ok(Some(vec!["d0"])));
    assert_eq!(get_all_deletes_for_happ::<&str, &str>(None), Ok(None));
    assert_eq!(
        get_all_deletes_for_happ::<&str, &str>(Some(Details::Entry)),
        Err(HappError::MalformedDetails)
    );
    assert_eq!(HappError::MalformedDetails.message(), "Malformed details");
}

#[test]
fn oldest_delete_is_the_first_of_the_smallest() {
    let at = |values: &[i64]| values.iter().map(|v| Timestamp(*v)).collect::<Vec<Timestamp>>();
    assert_eq!(get_oldest_delete_for_happ(&at(&[])), None);
    assert_eq!(get_oldest_delete_for_happ(&at(&[5])), Some(0));
    assert_eq!(get_oldest_delete_for_happ(&at(&[5, 3, 9])), Some(1));
    assert_eq!(get_oldest_delete_for_happ(&at(&[5, 3, 9, 3])), Some(1));
    assert_eq!(oldest_delete(&at(&[7, 7, 7])), Some(0));
    assert_eq!(oldest_delete(&at(&[0, -1, i64::MIN, i64::MAX])), Some(2));
}
