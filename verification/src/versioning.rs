//! Revisions of an entry.
//!
//! An entry is never changed. An update writes a new entry and ties it to the
//! original by a link from the original action to the new one. Every revision
//! is tied to the original, not to the revision before it, so the revisions of
//! an entry are siblings: the latest is the one whose link carries the
//! greatest timestamp, and no chain is walked to find it. Two authors who
//! update the same original both succeed, and the later timestamp shows.
//! Nothing makes timestamps unique: which of two updates with the same
//! timestamp shows is left to the order in which the index lists their links.

use vstd::prelude::*;
use crate::error::HappError;
use crate::hash::ActionHash;
use crate::hash::AnyLinkableHash;
use crate::link::anchored_links;
use crate::link::anchored_links_of_prefix;
use crate::link::CreateLinkInput;
use crate::link::GetLinksInput;
use crate::link::has_anchored;
use crate::link::Link;
use crate::schema::LinkTypes;
use crate::schema::UnitEntryTypes;

verus! {

/// Whether the link at `i` is the latest among the first `n` links: it is of
/// the given type and starts at the given address, none of those carries a
/// greater timestamp, and those after it carry a smaller one.
pub open spec fn is_latest_among(
    links: Seq<Link>,
    base: AnyLinkableHash,
    link_type: LinkTypes,
    n: int,
    i: int,
) -> bool {
    &&& 0 <= i < n <= links.len()
    &&& links[i].anchored(base, link_type)
    &&& forall|j: int|
        0 <= j < n && (#[trigger] links[j]).anchored(base, link_type) ==> links[j].timestamp.0
            <= links[i].timestamp.0
    &&& forall|j: int|
        i < j < n && (#[trigger] links[j]).anchored(base, link_type) ==> links[j].timestamp.0
            < links[i].timestamp.0
}

/// Whether the link at `i` is the latest of all.
pub open spec fn is_latest(
    links: Seq<Link>,
    base: AnyLinkableHash,
    link_type: LinkTypes,
    i: int,
) -> bool {
    is_latest_among(links, base, link_type, links.len() as int, i)
}

/// The position of the latest link, where there is one.
pub open spec fn latest_position(
    links: Seq<Link>,
    base: AnyLinkableHash,
    link_type: LinkTypes,
) -> Option<int> {
    if has_anchored(links, base, link_type) {
        Some(choose|i: int| is_latest(links, base, link_type, i))
    } else {
        None
    }
}

/// The hash under which the latest revision of an entry is found: the target
/// of the latest update link, or the original where the entry was never
/// updated.
pub open spec fn latest_revision_of(
    original: ActionHash,
    links: Seq<Link>,
    entry_type: UnitEntryTypes,
) -> Result<ActionHash, HappError> {
    match latest_position(links, AnyLinkableHash::Action(original), entry_type.updates_link()) {
        None => Ok(original),
        Some(i) => match links[i].target.action_hash() {
            Some(hash) => Ok(hash),
            None => Err(HappError::NoActionHash),
        },
    }
}

/// At most one link is the latest.
pub proof fn latest_is_unique(
    links: Seq<Link>,
    base: AnyLinkableHash,
    link_type: LinkTypes,
    i: int,
    j: int,
)
    requires
        is_latest(links, base, link_type, i),
        is_latest(links, base, link_type, j),
    ensures
        i == j,
{
    if i < j {
        assert(links[j].timestamp.0 < links[i].timestamp.0);
        assert(links[i].timestamp.0 <= links[j].timestamp.0);
    } else if j < i {
        assert(links[i].timestamp.0 < links[j].timestamp.0);
        assert(links[j].timestamp.0 <= links[i].timestamp.0);
    }
}

/// Finds the latest of the links of one type that start at one address: the
/// one with the greatest timestamp and, among several with that timestamp,
/// the one that the index lists last. Returns its position, or `None` where
/// there is no such link.
pub fn latest_link(links: &Vec<Link>, base: &AnyLinkableHash, link_type: LinkTypes) -> (r: Option<
    usize,
>)
    ensures
        match r {
            Some(i) => is_latest(links@, *base, link_type, i as int) && latest_position(
                links@,
                *base,
                link_type,
            ) == Some(i as int),
            None => !has_anchored(links@, *base, link_type),
        },
{
    let mut best: Option<usize> = None;
    let mut i: usize = 0;
    while i < links.len()
        invariant
            i <= links@.len(),
            match best {
                Some(b) => is_latest_among(links@, *base, link_type, i as int, b as int),
                None => forall|j: int|
                    0 <= j < i ==> !(#[trigger] links@[j]).anchored(*base, link_type),
            },
        decreases links@.len() - i,
    {
        if links[i].is_anchored(base, link_type) {
            let newer = match best {
                None => true,
                Some(b) => links[b].timestamp.0 <= links[i].timestamp.0,
            };
            if newer {
                best = Some(i);
            }
        }
        i = i + 1;
    }
    proof {
        match best {
            Some(b) => {
                assert(is_latest(links@, *base, link_type, b as int));
                assert(has_anchored(links@, *base, link_type));
                let c = choose|c: int| is_latest(links@, *base, link_type, c);
                latest_is_unique(links@, *base, link_type, b as int, c);
            },
            None => {},
        }
    }
    best
}

/// Finds the hash under which the latest revision of an entry is found.
///
/// `links` is what the link index lists; of these only the update links of
/// the entry's type that start at `original` count. Fails where the latest
/// link leads to something that is not an action.
pub fn latest_revision(original: ActionHash, links: &Vec<Link>, entry_type: UnitEntryTypes) -> (r:
    Result<ActionHash, HappError>)
    ensures
        r == latest_revision_of(original, links@, entry_type),
{
    let base = AnyLinkableHash::from_action_hash(original);
    match latest_link(links, &base, entry_type.updates_link_type()) {
        None => Ok(original),
        Some(i) => match links[i].target.into_action_hash() {
            Some(hash) => Ok(hash),
            None => Err(HappError::NoActionHash),
        },
    }
}

/// Whether every link leads to an action.
pub open spec fn all_lead_to_actions(links: Seq<Link>) -> bool {
    forall|i: int| 0 <= i < links.len() ==> (#[trigger] links[i]).target.action_hash().is_some()
}

/// The action hashes that the links lead to.
pub open spec fn target_hashes(links: Seq<Link>) -> Seq<ActionHash> {
    Seq::new(links.len(), |i: int| links[i].target.action_hash().unwrap())
}

/// The hashes under which the revisions of an entry are found, in the order
/// in which the index lists their links, or the failure where one of the
/// links leads to something that is not an action.
pub open spec fn revisions_of(
    original: ActionHash,
    links: Seq<Link>,
    entry_type: UnitEntryTypes,
) -> Result<Seq<ActionHash>, HappError> {
    let updates = anchored_links(
        links,
        AnyLinkableHash::Action(original),
        entry_type.updates_link(),
    );
    if all_lead_to_actions(updates) {
        Ok(target_hashes(updates))
    } else {
        Err(HappError::NoActionHash)
    }
}

/// Lists the hashes under which the revisions of an entry are found.
///
/// `links` is what the link index lists; of these only the update links of
/// the entry's type that start at `original` count, and they are followed in
/// the order of the list, not in the order of their timestamps.
pub fn revision_hashes(original: ActionHash, links: &Vec<Link>, entry_type: UnitEntryTypes) -> (r:
    Result<Vec<ActionHash>, HappError>)
    ensures
        match r {
            Ok(hashes) => revisions_of(original, links@, entry_type) == Ok::<
                Seq<ActionHash>,
                HappError,
            >(hashes@),
            Err(error) => revisions_of(original, links@, entry_type) == Err::<
                Seq<ActionHash>,
                HappError,
            >(error),
        },
{
    let base = AnyLinkableHash::from_action_hash(original);
    let link_type = entry_type.updates_link_type();
    let mut hashes: Vec<ActionHash> = Vec::new();
    let mut i: usize = 0;
    while i < links.len()
        invariant
            i <= links@.len(),
            base == AnyLinkableHash::Action(original),
            link_type == entry_type.updates_link(),
            all_lead_to_actions(anchored_links(links@.take(i as int), base, link_type)),
            hashes@ == target_hashes(anchored_links(links@.take(i as int), base, link_type)),
        decreases links@.len() - i,
    {
        proof {
            assert(links@.take(i + 1).drop_last() =~= links@.take(i as int));
            assert(links@.take(i + 1).last() == links@[i as int]);
        }
        if links[i].is_anchored(&base, link_type) {
            match links[i].target.into_action_hash() {
                Some(hash) => {
                    hashes.push(hash);
                    proof {
                        let before = anchored_links(links@.take(i as int), base, link_type);
                        let after = anchored_links(links@.take(i + 1), base, link_type);
                        assert(after == before.push(links@[i as int]));
                        assert(hashes@ =~= target_hashes(after));
                    }
                },
                None => {
                    proof {
                        let after = anchored_links(links@.take(i + 1), base, link_type);
                        assert(after.last() == links@[i as int]);
                        anchored_links_of_prefix(links@, base, link_type, i + 1);
                        let whole = anchored_links(links@, base, link_type);
                        assert(whole[after.len() - 1] == after.last());
                        assert(!all_lead_to_actions(whole));
                    }
                    return Err(HappError::NoActionHash);
                },
            }
        }
        i = i + 1;
    }
    proof {
        assert(links@.take(i as int) =~= links@);
    }
    Ok(hashes)
}

/// The values that are present, in their order.
pub open spec fn present<R>(items: Seq<Option<R>>) -> Seq<R>
    decreases items.len(),
{
    if items.len() == 0 {
        Seq::empty()
    } else {
        let before = present(items.drop_last());
        match items.last() {
            Some(item) => before.push(item),
            None => before,
        }
    }
}

/// Puts the revisions of an entry together: the original first, whatever its
/// timestamp, then every revision that was found, in the order in which they
/// were asked for. Where the original itself is not found there are no
/// revisions.
pub fn all_revisions<R>(original: Option<R>, revisions: Vec<Option<R>>) -> (r: Vec<R>)
    ensures
        r@ == (match original {
            Some(first) => seq![first] + present(revisions@),
            None => Seq::empty(),
        }),
{
    let mut records: Vec<R> = Vec::new();
    let first = match original {
        Some(first) => first,
        None => {
            return records;
        },
    };
    let ghost head = first;
    records.push(first);
    assert(records@ =~= seq![head] + present(revisions@.take(0))) by {
        assert(revisions@.take(0) =~= Seq::<Option<R>>::empty());
    }
    let ghost all = revisions@;
    for revision in it: revisions
        invariant
            it.seq() == all,
            records@ == seq![head] + present(all.take(it.index() as int)),
    {
        proof {
            let i = it.index() as int;
            assert(all.take(i + 1).drop_last() =~= all.take(i));
            assert(all.take(i + 1).last() == all[i]);
        }
        match revision {
            Some(record) => {
                records.push(record);
                assert(records@ =~= seq![head] + present(all.take(it.index() + 1)));
            },
            None => {},
        }
    }
    assert(all.take(all.len() as int) =~= all);
    records
}

/// The question that lists the update links of an entry: the links of the
/// entry type's update link type that start at the original action.
pub fn get_update_links(original: ActionHash, entry_type: UnitEntryTypes) -> (r: GetLinksInput)
    ensures
        r.base_address == AnyLinkableHash::Action(original),
        r.link_type == entry_type.updates_link(),
{
    GetLinksInput {
        base_address: AnyLinkableHash::from_action_hash(original),
        link_type: entry_type.updates_link_type(),
    }
}

/// The link that ties a revision to its original: it starts at the original
/// action, not at the revision that was updated.
pub fn update_link(original: ActionHash, revision: ActionHash, entry_type: UnitEntryTypes) -> (r:
    CreateLinkInput)
    ensures
        r.base_address == AnyLinkableHash::Action(original),
        r.target_address == AnyLinkableHash::Action(revision),
        r.link_type == entry_type.updates_link(),
        r.tag.bytes@ == Seq::<u8>::empty(),
{
    CreateLinkInput::untagged(
        AnyLinkableHash::from_action_hash(original),
        AnyLinkableHash::from_action_hash(revision),
        entry_type.updates_link_type(),
    )
}

/// The latest revision is decided by the timestamps alone: where one update
/// link of an entry carries a greater timestamp than every other, the entry's
/// latest revision is found where that link leads, wherever in the list the
/// link stands.
pub proof fn greatest_timestamp_is_latest(
    original: ActionHash,
    links: Seq<Link>,
    entry_type: UnitEntryTypes,
    i: int,
)
    requires
        0 <= i < links.len(),
        links[i].anchored(AnyLinkableHash::Action(original), entry_type.updates_link()),
        forall|j: int|
            0 <= j < links.len() && j != i && (#[trigger] links[j]).anchored(
                AnyLinkableHash::Action(original),
                entry_type.updates_link(),
            ) ==> links[j].timestamp.0 < links[i].timestamp.0,
    ensures
        latest_position(links, AnyLinkableHash::Action(original), entry_type.updates_link())
            == Some(i),
        latest_revision_of(original, links, entry_type) == (match links[i].target.action_hash() {
            Some(hash) => Ok::<ActionHash, HappError>(hash),
            None => Err::<ActionHash, HappError>(HappError::NoActionHash),
        }),
{
    let base = AnyLinkableHash::Action(original);
    let link_type = entry_type.updates_link();
    assert(is_latest(links, base, link_type, i));
    assert(has_anchored(links, base, link_type));
    let c = choose|c: int| is_latest(links, base, link_type, c);
    latest_is_unique(links, base, link_type, i, c);
}

/// Of two updates of one original, the one with the later timestamp is the
/// latest revision, in whichever order the index lists their links.
pub proof fn later_update_wins(
    original: ActionHash,
    entry_type: UnitEntryTypes,
    earlier: Link,
    later: Link,
    revision: ActionHash,
)
    requires
        earlier.anchored(AnyLinkableHash::Action(original), entry_type.updates_link()),
        later.anchored(AnyLinkableHash::Action(original), entry_type.updates_link()),
        earlier.timestamp.0 < later.timestamp.0,
        later.target == AnyLinkableHash::Action(revision),
    ensures
        latest_revision_of(original, seq![earlier, later], entry_type) == Ok::<
            ActionHash,
            HappError,
        >(revision),
        latest_revision_of(original, seq![later, earlier], entry_type) == Ok::<
            ActionHash,
            HappError,
        >(revision),
{
    greatest_timestamp_is_latest(original, seq![earlier, later], entry_type, 1);
    greatest_timestamp_is_latest(original, seq![later, earlier], entry_type, 0);
}

/// An entry that was never updated is its own latest revision.
pub proof fn never_updated_is_latest(
    original: ActionHash,
    links: Seq<Link>,
    entry_type: UnitEntryTypes,
)
    requires
        !has_anchored(links, AnyLinkableHash::Action(original), entry_type.updates_link()),
    ensures
        latest_revision_of(original, links, entry_type) == Ok::<ActionHash, HappError>(original),
{
}

/// The original comes first among all revisions, and every revision that
/// was found follows it.
pub proof fn original_comes_first<R>(original: R, revisions: Seq<Option<R>>)
    ensures
        (seq![original] + present(revisions)).first() == original,
        (seq![original] + present(revisions)).len() == 1 + present(revisions).len(),
        present(revisions).len() <= revisions.len(),
    decreases revisions.len(),
{
    if revisions.len() > 0 {
        original_comes_first(original, revisions.drop_last());
    }
}

} // verus!
