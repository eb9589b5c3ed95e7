//! The mark that a hApp is unpublished.
//!
//! A hApp is never changed to unpublish it. A link from the hApp to itself
//! marks it as unpublished, and the hApp is published while no such link
//! exists.

use vstd::prelude::*;
use crate::action::CreateLink;
use crate::action::DeleteLink;
use crate::action::LinkTag;
use crate::error::HappError;
use crate::hash::ActionHash;
use crate::hash::AnyLinkableHash;
use crate::link::anchored_links;
use crate::link::anchored_links_are_the_anchored;
use crate::link::CreateLinkInput;
use crate::link::GetLinksInput;
use crate::link::has_anchored;
use crate::link::Link;
use crate::rules::create_link_rule;
use crate::rules::delete_link_rule;
use crate::schema::LinkTypes;
use crate::store::RecordStore;
use crate::verdict::ValidateCallbackResult;

verus! {

/// The mark is admitted as it is: that it leads from a hApp to itself is
/// left to those who write it.
pub fn validate_create_link_happ_unpublished(
    action: &CreateLink,
    base_address: &AnyLinkableHash,
    target_address: &AnyLinkableHash,
    tag: &LinkTag,
    store: &RecordStore,
) -> (r: ValidateCallbackResult)
    ensures
        r == create_link_rule(store@, LinkTypes::HappUnpublished, *base_address, *target_address),
        r is Valid,
{
    ValidateCallbackResult::Valid
}

/// The mark is the one link that may be deleted.
pub fn validate_delete_link_happ_unpublished(
    action: &DeleteLink,
    original_action: &CreateLink,
    base: &AnyLinkableHash,
    target: &AnyLinkableHash,
    tag: &LinkTag,
) -> (r: ValidateCallbackResult)
    ensures
        r == delete_link_rule(LinkTypes::HappUnpublished),
        r is Valid,
{
    ValidateCallbackResult::Valid
}

/// The marks on a hApp among the links listed, in the order of the list.
pub open spec fn unpublished_marks(happ_hash: ActionHash, links: Seq<Link>) -> Seq<Link> {
    anchored_links(links, AnyLinkableHash::Action(happ_hash), LinkTypes::HappUnpublished)
}

/// The actions that created the links, one for each link.
pub open spec fn creators(links: Seq<Link>) -> Seq<ActionHash> {
    Seq::new(links.len(), |i: int| links[i].create_link_hash)
}

/// Whether a link that is to be created is the mark on a hApp: an untagged
/// link of the mark's type from the hApp to itself.
pub open spec fn is_mark_on(input: CreateLinkInput, happ_hash: ActionHash) -> bool {
    &&& input.base_address == AnyLinkableHash::Action(happ_hash)
    &&& input.target_address == AnyLinkableHash::Action(happ_hash)
    &&& input.link_type == LinkTypes::HappUnpublished
    &&& input.tag.bytes@ == Seq::<u8>::empty()
}

/// The link that marks a hApp as unpublished: from the hApp to itself.
/// Whether the hApp is marked already plays no part, so each call asks for
/// one more mark.
pub fn unpublish_happ(happ_hash: ActionHash) -> (r: CreateLinkInput)
    ensures
        is_mark_on(r, happ_hash),
{
    CreateLinkInput::untagged(
        AnyLinkableHash::from_action_hash(happ_hash),
        AnyLinkableHash::from_action_hash(happ_hash),
        LinkTypes::HappUnpublished,
    )
}

/// The question that lists the marks on a hApp.
pub fn get_happ_unpublished_links(happ_hash: ActionHash) -> (r: GetLinksInput)
    ensures
        r.base_address == AnyLinkableHash::Action(happ_hash),
        r.link_type == LinkTypes::HappUnpublished,
{
    GetLinksInput {
        base_address: AnyLinkableHash::from_action_hash(happ_hash),
        link_type: LinkTypes::HappUnpublished,
    }
}

/// Whether a hApp is unpublished: whether any of the links listed marks it.
pub fn is_unpublished(happ_hash: ActionHash, links: &Vec<Link>) -> (r: bool)
    ensures
        r == (unpublished_marks(happ_hash, links@).len() > 0),
{
    let base = AnyLinkableHash::from_action_hash(happ_hash);
    let mut i: usize = 0;
    while i < links.len()
        invariant
            i <= links@.len(),
            base == AnyLinkableHash::Action(happ_hash),
            forall|j: int|
                0 <= j < i ==> !(#[trigger] links@[j]).anchored(base, LinkTypes::HappUnpublished),
        decreases links@.len() - i,
    {
        if links[i].is_anchored(&base, LinkTypes::HappUnpublished) {
            proof {
                assert(has_anchored(links@, base, LinkTypes::HappUnpublished));
                anchored_links_are_the_anchored(links@, base, LinkTypes::HappUnpublished);
            }
            return true;
        }
        i = i + 1;
    }
    proof {
        assert(!has_anchored(links@, base, LinkTypes::HappUnpublished));
        anchored_links_are_the_anchored(links@, base, LinkTypes::HappUnpublished);
    }
    false
}

/// What republishing a hApp has to delete: every mark on it, each named by
/// the action that created it, in the order in which the index lists them.
/// Fails where the hApp carries no mark: a hApp that is published cannot be
/// republished.
pub fn republish_happ(happ_hash: ActionHash, links: &Vec<Link>) -> (r: Result<
    Vec<ActionHash>,
    HappError,
>)
    ensures
        match r {
            Ok(deletes) => deletes@ == creators(unpublished_marks(happ_hash, links@))
                && deletes@.len() > 0,
            Err(error) => error == HappError::NotUnpublished && unpublished_marks(
                happ_hash,
                links@,
            ).len() == 0,
        },
{
    let base = AnyLinkableHash::from_action_hash(happ_hash);
    let mut deletes: Vec<ActionHash> = Vec::new();
    let mut i: usize = 0;
    while i < links.len()
        invariant
            i <= links@.len(),
            base == AnyLinkableHash::Action(happ_hash),
            deletes@ == creators(unpublished_marks(happ_hash, links@.take(i as int))),
        decreases links@.len() - i,
    {
        proof {
            assert(links@.take(i + 1).drop_last() =~= links@.take(i as int));
            assert(links@.take(i + 1).last() == links@[i as int]);
        }
        if links[i].is_anchored(&base, LinkTypes::HappUnpublished) {
            deletes.push(links[i].create_link_hash);
            proof {
                let before = unpublished_marks(happ_hash, links@.take(i as int));
                let after = unpublished_marks(happ_hash, links@.take(i + 1));
                assert(after == before.push(links@[i as int]));
                assert(deletes@ =~= creators(after));
            }
        }
        i = i + 1;
    }
    proof {
        assert(links@.take(i as int) =~= links@);
    }
    if deletes.len() == 0 {
        Err(HappError::NotUnpublished)
    } else {
        Ok(deletes)
    }
}

/// Unpublishing is not idempotent: each mark that is asked for and written
/// adds to the marks that are there, so a hApp that is unpublished twice
/// carries two marks more than before.
pub proof fn unpublish_adds_a_mark(
    happ_hash: ActionHash,
    links: Seq<Link>,
    asked: CreateLinkInput,
    first: Link,
    second: Link,
)
    requires
        is_mark_on(asked, happ_hash),
        first.realizes(asked),
        second.realizes(asked),
    ensures
        unpublished_marks(happ_hash, links.push(first)) == unpublished_marks(happ_hash, links).push(
            first,
        ),
        unpublished_marks(happ_hash, links.push(first).push(second)).len() == unpublished_marks(
            happ_hash,
            links,
        ).len() + 2,
{
    assert(links.push(first).drop_last() =~= links);
    assert(links.push(first).push(second).drop_last() =~= links.push(first));
}

/// Republishing clears a hApp: once every link that was created by one of
/// the actions named for deletion is gone, no mark is left on the hApp.
pub proof fn republish_leaves_no_mark(happ_hash: ActionHash, links: Seq<Link>, remaining: Seq<Link>)
    requires
        forall|i: int|
            0 <= i < remaining.len() ==> links.contains(#[trigger] remaining[i]) && !creators(
                unpublished_marks(happ_hash, links),
            ).contains(remaining[i].create_link_hash),
    ensures
        unpublished_marks(happ_hash, remaining).len() == 0,
{
    let base = AnyLinkableHash::Action(happ_hash);
    let marks = unpublished_marks(happ_hash, links);
    anchored_links_are_the_anchored(links, base, LinkTypes::HappUnpublished);
    anchored_links_are_the_anchored(remaining, base, LinkTypes::HappUnpublished);
    if has_anchored(remaining, base, LinkTypes::HappUnpublished) {
        let i = choose|i: int|
            0 <= i < remaining.len() && (#[trigger] remaining[i]).anchored(
                base,
                LinkTypes::HappUnpublished,
            );
        assert(links.contains(remaining[i]));
        let j = choose|j: int| 0 <= j < links.len() && links[j] == remaining[i];
        assert(links[j].anchored(base, LinkTypes::HappUnpublished));
        assert(marks.contains(links[j]));
        let k = choose|k: int| 0 <= k < marks.len() && marks[k] == links[j];
        assert(creators(marks)[k] == remaining[i].create_link_hash);
        assert(false);
    }
}

} // verus!
