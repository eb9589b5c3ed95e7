//! Links: the directed, typed edges of the graph.

use vstd::prelude::*;
use crate::action::LinkTag;
use crate::action::Timestamp;
use crate::hash::ActionHash;
use crate::hash::AgentPubKey;
use crate::hash::AnyLinkableHash;
use crate::schema::LinkTypes;

verus! {

/// A link as the link index lists it. `link_type` is `None` for a link type
/// that this schema does not define. `create_link_hash` is the action that
/// created the link, and the handle by which the link is deleted.
#[derive(Clone, Debug, PartialEq, Eq)]
pub struct Link {
    pub author: AgentPubKey,
    pub base: AnyLinkableHash,
    pub target: AnyLinkableHash,
    pub timestamp: Timestamp,
    pub link_type: Option<LinkTypes>,
    pub tag: LinkTag,
    pub create_link_hash: ActionHash,
}

/// A link that is to be created.
#[derive(Clone, Debug, PartialEq, Eq)]
pub struct CreateLinkInput {
    pub base_address: AnyLinkableHash,
    pub target_address: AnyLinkableHash,
    pub link_type: LinkTypes,
    pub tag: LinkTag,
}

/// A question to the link index: the links of one type that start at one
/// address.
#[derive(Clone, Copy, Debug, PartialEq, Eq)]
pub struct GetLinksInput {
    pub base_address: AnyLinkableHash,
    pub link_type: LinkTypes,
}

impl Link {
    /// Whether the link is of the given type and starts at the given address.
    pub open spec fn anchored(self, base: AnyLinkableHash, link_type: LinkTypes) -> bool {
        self.base == base && self.link_type == Some(link_type)
    }

    /// Whether the link is of the given type and starts at the given address.
    pub fn is_anchored(&self, base: &AnyLinkableHash, link_type: LinkTypes) -> (r: bool)
        ensures
            r == self.anchored(*base, link_type),
    {
        match self.link_type {
            Some(own_type) => own_type == link_type && self.base == *base,
            None => false,
        }
    }

    /// Whether the link is what the index holds once `input` has been
    /// written: it has the ends and the type that were asked for.
    pub open spec fn realizes(self, input: CreateLinkInput) -> bool {
        &&& self.base == input.base_address
        &&& self.target == input.target_address
        &&& self.link_type == Some(input.link_type)
        &&& self.tag.bytes@ == input.tag.bytes@
    }
}

/// Of the links listed, those of the given type that start at the given
/// address, in the order of the list.
pub open spec fn anchored_links(
    links: Seq<Link>,
    base: AnyLinkableHash,
    link_type: LinkTypes,
) -> Seq<Link>
    decreases links.len(),
{
    if links.len() == 0 {
        Seq::empty()
    } else {
        let before = anchored_links(links.drop_last(), base, link_type);
        if links.last().anchored(base, link_type) {
            before.push(links.last())
        } else {
            before
        }
    }
}

/// Whether any of the links listed is of the given type and starts at the
/// given address.
pub open spec fn has_anchored(links: Seq<Link>, base: AnyLinkableHash, link_type: LinkTypes) -> bool {
    exists|j: int| 0 <= j < links.len() && (#[trigger] links[j]).anchored(base, link_type)
}

/// What is selected from the first `n` links is the beginning of what is
/// selected from all.
pub proof fn anchored_links_of_prefix(
    links: Seq<Link>,
    base: AnyLinkableHash,
    link_type: LinkTypes,
    n: int,
)
    requires
        0 <= n <= links.len(),
    ensures
        anchored_links(links.take(n), base, link_type).len() <= anchored_links(
            links,
            base,
            link_type,
        ).len(),
        forall|k: int|
            0 <= k < anchored_links(links.take(n), base, link_type).len() ==> anchored_links(
                links,
                base,
                link_type,
            )[k] == #[trigger] anchored_links(links.take(n), base, link_type)[k],
    decreases links.len() - n,
{
    if n == links.len() {
        assert(links.take(n) =~= links);
    } else {
        anchored_links_of_prefix(links.drop_last(), base, link_type, n);
        assert(links.drop_last().take(n) =~= links.take(n));
    }
}

/// What is selected holds exactly the links of the given type that start at
/// the given address: each selected link is one, and each such link of the
/// list is selected.
pub proof fn anchored_links_are_the_anchored(
    links: Seq<Link>,
    base: AnyLinkableHash,
    link_type: LinkTypes,
)
    ensures
        forall|k: int|
            0 <= k < anchored_links(links, base, link_type).len() ==> (#[trigger] anchored_links(
                links,
                base,
                link_type,
            )[k]).anchored(base, link_type) && links.contains(
                anchored_links(links, base, link_type)[k],
            ),
        forall|j: int|
            0 <= j < links.len() && (#[trigger] links[j]).anchored(base, link_type)
                ==> anchored_links(links, base, link_type).contains(links[j]),
        has_anchored(links, base, link_type) <==> anchored_links(links, base, link_type).len() > 0,
    decreases links.len(),
{
    let selected = anchored_links(links, base, link_type);
    if links.len() > 0 {
        let shorter = links.drop_last();
        let before = anchored_links(shorter, base, link_type);
        anchored_links_are_the_anchored(shorter, base, link_type);
        assert forall|k: int| 0 <= k < selected.len() implies (#[trigger] selected[k]).anchored(
            base,
            link_type,
        ) && links.contains(selected[k]) by {
            if k < before.len() {
                assert(selected[k] == before[k]);
                assert(shorter.contains(before[k]));
                let w = choose|w: int| 0 <= w < shorter.len() && shorter[w] == before[k];
                assert(links[w] == selected[k]);
            } else {
                assert(selected[k] == links.last());
                assert(links[links.len() - 1] == selected[k]);
            }
        }
        assert forall|j: int|
            0 <= j < links.len() && (#[trigger] links[j]).anchored(
                base,
                link_type,
            ) implies selected.contains(links[j]) by {
            if j < shorter.len() {
                assert(shorter[j] == links[j]);
                assert(before.contains(shorter[j]));
                let w = choose|w: int| 0 <= w < before.len() && before[w] == shorter[j];
                assert(selected[w] == links[j]);
            } else {
                assert(selected[selected.len() - 1] == links[j]);
            }
        }
        if has_anchored(links, base, link_type) {
            let j = choose|j: int| 0 <= j < links.len() && (#[trigger] links[j]).anchored(base, link_type);
            assert(selected.contains(links[j]));
        }
        if selected.len() > 0 {
            assert(selected[0].anchored(base, link_type) && links.contains(selected[0]));
            let w = choose|w: int| 0 <= w < links.len() && links[w] == selected[0];
            assert(links[w].anchored(base, link_type));
        }
    }
}

impl CreateLinkInput {
    /// A link with an empty tag.
    pub fn untagged(
        base_address: AnyLinkableHash,
        target_address: AnyLinkableHash,
        link_type: LinkTypes,
    ) -> (r: CreateLinkInput)
        ensures
            r.base_address == base_address,
            r.target_address == target_address,
            r.link_type == link_type,
            r.tag.bytes@ == Seq::<u8>::empty(),
    {
        CreateLinkInput { base_address, target_address, link_type, tag: LinkTag::empty() }
    }
}

} // verus!
