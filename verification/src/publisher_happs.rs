//! The index of the hApps of a publisher.

use vstd::prelude::*;
use crate::hash::AgentPubKey;
use crate::hash::AnyLinkableHash;
use crate::hash::EntryHash;
use crate::link::GetLinksInput;
use crate::schema::LinkTypes;

verus! {

/// The question that lists the hApps of a publisher. The links start at the
/// publisher's key, which is addressed like an entry.
pub fn get_publisher_happs(author: AgentPubKey) -> (r: GetLinksInput)
    ensures
        r.base_address == AnyLinkableHash::Entry(EntryHash { bytes: author.bytes }),
        r.link_type == LinkTypes::PublisherHapps,
{
    GetLinksInput {
        base_address: AnyLinkableHash::from_agent_pub_key(author),
        link_type: LinkTypes::PublisherHapps,
    }
}

} // verus!
