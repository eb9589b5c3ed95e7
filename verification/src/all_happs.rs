//! The index of all hApps.

use vstd::prelude::*;
use crate::hash::AnyLinkableHash;
use crate::hash::EntryHash;
use crate::link::GetLinksInput;
use crate::schema::LinkTypes;

verus! {

/// The path of the anchor that every hApp of the catalogue is linked from.
pub fn all_happs_path() -> (r: &'static str)
    ensures
        r@ == "all_happs"@,
{
    "all_happs"
}

/// The question that lists all hApps, given the entry hash of the anchor.
pub fn get_all_happs(anchor: EntryHash) -> (r: GetLinksInput)
    ensures
        r.base_address == AnyLinkableHash::Entry(anchor),
        r.link_type == LinkTypes::AllHapps,
{
    GetLinksInput { base_address: AnyLinkableHash::Entry(anchor), link_type: LinkTypes::AllHapps }
}

} // verus!
