//! What the store tells of a hash beyond the record itself.
//!
//! The store answers with its own records and signed actions. They pass
//! through here as they are: `R` is the store's record, `A` its signed
//! action.

use vstd::prelude::*;
use crate::action::Timestamp;
use crate::error::HappError;

verus! {

/// A record with the actions that delete it and the actions that update it.
#[derive(Clone, Debug, PartialEq, Eq)]
pub struct RecordDetails<R, A> {
    pub record: R,
    pub deletes: Vec<A>,
    pub updates: Vec<A>,
}

/// The details of a hash: those of a record where the hash is an action's,
/// those of an entry where it is an entry's.
#[derive(Clone, Debug, PartialEq, Eq)]
pub enum Details<R, A> {
    Record(RecordDetails<R, A>),
    Entry,
}

/// The record as it was first written, from the details of its action hash:
/// nothing where the store knows nothing of the hash, a failure where the
/// store answers with the details of an entry.
pub fn original_record<R, A>(details: Option<Details<R, A>>) -> (r: Result<Option<R>, HappError>)
    ensures
        r == (match details {
            None => Ok(None),
            Some(Details::Record(record_details)) => Ok(Some(record_details.record)),
            Some(Details::Entry) => Err(HappError::MalformedGetDetailsResponse),
        }),
{
    match details {
        None => Ok(None),
        Some(Details::Record(record_details)) => Ok(Some(record_details.record)),
        Some(Details::Entry) => Err(HappError::MalformedGetDetailsResponse),
    }
}

/// The actions that delete a record, from the details of its action hash:
/// nothing where the store knows nothing of the hash, a failure where the
/// store answers with the details of an entry.
pub fn all_deletes<R, A>(details: Option<Details<R, A>>) -> (r: Result<Option<Vec<A>>, HappError>)
    ensures
        r == (match details {
            None => Ok(None),
            Some(Details::Record(record_details)) => Ok(Some(record_details.deletes)),
            Some(Details::Entry) => Err(HappError::MalformedDetails),
        }),
{
    match details {
        None => Ok(None),
        Some(Details::Record(record_details)) => Ok(Some(record_details.deletes)),
        Some(Details::Entry) => Err(HappError::MalformedDetails),
    }
}

/// Whether `i` is the position of the oldest timestamp: none is smaller, and
/// those before it are greater.
pub open spec fn is_oldest(timestamps: Seq<Timestamp>, i: int) -> bool {
    &&& 0 <= i < timestamps.len()
    &&& forall|j: int| 0 <= j < timestamps.len() ==> timestamps[i].0 <= (#[trigger] timestamps[j]).0
    &&& forall|j: int| 0 <= j < i ==> timestamps[i].0 < (#[trigger] timestamps[j]).0
}

/// Finds the oldest of the deletes of a record by their timestamps, given in
/// the order in which the store lists the deletes. Among several with the
/// smallest timestamp the first is taken. Returns its position, or `None`
/// where the record was never deleted.
pub fn oldest_delete(timestamps: &Vec<Timestamp>) -> (r: Option<usize>)
    ensures
        match r {
            Some(i) => is_oldest(timestamps@, i as int),
            None => timestamps@.len() == 0,
        },
{
    if timestamps.len() == 0 {
        return None;
    }
    let mut best: usize = 0;
    let mut i: usize = 1;
    while i < timestamps.len()
        invariant
            0 <= best < i <= timestamps@.len(),
            forall|j: int| 0 <= j < i ==> timestamps@[best as int].0 <= (#[trigger] timestamps@[j]).0,
            forall|j: int| 0 <= j < best ==> timestamps@[best as int].0 < (#[trigger] timestamps@[j]).0,
        decreases timestamps@.len() - i,
    {
        if timestamps[i].0 < timestamps[best].0 {
            best = i;
        }
        i = i + 1;
    }
    Some(best)
}

/// At most one position is that of the oldest timestamp.
pub proof fn oldest_is_unique(timestamps: Seq<Timestamp>, i: int, j: int)
    requires
        is_oldest(timestamps, i),
        is_oldest(timestamps, j),
    ensures
        i == j,
{
    if i < j {
        assert(timestamps[j].0 < timestamps[i].0);
        assert(timestamps[i].0 <= timestamps[j].0);
    } else if j < i {
        assert(timestamps[i].0 < timestamps[j].0);
        assert(timestamps[j].0 <= timestamps[i].0);
    }
}

/// The record that the store holds after a write, or the failure where the
/// store does not hold it.
pub fn found_or<R>(found: Option<R>, error: HappError) -> (r: Result<R, HappError>)
    ensures
        r == (match found {
            Some(record) => Ok(record),
            None => Err(error),
        }),
{
    match found {
        Some(record) => Ok(record),
        None => Err(error),
    }
}

} // verus!
