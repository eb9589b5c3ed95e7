//! Records: what a content hash resolves to.

use vstd::prelude::*;
use crate::action::Action;
use crate::hash::ActionHash;
use crate::schema::EntryTypes;
use crate::schema::UnitEntryTypes;

verus! {

/// The payload of a record, as far as the schema can read it.
#[derive(Clone, Debug, PartialEq, Eq)]
pub enum Entry {
    /// An entry of one of the schema's types.
    App(EntryTypes),
    /// Any other entry: a system entry, an entry of another schema, or bytes
    /// that decode as none of the schema's types.
    Other,
}

/// Whether a record comes with its entry.
#[derive(Clone, Debug, PartialEq, Eq)]
pub enum RecordEntry {
    /// The action writes an entry and the entry is at hand.
    Present(Entry),
    /// The action writes an entry, but the entry is private.
    Hidden,
    /// The action writes no entry.
    NA,
    /// The action writes an entry, but the record was stored without it.
    NotStored,
}

/// An action together with the entry it writes, found by the action's hash.
#[derive(Clone, Debug, PartialEq, Eq)]
pub struct Record {
    pub action_hash: ActionHash,
    pub action: Action,
    pub entry: RecordEntry,
}

impl Record {
    /// The entry of the record, where it is at hand and of one of the
    /// schema's types.
    pub open spec fn app_entry(self) -> Option<EntryTypes> {
        match self.entry {
            RecordEntry::Present(Entry::App(entry)) => Some(entry),
            _ => None,
        }
    }

    /// Whether the record holds an entry of the given type.
    pub open spec fn holds(self, entry_type: UnitEntryTypes) -> bool {
        match self.app_entry() {
            Some(entry) => entry.unit() == entry_type,
            None => false,
        }
    }

    /// Whether the record comes with an entry at all.
    pub open spec fn has_entry(self) -> bool {
        self.entry is Present
    }

    /// The hash under which the record is found.
    pub fn action_address(&self) -> (r: ActionHash)
        ensures
            r == self.action_hash,
    {
        self.action_hash
    }

    /// The entry of the record, where it is at hand and of one of the
    /// schema's types.
    pub fn to_app_option(&self) -> (r: Option<&EntryTypes>)
        ensures
            match r {
                Some(entry) => self.app_entry() == Some(*entry),
                None => self.app_entry().is_none(),
            },
    {
        match &self.entry {
            RecordEntry::Present(Entry::App(entry)) => Some(entry),
            _ => None,
        }
    }

    /// Whether the record holds an entry of the given type.
    pub fn holds_entry_of(&self, entry_type: UnitEntryTypes) -> (r: bool)
        ensures
            r == self.holds(entry_type),
    {
        match self.to_app_option() {
            Some(entry) => entry.to_unit() == entry_type,
            None => false,
        }
    }
}

} // verus!
