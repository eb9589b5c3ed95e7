//! Actions: the metadata that wraps every write to the graph.
//!
//! Each author's actions form a private, strictly ordered history that the
//! store guarantees. The rules of this library take that order for granted
//! and never derive it again.

use vstd::prelude::*;
use crate::hash::ActionHash;
use crate::hash::AgentPubKey;
use crate::hash::AnyLinkableHash;
use crate::hash::EntryHash;
use crate::schema::LinkTypes;

verus! {

/// A point in time, in microseconds since the Unix epoch.
#[derive(Clone, Copy, Debug, PartialEq, Eq, Hash, Structural)]
pub struct Timestamp(pub i64);

impl Timestamp {
    pub fn from_micros(micros: i64) -> (r: Timestamp)
        ensures
            r.0 == micros,
    {
        Timestamp(micros)
    }

    pub fn as_micros(&self) -> (r: i64)
        ensures
            r == self.0,
    {
        self.0
    }
}

/// The bytes attached to a link.
#[derive(Clone, Debug, PartialEq, Eq)]
pub struct LinkTag {
    pub bytes: Vec<u8>,
}

impl LinkTag {
    /// The tag that holds no bytes.
    pub fn empty() -> (r: LinkTag)
        ensures
            r.bytes@ == Seq::<u8>::empty(),
    {
        LinkTag { bytes: Vec::new() }
    }
}

/// The proof an agent presents when joining the network.
#[derive(Clone, Debug, PartialEq, Eq)]
pub struct MembraneProof {
    pub bytes: Vec<u8>,
}

/// What kind of entry a creating action carries.
#[derive(Clone, Copy, Debug, PartialEq, Eq, Hash, Structural)]
pub enum EntryType {
    /// The key of an agent.
    AgentPubKey,
    /// An entry defined by an application.
    App,
    /// A capability claim.
    CapClaim,
    /// A capability grant.
    CapGrant,
}

/// The action that first writes an entry.
#[derive(Clone, Copy, Debug, PartialEq, Eq)]
pub struct Create {
    pub author: AgentPubKey,
    pub timestamp: Timestamp,
    pub prev_action: ActionHash,
    pub entry_type: EntryType,
    pub entry_hash: EntryHash,
}

/// The action that writes a new entry in place of an earlier one.
#[derive(Clone, Copy, Debug, PartialEq, Eq)]
pub struct Update {
    pub author: AgentPubKey,
    pub timestamp: Timestamp,
    pub prev_action: ActionHash,
    pub original_action_address: ActionHash,
    pub original_entry_address: EntryHash,
    pub entry_type: EntryType,
    pub entry_hash: EntryHash,
}

/// The action that marks an entry as deleted.
#[derive(Clone, Copy, Debug, PartialEq, Eq)]
pub struct Delete {
    pub author: AgentPubKey,
    pub timestamp: Timestamp,
    pub prev_action: ActionHash,
    pub deletes_address: ActionHash,
    pub deletes_entry_address: EntryHash,
}

/// The action that creates a link. `link_type` is `None` for a link type
/// that this schema does not define.
#[derive(Clone, Debug, PartialEq, Eq)]
pub struct CreateLink {
    pub author: AgentPubKey,
    pub timestamp: Timestamp,
    pub prev_action: ActionHash,
    pub base_address: AnyLinkableHash,
    pub target_address: AnyLinkableHash,
    pub link_type: Option<LinkTypes>,
    pub tag: LinkTag,
}

/// The action that deletes a link. `link_add_address` is the action that
/// created the link.
#[derive(Clone, Copy, Debug, PartialEq, Eq)]
pub struct DeleteLink {
    pub author: AgentPubKey,
    pub timestamp: Timestamp,
    pub prev_action: ActionHash,
    pub base_address: AnyLinkableHash,
    pub link_add_address: ActionHash,
}

/// The action by which an agent presents its membrane proof, right before
/// its key is written.
#[derive(Clone, Debug, PartialEq, Eq)]
pub struct AgentValidationPkg {
    pub author: AgentPubKey,
    pub timestamp: Timestamp,
    pub prev_action: ActionHash,
    pub membrane_proof: Option<MembraneProof>,
}

/// Any action of an agent's history.
#[derive(Clone, Debug, PartialEq, Eq)]
pub enum Action {
    Dna { author: AgentPubKey, timestamp: Timestamp },
    AgentValidationPkg(AgentValidationPkg),
    InitZomesComplete { author: AgentPubKey, timestamp: Timestamp, prev_action: ActionHash },
    CreateLink(CreateLink),
    DeleteLink(DeleteLink),
    OpenChain { author: AgentPubKey, timestamp: Timestamp, prev_action: ActionHash },
    CloseChain { author: AgentPubKey, timestamp: Timestamp, prev_action: ActionHash },
    Create(Create),
    Update(Update),
    Delete(Delete),
}

impl Action {
    /// When the action was written.
    pub open spec fn when(self) -> Timestamp {
        match self {
            Action::Dna { timestamp, .. } => timestamp,
            Action::AgentValidationPkg(action) => action.timestamp,
            Action::InitZomesComplete { timestamp, .. } => timestamp,
            Action::CreateLink(action) => action.timestamp,
            Action::DeleteLink(action) => action.timestamp,
            Action::OpenChain { timestamp, .. } => timestamp,
            Action::CloseChain { timestamp, .. } => timestamp,
            Action::Create(action) => action.timestamp,
            Action::Update(action) => action.timestamp,
            Action::Delete(action) => action.timestamp,
        }
    }

    /// When the action was written.
    pub fn timestamp(&self) -> (r: Timestamp)
        ensures
            r == self.when(),
    {
        match self {
            Action::Dna { timestamp, .. } => *timestamp,
            Action::AgentValidationPkg(action) => action.timestamp,
            Action::InitZomesComplete { timestamp, .. } => *timestamp,
            Action::CreateLink(action) => action.timestamp,
            Action::DeleteLink(action) => action.timestamp,
            Action::OpenChain { timestamp, .. } => *timestamp,
            Action::CloseChain { timestamp, .. } => *timestamp,
            Action::Create(action) => action.timestamp,
            Action::Update(action) => action.timestamp,
            Action::Delete(action) => action.timestamp,
        }
    }

    /// The kind of entry that the action writes, if it writes one.
    pub open spec fn created_entry_type(self) -> Option<EntryType> {
        match self {
            Action::Create(action) => Some(action.entry_type),
            Action::Update(action) => Some(action.entry_type),
            _ => None,
        }
    }

    /// The kind of entry that the action writes, if it writes one.
    pub fn entry_type(&self) -> (r: Option<EntryType>)
        ensures
            r == self.created_entry_type(),
    {
        match self {
            Action::Create(action) => Some(action.entry_type),
            Action::Update(action) => Some(action.entry_type),
            _ => None,
        }
    }
}

/// An action that writes an entry: a create or an update.
#[derive(Clone, Copy, Debug, PartialEq, Eq)]
pub enum EntryCreationAction {
    Create(Create),
    Update(Update),
}

impl EntryCreationAction {
    /// The action as one that writes an entry, where it is a create or an
    /// update.
    pub open spec fn of(action: Action) -> Option<EntryCreationAction> {
        match action {
            Action::Create(create) => Some(EntryCreationAction::Create(create)),
            Action::Update(update) => Some(EntryCreationAction::Update(update)),
            _ => None,
        }
    }

    /// The action as one that writes an entry, where it is a create or an
    /// update.
    pub fn try_from_action(action: &Action) -> (r: Option<EntryCreationAction>)
        ensures
            r == EntryCreationAction::of(*action),
    {
        match action {
            Action::Create(create) => Some(EntryCreationAction::Create(*create)),
            Action::Update(update) => Some(EntryCreationAction::Update(*update)),
            _ => None,
        }
    }

    /// The kind of entry that the action writes.
    pub fn entry_type(&self) -> (r: EntryType)
        ensures
            r == (match *self {
                EntryCreationAction::Create(action) => action.entry_type,
                EntryCreationAction::Update(action) => action.entry_type,
            }),
    {
        match self {
            EntryCreationAction::Create(action) => action.entry_type,
            EntryCreationAction::Update(action) => action.entry_type,
        }
    }
}

} // verus!
