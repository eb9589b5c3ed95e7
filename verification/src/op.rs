//! Operations: the mutations of the graph that are put to validation.
//!
//! One write reaches validation in several shapes, each with more or less
//! detail: as the storing of an entry, as the registering of an update, a
//! delete or a link on what it touches, as the storing of a whole record, and
//! as activity of its author. Every shape is a variant here, and the shapes
//! that carry no entry or link of the schema are gathered under `Other`.

use vstd::prelude::*;
use crate::action::Create;
use crate::action::CreateLink;
use crate::action::Delete;
use crate::action::DeleteLink;
use crate::action::LinkTag;
use crate::action::Update;
use crate::hash::AgentPubKey;
use crate::hash::AnyLinkableHash;
use crate::schema::EntryTypes;
use crate::schema::LinkTypes;

verus! {

/// An entry is stored.
#[derive(Clone, Debug, PartialEq, Eq)]
pub enum OpEntry {
    /// An entry of the schema is created.
    CreateEntry { app_entry: EntryTypes, action: Create },
    /// An entry of the schema is written as the update of an earlier one.
    UpdateEntry { app_entry: EntryTypes, action: Update },
    /// An agent key or a capability is written.
    Other,
}

/// An update is registered on the entry it revises.
#[derive(Clone, Debug, PartialEq, Eq)]
pub enum OpUpdate {
    /// An entry of the schema is the new content.
    Entry { app_entry: EntryTypes, action: Update },
    /// A private entry, an agent key or a capability is the new content.
    Other,
}

/// A delete is registered on the entry it deletes.
#[derive(Clone, Copy, Debug, PartialEq, Eq)]
pub struct OpDelete {
    pub action: Delete,
}

/// A record is stored.
#[derive(Clone, Debug, PartialEq, Eq)]
pub enum OpRecord {
    /// The record creates an entry of the schema.
    CreateEntry { app_entry: EntryTypes, action: Create },
    /// The record updates an entry with an entry of the schema.
    UpdateEntry { app_entry: EntryTypes, action: Update },
    /// The record deletes an entry.
    DeleteEntry { action: Delete },
    /// The record creates a link of the schema.
    CreateLink {
        base_address: AnyLinkableHash,
        target_address: AnyLinkableHash,
        tag: LinkTag,
        link_type: LinkTypes,
        action: CreateLink,
    },
    /// The record deletes a link.
    DeleteLink { base_address: AnyLinkableHash, action: DeleteLink },
    /// The record is chain bookkeeping, or writes a private entry, an agent
    /// key or a capability.
    Other,
}

/// An action is registered as activity of its author.
#[derive(Clone, Debug, PartialEq, Eq)]
pub enum OpActivity {
    /// The agent writes its key: it joins the network.
    CreateAgent { agent: AgentPubKey, action: Create },
    /// Any other action.
    Other,
}

/// A proposed mutation of the graph.
#[derive(Clone, Debug, PartialEq, Eq)]
pub enum Op {
    StoreRecord(OpRecord),
    StoreEntry(OpEntry),
    RegisterAgentActivity(OpActivity),
    /// A link of the schema is registered on its base.
    RegisterCreateLink {
        base_address: AnyLinkableHash,
        target_address: AnyLinkableHash,
        tag: LinkTag,
        link_type: LinkTypes,
        action: CreateLink,
    },
    /// The deletion of a link of the schema is registered on its base.
    /// `original_action` is the action that created the link.
    RegisterDeleteLink {
        original_action: CreateLink,
        base_address: AnyLinkableHash,
        target_address: AnyLinkableHash,
        tag: LinkTag,
        link_type: LinkTypes,
        action: DeleteLink,
    },
    RegisterUpdate(OpUpdate),
    RegisterDelete(OpDelete),
}

} // verus!
