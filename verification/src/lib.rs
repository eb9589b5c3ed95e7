//! Schema and admission rules of a catalogue of hApps kept in a replicated,
//! content-addressed, append-only record graph.
//!
//! The catalogue holds hApps, their versions and their releases. Entries are
//! never changed: an update writes a new entry and ties it to the original by
//! a link, and a hApp is unpublished by a link to itself. Many authors write
//! at once, with no coordinator, so the one place where the graph is kept
//! sound is [`validate`]: every node runs it on every operation it is asked
//! to take in, and every node reaches the same verdict.
//!
//! Nothing here reads or writes the graph. Validation is given the records
//! that the operation's hashes resolve to, the readers are given the links
//! and details that the store lists, and the writers say which links a write
//! has to add.

pub mod action;
pub mod all_happs;
pub mod dependencies;
pub mod details;
pub mod error;
pub mod guarantees;
pub mod happ;
pub mod happ_release;
pub mod happ_unpublished;
pub mod happ_version;
pub mod hash;
pub mod link;
pub mod op;
pub mod publisher_happs;
pub mod record;
pub mod rules;
pub mod schema;
pub mod store;
pub mod validation;
pub mod verdict;
pub mod versioning;

pub use crate::dependencies::dependencies;
pub use crate::error::HappError;
pub use crate::happ::Happ;
pub use crate::happ_release::HappRelease;
pub use crate::happ_version::HappVersion;
pub use crate::op::Op;
pub use crate::record::Record;
pub use crate::schema::EntryTypes;
pub use crate::schema::LinkTypes;
pub use crate::schema::UnitEntryTypes;
pub use crate::store::RecordStore;
pub use crate::validation::genesis_self_check;
pub use crate::validation::validate;
pub use crate::validation::validate_agent_joining;
pub use crate::verdict::ValidateCallbackResult;
