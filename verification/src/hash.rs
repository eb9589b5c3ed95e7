//! Content addresses.
//!
//! Every record of the graph is found by the hash of its content. A hash is
//! kept as the 36 bytes that identify it once its type is known: a 32-byte
//! digest followed by 4 location bytes. The type of a hash is carried by the
//! Rust type that holds the bytes, so an action hash can never be taken for
//! an entry hash.

use vstd::prelude::*;

verus! {

/// Byte-wise comparison of two hash bodies.
pub fn bytes_equal(a: &[u8; 36], b: &[u8; 36]) -> (r: bool)
    ensures
        r == (*a == *b),
{
    let mut i: usize = 0;
    while i < 36
        invariant
            i <= 36,
            forall|j: int| 0 <= j < i ==> a[j] == b[j],
        decreases 36 - i,
    {
        if a[i] != b[i] {
            return false;
        }
        i = i + 1;
    }
    assert(*a =~= *b);
    true
}

/// The hash of an action: the identity of a record.
#[derive(Clone, Copy, Debug, Eq, Hash)]
pub struct ActionHash {
    pub bytes: [u8; 36],
}

impl ActionHash {
    pub fn from_raw_36(bytes: [u8; 36]) -> (r: ActionHash)
        ensures
            r.bytes == bytes,
    {
        ActionHash { bytes }
    }

    pub fn get_raw_36(&self) -> (r: [u8; 36])
        ensures
            r == self.bytes,
    {
        self.bytes
    }
}

impl PartialEq for ActionHash {
    fn eq(&self, other: &ActionHash) -> (r: bool) {
        bytes_equal(&self.bytes, &other.bytes)
    }
}

impl vstd::std_specs::cmp::PartialEqSpecImpl for ActionHash {
    open spec fn obeys_eq_spec() -> bool {
        true
    }

    open spec fn eq_spec(&self, other: &ActionHash) -> bool {
        *self == *other
    }
}

/// The hash of an entry: the identity of a payload.
#[derive(Clone, Copy, Debug, Eq, Hash)]
pub struct EntryHash {
    pub bytes: [u8; 36],
}

impl EntryHash {
    pub fn from_raw_36(bytes: [u8; 36]) -> (r: EntryHash)
        ensures
            r.bytes == bytes,
    {
        EntryHash { bytes }
    }

    pub fn get_raw_36(&self) -> (r: [u8; 36])
        ensures
            r == self.bytes,
    {
        self.bytes
    }
}

impl PartialEq for EntryHash {
    fn eq(&self, other: &EntryHash) -> (r: bool) {
        bytes_equal(&self.bytes, &other.bytes)
    }
}

impl vstd::std_specs::cmp::PartialEqSpecImpl for EntryHash {
    open spec fn obeys_eq_spec() -> bool {
        true
    }

    open spec fn eq_spec(&self, other: &EntryHash) -> bool {
        *self == *other
    }
}

/// The public key of an agent, which is also the agent's identity.
#[derive(Clone, Copy, Debug, Eq, Hash)]
pub struct AgentPubKey {
    pub bytes: [u8; 36],
}

impl AgentPubKey {
    pub fn from_raw_36(bytes: [u8; 36]) -> (r: AgentPubKey)
        ensures
            r.bytes == bytes,
    {
        AgentPubKey { bytes }
    }

    pub fn get_raw_36(&self) -> (r: [u8; 36])
        ensures
            r == self.bytes,
    {
        self.bytes
    }
}

impl PartialEq for AgentPubKey {
    fn eq(&self, other: &AgentPubKey) -> (r: bool) {
        bytes_equal(&self.bytes, &other.bytes)
    }
}

impl vstd::std_specs::cmp::PartialEqSpecImpl for AgentPubKey {
    open spec fn obeys_eq_spec() -> bool {
        true
    }

    open spec fn eq_spec(&self, other: &AgentPubKey) -> bool {
        *self == *other
    }
}

/// The hash of something that lives outside the graph.
#[derive(Clone, Copy, Debug, Eq, Hash)]
pub struct ExternalHash {
    pub bytes: [u8; 36],
}

impl ExternalHash {
    pub fn from_raw_36(bytes: [u8; 36]) -> (r: ExternalHash)
        ensures
            r.bytes == bytes,
    {
        ExternalHash { bytes }
    }

    pub fn get_raw_36(&self) -> (r: [u8; 36])
        ensures
            r == self.bytes,
    {
        self.bytes
    }
}

impl PartialEq for ExternalHash {
    fn eq(&self, other: &ExternalHash) -> (r: bool) {
        bytes_equal(&self.bytes, &other.bytes)
    }
}

impl vstd::std_specs::cmp::PartialEqSpecImpl for ExternalHash {
    open spec fn obeys_eq_spec() -> bool {
        true
    }

    open spec fn eq_spec(&self, other: &ExternalHash) -> bool {
        *self == *other
    }
}

/// Anything a link can start from or point to.
///
/// Links are ordinary directed edges: nothing forbids a link from an address
/// to itself.
#[derive(Clone, Copy, Debug, Eq, Hash)]
pub enum AnyLinkableHash {
    Entry(EntryHash),
    Action(ActionHash),
    External(ExternalHash),
}

impl AnyLinkableHash {
    /// The action hash this address stands for, if it is one.
    pub open spec fn action_hash(self) -> Option<ActionHash> {
        match self {
            AnyLinkableHash::Action(hash) => Some(hash),
            _ => None,
        }
    }

    /// If this address is the hash of an action, that hash; otherwise nothing.
    pub fn into_action_hash(self) -> (r: Option<ActionHash>)
        ensures
            r == self.action_hash(),
    {
        match self {
            AnyLinkableHash::Action(hash) => Some(hash),
            _ => None,
        }
    }

    /// If this address is the hash of an entry, that hash; otherwise nothing.
    pub fn into_entry_hash(self) -> (r: Option<EntryHash>)
        ensures
            r == (match self {
                AnyLinkableHash::Entry(hash) => Some(hash),
                _ => None,
            }),
    {
        match self {
            AnyLinkableHash::Entry(hash) => Some(hash),
            _ => None,
        }
    }

    /// The address of the record with the given action hash.
    pub fn from_action_hash(hash: ActionHash) -> (r: AnyLinkableHash)
        ensures
            r == AnyLinkableHash::Action(hash),
            r.action_hash() == Some(hash),
    {
        AnyLinkableHash::Action(hash)
    }

    /// The address of an agent. An agent's key is addressed like an entry.
    pub fn from_agent_pub_key(agent: AgentPubKey) -> (r: AnyLinkableHash)
        ensures
            r == AnyLinkableHash::Entry(EntryHash { bytes: agent.bytes }),
    {
        AnyLinkableHash::Entry(EntryHash { bytes: agent.bytes })
    }
}

impl PartialEq for AnyLinkableHash {
    fn eq(&self, other: &AnyLinkableHash) -> (r: bool) {
        match (self, other) {
            (AnyLinkableHash::Entry(a), AnyLinkableHash::Entry(b)) => *a == *b,
            (AnyLinkableHash::Action(a), AnyLinkableHash::Action(b)) => *a == *b,
            (AnyLinkableHash::External(a), AnyLinkableHash::External(b)) => *a == *b,
            _ => false,
        }
    }
}

impl vstd::std_specs::cmp::PartialEqSpecImpl for AnyLinkableHash {
    open spec fn obeys_eq_spec() -> bool {
        true
    }

    open spec fn eq_spec(&self, other: &AnyLinkableHash) -> bool {
        *self == *other
    }
}

} // verus!
