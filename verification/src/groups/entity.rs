//! Subject groups and their members.

use vstd::prelude::*;

use crate::clock::UtcTime;
use crate::identifier::Uuid;

verus! {

/// How many groups deep a group may nest.
pub const MAX_GROUP_DEPTH: u8 = 8;

/// A named group of users and of other groups.
#[derive(Debug)]
pub struct SubjectGroup {
    pub id: Uuid,
    pub name: String,
    pub description: Option<String>,
    /// A predefined group whose membership is implicit; it cannot be changed.
    pub is_virtual: bool,
    pub created_at: UtcTime,
    pub updated_at: UtcTime,
}

/// A direct member of a group.
#[derive(Clone, Copy, PartialEq, Eq, Structural, Debug)]
pub enum GroupMember {
    User(Uuid),
    Group(Uuid),
}

/// Why a group cannot be made or changed as asked.
#[derive(Debug)]
pub enum SubjectGroupError {
    InvalidName(String),
    CycleDetected(String),
    DepthExceeded(String),
    VirtualImmutable(String),
    ValidationError(String),
}

/// Why the stored groups cannot be read or changed as asked.
#[derive(Debug)]
pub enum SubjectGroupRepositoryError {
    NotFound(String),
    NameAlreadyExists(String),
    InvalidName(String),
    Cycle(String),
    DepthExceeded(String),
    VirtualImmutable(String),
    MemberAlreadyPresent,
    MemberNotPresent,
    StorageError(String),
}

} // verus!
