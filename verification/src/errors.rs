//! Errors that the application's services report.

use vstd::prelude::*;
use vstd::string::*;

verus! {

/// What kind of failure a [`DomainError`] reports.
#[derive(Clone, Copy, PartialEq, Eq, Structural, Debug)]
pub enum ErrorKind {
    NotFound,
    AlreadyExists,
    InvalidInput,
    AccessDenied,
    DatabaseError,
    InternalError,
}

/// A failure, with the entity that it concerns and a message.
#[derive(Debug)]
pub struct DomainError {
    pub kind: ErrorKind,
    pub entity: String,
    pub message: String,
}

impl DomainError {
    /// This error has exactly that kind, entity and message.
    pub open spec fn says(self, kind: ErrorKind, entity: Seq<char>, message: Seq<char>) -> bool {
        self.kind == kind && self.entity@ == entity && self.message@ == message
    }

    pub fn new(kind: ErrorKind, entity: &str, message: String) -> (error: DomainError)
        ensures
            error.says(kind, entity@, message@),
    {
        DomainError { kind, entity: entity.to_owned(), message }
    }

    /// A failure inside the service `entity`.
    pub fn internal_error(entity: &str, message: String) -> (error: DomainError)
        ensures
            error.says(ErrorKind::InternalError, entity@, message@),
    {
        DomainError::new(ErrorKind::InternalError, entity, message)
    }

    /// A failure of the database.
    pub fn database_error(message: String) -> (error: DomainError)
        ensures
            error.says(ErrorKind::DatabaseError, "Database"@, message@),
    {
        DomainError::new(ErrorKind::DatabaseError, "Database", message)
    }
}

} // verus!
