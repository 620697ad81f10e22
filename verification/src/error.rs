//! The service error shared by every operation of the inventory capability.
use vstd::prelude::*;

verus! {

/// The category of a service error; each category has a stable wire code.
#[derive(Clone, Copy, Debug, PartialEq, Eq, Structural)]
pub enum CommerceErrorKind {
    Validation,
    InvalidState,
    NotFound,
    Conflict,
    Storage,
}

/// An error carrying a category and a human readable message.
#[derive(Clone, Debug, PartialEq, Eq)]
pub struct CommerceServiceError {
    pub kind: CommerceErrorKind,
    pub message: String,
}

/// The wire code of each error category.
pub open spec fn kind_code(kind: CommerceErrorKind) -> Seq<char> {
    match kind {
        CommerceErrorKind::Validation => "validation"@,
        CommerceErrorKind::InvalidState => "invalid_state"@,
        CommerceErrorKind::NotFound => "not_found"@,
        CommerceErrorKind::Conflict => "conflict"@,
        CommerceErrorKind::Storage => "storage"@,
    }
}

/// `e` is an error of category `kind` whose message is `message`.
pub open spec fn is_error(e: CommerceServiceError, kind: CommerceErrorKind, message: Seq<char>) -> bool {
    e.kind == kind && e.message@ == message
}

impl CommerceServiceError {
    pub fn new(kind: CommerceErrorKind, message: &str) -> (e: Self)
        ensures
            is_error(e, kind, message@),
    {
        CommerceServiceError { kind, message: message.to_owned() }
    }

    pub fn validation(message: &str) -> (e: Self)
        ensures
            is_error(e, CommerceErrorKind::Validation, message@),
    {
        Self::new(CommerceErrorKind::Validation, message)
    }

    pub fn invalid_state(message: &str) -> (e: Self)
        ensures
            is_error(e, CommerceErrorKind::InvalidState, message@),
    {
        Self::new(CommerceErrorKind::InvalidState, message)
    }

    pub fn not_found(message: &str) -> (e: Self)
        ensures
            is_error(e, CommerceErrorKind::NotFound, message@),
    {
        Self::new(CommerceErrorKind::NotFound, message)
    }

    pub fn conflict(message: &str) -> (e: Self)
        ensures
            is_error(e, CommerceErrorKind::Conflict, message@),
    {
        Self::new(CommerceErrorKind::Conflict, message)
    }

    pub fn storage(message: &str) -> (e: Self)
        ensures
            is_error(e, CommerceErrorKind::Storage, message@),
    {
        Self::new(CommerceErrorKind::Storage, message)
    }

    /// The stable wire code of this error's category.
    pub fn code(&self) -> (c: &'static str)
        ensures
            c@ == kind_code(self.kind),
    {
        match self.kind {
            CommerceErrorKind::Validation => "validation",
            CommerceErrorKind::InvalidState => "invalid_state",
            CommerceErrorKind::NotFound => "not_found",
            CommerceErrorKind::Conflict => "conflict",
            CommerceErrorKind::Storage => "storage",
        }
    }

    pub fn message(&self) -> (m: &str)
        ensures
            m@ == self.message@,
    {
        self.message.as_str()
    }
}

} // verus!
