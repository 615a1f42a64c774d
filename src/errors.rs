//! The error taxonomy: domain errors, repository errors, and the
//! application-level union of both.

use crate::task::{TaskId, TaskStatus};
use vstd::prelude::*;

verus! {

/// Errors raised by task entity operations and by use cases.
#[derive(Debug, Clone, Copy, PartialEq, Eq, Structural)]
pub enum DomainError {
    EmptyTitle,
    TitleTooLong { max: usize },
    TaskNotFound { id: TaskId },
    InvalidStatusTransition { id: TaskId, from: TaskStatus, to: TaskStatus },
}

pub type DomainResult<T> = Result<T, DomainError>;

/// The single kind of failure a repository reports: I/O or (de)serialization.
#[derive(Debug, Clone, PartialEq, Eq)]
pub enum RepoError {
    InternalError { error: String },
}

pub type RepoResult<T> = Result<T, RepoError>;

/// What every use case returns on failure.
#[derive(Debug, Clone, PartialEq, Eq)]
pub enum ApplicationError {
    Domain(DomainError),
    Repository(RepoError),
}

pub type ApplicationResult<T> = Result<T, ApplicationError>;

} // verus!
