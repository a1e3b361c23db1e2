//! The repository contract's plans and its error taxonomy: what is handed to
//! storage for a page, and how a fault in an operation is reported.

use crate::filter::{clause_list, clauses_view, AdFilter, Clause};
use vstd::prelude::*;
use vstd::string::StringExecFns;

verus! {

/// The operations of the ad repository.
#[derive(Clone, Copy, Debug, PartialEq, Eq, Structural)]
pub enum Operation {
    NewCursor,
    FetchFromCursor,
    CloseCursor,
    GetById,
    GetPage,
    Create,
    Update,
    Delete,
}

/// Where in an operation a fault arose: while borrowing a connection from
/// the pool, or while storage ran the statement.
#[derive(Clone, Copy, Debug, PartialEq, Eq, Structural)]
pub enum Stage {
    Acquire,
    Execute,
}

/// The kinds of error the repository reports.
#[derive(Clone, Copy, Debug, PartialEq, Eq, Structural)]
pub enum ErrorKind {
    Pool,
    FilterParse,
    CursorCreation,
    CursorFetch,
    Storage,
}

/// A repository error: its kind, wrapping the underlying cause.
#[derive(Clone, Debug, PartialEq, Eq)]
pub struct RepoError {
    pub kind: ErrorKind,
    pub cause: String,
}

impl ErrorKind {
    /// The name of the kind, as it is written in messages.
    pub open spec fn label(self) -> Seq<char> {
        match self {
            ErrorKind::Pool => "pool error"@,
            ErrorKind::FilterParse => "filter parse error"@,
            ErrorKind::CursorCreation => "cursor creation error"@,
            ErrorKind::CursorFetch => "cursor fetch error"@,
            ErrorKind::Storage => "storage error"@,
        }
    }
}

impl RepoError {
    /// The error as text: the kind's name, a colon, and the cause.
    pub fn message(&self) -> (text: String)
        ensures
            text@ == self.kind.label() + ": "@ + self.cause@,
    {
        let label = match self.kind {
            ErrorKind::Pool => "pool error",
            ErrorKind::FilterParse => "filter parse error",
            ErrorKind::CursorCreation => "cursor creation error",
            ErrorKind::CursorFetch => "cursor fetch error",
            ErrorKind::Storage => "storage error",
        };
        let mut text = String::from_str(label);
        text.append(": ");
        text.append(self.cause.as_str());
        text
    }
}

/// The kind reported for a fault. A fetch reports every fault, a missing
/// connection included, as a cursor fetch error. Otherwise a failed
/// acquisition is a pool error, a failed declaration a cursor creation
/// error, and any other failed statement a storage error.
pub open spec fn fault_kind(operation: Operation, stage: Stage) -> ErrorKind {
    match (operation, stage) {
        (Operation::FetchFromCursor, _) => ErrorKind::CursorFetch,
        (_, Stage::Acquire) => ErrorKind::Pool,
        (Operation::NewCursor, Stage::Execute) => ErrorKind::CursorCreation,
        (_, Stage::Execute) => ErrorKind::Storage,
    }
}

/// Wraps the cause of a fault in the error its operation reports.
pub fn fault_error(operation: Operation, stage: Stage, cause: String) -> (error: RepoError)
    ensures
        error.kind == fault_kind(operation, stage),
        error.cause@ == cause@,
{
    let kind = match operation {
        Operation::FetchFromCursor => ErrorKind::CursorFetch,
        Operation::NewCursor => match stage {
            Stage::Acquire => ErrorKind::Pool,
            Stage::Execute => ErrorKind::CursorCreation,
        },
        _ => match stage {
            Stage::Acquire => ErrorKind::Pool,
            Stage::Execute => ErrorKind::Storage,
        },
    };
    RepoError { kind, cause }
}

/// A bounded query: the filter's clauses, then skip `offset` rows and
/// return at most `limit`.
#[derive(Clone, Debug, PartialEq, Eq)]
pub struct PageQuery {
    pub clauses: Vec<Clause>,
    pub offset: i64,
    pub limit: i64,
}

/// Plans the query for one page of the filtered ads.
pub fn page_query(offset: u32, per_page: u32, filter: &AdFilter) -> (query: PageQuery)
    ensures
        clauses_view(query.clauses@) == clause_list(filter@),
        query.offset == offset,
        query.limit == per_page,
{
    PageQuery { clauses: filter.clauses(), offset: offset as i64, limit: per_page as i64 }
}

} // verus!
