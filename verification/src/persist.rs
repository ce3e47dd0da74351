//! Decision logic of the relational backend adapter. The adapter performs
//! each operation as one atomic statement over the wire; what comes back —
//! a returned row, no row, or a driver failure — is handed to the functions
//! here as plain values, and they alone decide the operation's outcome
//! under the repository contract. They are total: every possible report
//! from the driver is mapped, and no failure is ever swallowed.

use vstd::prelude::*;
use crate::entity::{Dino, RepoError};

verus! {

/// How the adapter classifies a failed statement, read off the driver's
/// error: the uniqueness constraint on the identifier column was violated,
/// or the statement failed for any other reason (connection lost, backend
/// down, malformed row).
#[derive(Clone, Copy, Debug, PartialEq, Eq, Structural)]
pub enum DbFailure {
    UniqueViolation,
    Other,
}

/// Outcome of `create` from an insert-and-return statement: the returned
/// row is the stored record; a violated uniqueness constraint is a
/// `Conflict`, never silently ignored; any other failure is `Unavailable`.
pub fn create_outcome(fetched: Result<Dino, DbFailure>) -> (r: Result<Dino, RepoError>)
    ensures
        match fetched {
            Ok(d) => r == Ok::<Dino, RepoError>(d),
            Err(DbFailure::UniqueViolation) => r == Err::<Dino, RepoError>(RepoError::Conflict),
            Err(DbFailure::Other) => r == Err::<Dino, RepoError>(RepoError::Unavailable),
        },
{
    match fetched {
        Ok(d) => Ok(d),
        Err(DbFailure::UniqueViolation) => Err(RepoError::Conflict),
        Err(DbFailure::Other) => Err(RepoError::Unavailable),
    }
}

/// Outcome of `get` or `update` from a statement restricted by key that
/// returns at most one row: the row is the (post-update) record, no row is
/// the absence marker — never an error — and a driver failure is
/// `Unavailable`.
pub fn fetch_outcome(fetched: Result<Option<Dino>, DbFailure>) -> (r: Result<
    Option<Dino>,
    RepoError,
>)
    ensures
        match fetched {
            Ok(row) => r == Ok::<Option<Dino>, RepoError>(row),
            Err(_) => r == Err::<Option<Dino>, RepoError>(RepoError::Unavailable),
        },
{
    match fetched {
        Ok(row) => Ok(row),
        Err(_) => Err(RepoError::Unavailable),
    }
}

/// Outcome of `delete` from a delete-and-return statement: a returned key
/// means a record was removed (presence marker), no row means it was
/// already absent — both normal outcomes — and a driver failure is
/// `Unavailable`.
pub fn delete_outcome(fetched: Result<Option<u128>, DbFailure>) -> (r: Result<
    Option<()>,
    RepoError,
>)
    ensures
        match fetched {
            Ok(Some(_)) => r == Ok::<Option<()>, RepoError>(Some(())),
            Ok(None) => r == Ok::<Option<()>, RepoError>(None),
            Err(_) => r == Err::<Option<()>, RepoError>(RepoError::Unavailable),
        },
{
    match fetched {
        Ok(Some(_)) => Ok(Some(())),
        Ok(None) => Ok(None),
        Err(_) => Err(RepoError::Unavailable),
    }
}

/// Outcome of `list` from an unrestricted select: the rows are the records,
/// in whatever order the backend chose; a driver failure is `Unavailable`.
pub fn list_outcome(fetched: Result<Vec<Dino>, DbFailure>) -> (r: Result<Vec<Dino>, RepoError>)
    ensures
        match fetched {
            Ok(rows) => r == Ok::<Vec<Dino>, RepoError>(rows),
            Err(_) => r == Err::<Vec<Dino>, RepoError>(RepoError::Unavailable),
        },
{
    match fetched {
        Ok(rows) => Ok(rows),
        Err(_) => Err(RepoError::Unavailable),
    }
}

} // verus!
