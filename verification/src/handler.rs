//! The handler's side of the repository contract: the fixed mapping from
//! each operation's outcome to a transport status code, and the route and
//! resource paths the record endpoints live under. Decoding request bodies
//! and writing responses stay outside; these functions decide, and they are
//! total over every outcome a backend can report.

use vstd::prelude::*;
use vstd::string::StringExecFns;
use crate::entity::{Dino, RepoError};
use crate::ident::{id_text, render_uuid_text};

verus! {

/// Status of a `create` outcome: a stored record is reported created (201),
/// an identifier collision is reported as a conflict (409), and a backend
/// failure is reported as an internal error (500).
pub fn create_status(r: &Result<Dino, RepoError>) -> (code: u16)
    ensures
        match *r {
            Ok(_) => code == 201,
            Err(RepoError::Conflict) => code == 409,
            Err(RepoError::Unavailable) => code == 500,
        },
{
    match r {
        Ok(_) => 201,
        Err(RepoError::Conflict) => 409,
        Err(RepoError::Unavailable) => 500,
    }
}

/// Status of a `list` outcome: a sequence — empty or not — is success
/// (200); a backend failure is an internal error (500).
pub fn list_status(r: &Result<Vec<Dino>, RepoError>) -> (code: u16)
    ensures
        match *r {
            Ok(_) => code == 200,
            Err(_) => code == 500,
        },
{
    match r {
        Ok(_) => 200,
        Err(_) => 500,
    }
}

/// Status of a `get` outcome: a value is success (200), absence is not
/// found (404) — absence is never an error — and a backend failure is an
/// internal error (500).
pub fn get_status(r: &Result<Option<Dino>, RepoError>) -> (code: u16)
    ensures
        match *r {
            Ok(Some(_)) => code == 200,
            Ok(None) => code == 404,
            Err(_) => code == 500,
        },
{
    match r {
        Ok(Some(_)) => 200,
        Ok(None) => 404,
        Err(_) => 500,
    }
}

/// Status of an `update` outcome: the post-update value is success (200),
/// absence is not found (404) — no record is created — and a backend
/// failure is an internal error (500).
pub fn update_status(r: &Result<Option<Dino>, RepoError>) -> (code: u16)
    ensures
        match *r {
            Ok(Some(_)) => code == 200,
            Ok(None) => code == 404,
            Err(_) => code == 500,
        },
{
    match r {
        Ok(Some(_)) => 200,
        Ok(None) => 404,
        Err(_) => 500,
    }
}

/// Status of a `delete` outcome: the presence marker means the record was
/// removed (204, no body), absence is not found (404) — deleting a missing
/// record is a normal outcome, not an error — and a backend failure is an
/// internal error (500).
pub fn delete_status(r: &Result<Option<()>, RepoError>) -> (code: u16)
    ensures
        match *r {
            Ok(Some(_)) => code == 204,
            Ok(None) => code == 404,
            Err(_) => code == 500,
        },
{
    match r {
        Ok(Some(_)) => 204,
        Ok(None) => 404,
        Err(_) => 500,
    }
}

/// The route pattern for single-record operations under a collection's base
/// path: the base followed by an identifier segment.
pub fn item_route(base: &str) -> (r: String)
    ensures
        r@ == base@ + "/:id"@,
{
    base.to_owned().concat("/:id")
}

/// The resource path of the record with identifier `u` under a collection's
/// base path: the base followed by the identifier's canonical text.
pub fn entity_path(base: &str, u: u128) -> (r: String)
    ensures
        r@ == base@ + "/"@ + id_text(u),
{
    let t = render_uuid_text(u);
    base.to_owned().concat("/").concat(t.as_str())
}

} // verus!
