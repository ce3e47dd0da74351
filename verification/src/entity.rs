//! The entity model: a "dino" record with an optional identifier and its
//! attribute fields, the spec-level view of a record, and the error taxonomy
//! shared by every backend.

use vstd::prelude::*;

verus! {

/// A single "dino" record. The identifier is optional: the relational
/// backend resolves an absent identifier at creation time, while the
/// in-memory backend keys records by `name`, so `id` is stored as a plain
/// attribute there. Validation is limited to shape: an empty `name` or any
/// `weight` is accepted and stored as-is.
#[derive(Debug, PartialEq, Eq)]
pub struct Dino {
    pub id: Option<u128>,
    pub name: String,
    pub weight: i32,
    pub diet: String,
}

/// The mathematical value of a [`Dino`]: the same fields with text as
/// character sequences.
pub ghost struct DinoView {
    pub id: Option<u128>,
    pub name: Seq<char>,
    pub weight: i32,
    pub diet: Seq<char>,
}

impl View for Dino {
    type V = DinoView;

    open spec fn view(&self) -> DinoView {
        DinoView { id: self.id, name: self.name@, weight: self.weight, diet: self.diet@ }
    }
}

impl Clone for Dino {
    /// A clone is an independent copy with exactly the same value, so a
    /// caller holding a returned snapshot can never reach the stored record.
    fn clone(&self) -> (r: Self)
        ensures
            r == *self,
    {
        Dino {
            id: self.id,
            name: self.name.clone(),
            weight: self.weight,
            diet: self.diet.clone(),
        }
    }
}

/// The failure taxonomy of the repository contract. Absence of a record is
/// not here: it is an expected outcome, reported as `None` by the operations
/// themselves.
#[derive(Clone, Copy, Debug, PartialEq, Eq, Structural)]
pub enum RepoError {
    /// A `create` targeted an identifier that already denotes a live record.
    Conflict,
    /// The backend could not be reached or failed mid-statement
    /// (relational backend only).
    Unavailable,
}

} // verus!
