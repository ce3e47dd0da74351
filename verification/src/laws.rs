//! The laws of the repository contract, stated over the abstract store (a
//! map from identifier to record value) and the transition functions that
//! every operation's contract is written against. Each is proved for all
//! stores and all records, not for chosen values.

use vstd::prelude::*;
use crate::entity::{DinoView, RepoError};
use crate::repo::{spec_create, spec_delete, spec_get, spec_update, updated_view};

verus! {

/// Uniqueness: a `create` whose identifier already denotes a live record
/// yields `Conflict` and leaves the store — in particular the original
/// record's stored values — unchanged; a successful `create` adds exactly
/// the one record, so at most one live record ever carries a given
/// identifier (the store is a map: one value per key).
pub proof fn law_create_uniqueness(m: Map<Seq<char>, DinoView>, d: DinoView)
    ensures
        m.contains_key(d.name) ==> spec_create(m, d) == (m, Err::<DinoView, RepoError>(
            RepoError::Conflict,
        )),
        !m.contains_key(d.name) ==> spec_create(m, d).0 == m.insert(d.name, d),
        forall|k: Seq<char>|
            k != d.name ==> #[trigger] spec_create(m, d).0.contains_key(k) == m.contains_key(k),
        forall|k: Seq<char>|
            k != d.name && m.contains_key(k) ==> #[trigger] spec_create(m, d).0[k] == m[k],
{
}

/// Read-your-writes: after a `create` returns successfully, a `get` of the
/// stored record's identifier — by any caller — returns exactly the stored
/// form that `create` reported.
pub proof fn law_read_your_writes(m: Map<Seq<char>, DinoView>, d: DinoView)
    ensures
        spec_create(m, d).1 matches Ok(s) ==> spec_get(spec_create(m, d).0, d.name) == Some(s),
{
}

/// Absence stability: `get`, `update` and `delete` on an identifier with no
/// live record — never created, or already deleted — all report absence,
/// never an error and never a stale value, and leave the store unchanged.
pub proof fn law_absence_stability(m: Map<Seq<char>, DinoView>, k: Seq<char>, d: DinoView)
    requires
        !m.contains_key(k),
    ensures
        spec_get(m, k) == None::<DinoView>,
        spec_update(m, k, d) == (m, None::<DinoView>),
        spec_delete(m, k) == (m, None::<()>),
{
}

/// No lost updates: two updates of the same identifier are serialized by
/// the store (one writer at a time), and each replaces every mutable field
/// in one step, so whichever order they take effect in, the store is left
/// holding wholly the later record — never a mix of fields from both.
pub proof fn law_no_lost_updates(
    m: Map<Seq<char>, DinoView>,
    k: Seq<char>,
    d1: DinoView,
    d2: DinoView,
)
    requires
        m.contains_key(k),
    ensures
        spec_update(spec_update(m, k, d1).0, k, d2).0[k] == updated_view(k, d2),
        spec_update(spec_update(m, k, d2).0, k, d1).0[k] == updated_view(k, d1),
        spec_update(spec_update(m, k, d1).0, k, d2).0[k] == updated_view(k, d1)
            || spec_update(spec_update(m, k, d1).0, k, d2).0[k] == updated_view(k, d2),
{
}

/// Idempotent delete semantics: deleting the same identifier twice reports
/// presence the first time and absence the second, neither call errs, and
/// after either call no record is live under the identifier.
pub proof fn law_delete_idempotent(m: Map<Seq<char>, DinoView>, k: Seq<char>)
    ensures
        m.contains_key(k) ==> spec_delete(m, k).1 == Some(()),
        !m.contains_key(k) ==> spec_delete(m, k).1 == None::<()>,
        spec_delete(spec_delete(m, k).0, k).1 == None::<()>,
        !spec_delete(m, k).0.contains_key(k),
        spec_delete(spec_delete(m, k).0, k).0 == spec_delete(m, k).0,
{
}

} // verus!
