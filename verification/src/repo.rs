//! The in-memory repository: a keyed collection of records with the uniform
//! CRUD contract. Records are keyed by `name`, the field that serves as the
//! identifier in this backend. The abstract state is a map from identifier to
//! record value; every operation's contract is stated against that map
//! through the transition functions below, which any conforming backend must
//! realize identically.

use vstd::prelude::*;
use vstd::map::*;
use crate::entity::{Dino, DinoView, RepoError};

verus! {

/// The record value an `update` leaves under key `k`: every mutable field is
/// taken from the caller's `d`, while the identifier itself never changes.
pub open spec fn updated_view(k: Seq<char>, d: DinoView) -> DinoView {
    DinoView { id: d.id, name: k, weight: d.weight, diet: d.diet }
}

/// Abstract transition of `create`: check-then-insert in one atomic step. A
/// live record under the same identifier is a conflict and leaves the store
/// untouched; otherwise the record is inserted and returned as stored.
pub open spec fn spec_create(m: Map<Seq<char>, DinoView>, d: DinoView) -> (Map<
    Seq<char>,
    DinoView,
>, Result<DinoView, RepoError>) {
    if m.contains_key(d.name) {
        (m, Err(RepoError::Conflict))
    } else {
        (m.insert(d.name, d), Ok(d))
    }
}

/// Abstract result of `get`: the stored value, or an absence marker; a
/// missing identifier is never an error.
pub open spec fn spec_get(m: Map<Seq<char>, DinoView>, k: Seq<char>) -> Option<DinoView> {
    if m.contains_key(k) {
        Some(m[k])
    } else {
        None
    }
}

/// Abstract transition of `update`: replace every mutable field of the live
/// record under `k`, or report absence and change nothing. No record is
/// created ("upsert" is not supported).
pub open spec fn spec_update(m: Map<Seq<char>, DinoView>, k: Seq<char>, d: DinoView) -> (Map<
    Seq<char>,
    DinoView,
>, Option<DinoView>) {
    if m.contains_key(k) {
        (m.insert(k, updated_view(k, d)), Some(updated_view(k, d)))
    } else {
        (m, None)
    }
}

/// Abstract transition of `delete`: remove the live record under `k` and
/// report presence, or report absence and change nothing; neither outcome is
/// an error.
pub open spec fn spec_delete(m: Map<Seq<char>, DinoView>, k: Seq<char>) -> (Map<
    Seq<char>,
    DinoView,
>, Option<()>) {
    if m.contains_key(k) {
        (m.remove(k), Some(()))
    } else {
        (m, None)
    }
}

/// No two records of `s` share an identifier.
spec fn names_distinct(s: Seq<Dino>) -> bool {
    forall|i: int, j: int| 0 <= i < j < s.len() ==> s[i]@.name != s[j]@.name
}

/// Some record of `s` carries the identifier `k`.
spec fn contains_name(s: Seq<Dino>, k: Seq<char>) -> bool {
    exists|i: int| 0 <= i < s.len() && s[i]@.name == k
}

/// The position of the record carrying `k`; meaningful only when such a
/// record exists and identifiers are distinct.
spec fn index_of_name(s: Seq<Dino>, k: Seq<char>) -> int {
    choose|i: int| 0 <= i < s.len() && s[i]@.name == k
}

/// The map abstraction of the backing sequence.
spec fn map_of(s: Seq<Dino>) -> Map<Seq<char>, DinoView> {
    Map::new(|k: Seq<char>| contains_name(s, k), |k: Seq<char>| s[index_of_name(s, k)]@)
}

/// With distinct identifiers, the witness position of a key is unique, so
/// `index_of_name` returns exactly it.
proof fn lemma_index_of_name(s: Seq<Dino>, k: Seq<char>, i: int)
    requires
        names_distinct(s),
        0 <= i < s.len(),
        s[i]@.name == k,
    ensures
        index_of_name(s, k) == i,
{
    assert(contains_name(s, k));
    let j = index_of_name(s, k);
    assert(0 <= j < s.len() && s[j]@.name == k);
    if i < j {
        assert(s[i]@.name != s[j]@.name);
    } else if j < i {
        assert(s[j]@.name != s[i]@.name);
    }
}

/// Appending a record whose identifier is fresh inserts it into the map
/// abstraction and keeps identifiers distinct.
proof fn lemma_map_of_push(s: Seq<Dino>, d: Dino)
    requires
        names_distinct(s),
        !contains_name(s, d@.name),
    ensures
        names_distinct(s.push(d)),
        map_of(s.push(d)) == map_of(s).insert(d@.name, d@),
{
    let t = s.push(d);
    assert forall|i: int, j: int| 0 <= i < j < t.len() implies t[i]@.name != t[j]@.name by {
        if j < s.len() {
            assert(s[i]@.name != s[j]@.name);
        } else {
            assert(t[j] == d);
            assert(t[i] == s[i]);
            assert(!(0 <= i < s.len() && s[i]@.name == d@.name));
        }
    }
    assert_maps_equal!(map_of(t), map_of(s).insert(d@.name, d@), k => {
        if k == d@.name {
            assert(t[s.len() as int]@.name == k);
            assert(contains_name(t, k));
            lemma_index_of_name(t, k, s.len() as int);
        } else {
            if contains_name(s, k) {
                let i = index_of_name(s, k);
                assert(0 <= i < s.len() && s[i]@.name == k);
                assert(t[i]@.name == k);
                assert(contains_name(t, k));
                lemma_index_of_name(t, k, i);
                lemma_index_of_name(s, k, i);
            }
            if contains_name(t, k) {
                let i = index_of_name(t, k);
                assert(0 <= i < t.len() && t[i]@.name == k);
                assert(i < s.len());
                assert(s[i]@.name == k);
                assert(contains_name(s, k));
            }
        }
    });
}

/// Replacing the record at `i` by one carrying the same identifier updates
/// the map abstraction at that identifier and keeps identifiers distinct.
proof fn lemma_map_of_update(s: Seq<Dino>, i: int, d: Dino)
    requires
        names_distinct(s),
        0 <= i < s.len(),
        d@.name == s[i]@.name,
    ensures
        names_distinct(s.update(i, d)),
        map_of(s.update(i, d)) == map_of(s).insert(d@.name, d@),
{
    let t = s.update(i, d);
    assert forall|a: int, b: int| 0 <= a < b < t.len() implies t[a]@.name != t[b]@.name by {
        assert(s[a]@.name != s[b]@.name);
    }
    assert_maps_equal!(map_of(t), map_of(s).insert(d@.name, d@), k => {
        if k == d@.name {
            assert(t[i]@.name == k);
            assert(contains_name(t, k));
            lemma_index_of_name(t, k, i);
        } else {
            if contains_name(s, k) {
                let a = index_of_name(s, k);
                assert(0 <= a < s.len() && s[a]@.name == k);
                assert(a != i);
                assert(t[a]@.name == k);
                assert(contains_name(t, k));
                lemma_index_of_name(t, k, a);
                lemma_index_of_name(s, k, a);
            }
            if contains_name(t, k) {
                let a = index_of_name(t, k);
                assert(0 <= a < t.len() && t[a]@.name == k);
                assert(a != i);
                assert(s[a]@.name == k);
                assert(contains_name(s, k));
            }
        }
    });
}

/// Removing the record at `i` by a swap with the last record removes exactly
/// its identifier from the map abstraction and keeps identifiers distinct.
proof fn lemma_map_of_swap_remove(s: Seq<Dino>, i: int)
    requires
        names_distinct(s),
        0 <= i < s.len(),
    ensures
        names_distinct(s.update(i, s.last()).drop_last()),
        map_of(s.update(i, s.last()).drop_last()) == map_of(s).remove(s[i]@.name),
{
    let t = s.update(i, s.last()).drop_last();
    let n = s.len() as int;
    assert(t.len() == n - 1);
    assert forall|j: int| 0 <= j < n - 1 implies t[j] == (if j == i {
        s[n - 1]
    } else {
        s[j]
    }) by {}
    assert forall|a: int, b: int| 0 <= a < b < t.len() implies t[a]@.name != t[b]@.name by {
        let a0 = if a == i { n - 1 } else { a };
        let b0 = if b == i { n - 1 } else { b };
        assert(t[a] == s[a0]);
        assert(t[b] == s[b0]);
        if a0 < b0 {
            assert(s[a0]@.name != s[b0]@.name);
        } else {
            assert(s[b0]@.name != s[a0]@.name);
        }
    }
    assert_maps_equal!(map_of(t), map_of(s).remove(s[i]@.name), k => {
        if k == s[i]@.name {
            if contains_name(t, k) {
                let a = index_of_name(t, k);
                assert(0 <= a < t.len() && t[a]@.name == k);
                let a0 = if a == i { n - 1 } else { a };
                assert(t[a] == s[a0]);
                assert(s[a0]@.name == k);
                lemma_index_of_name(s, k, a0);
                lemma_index_of_name(s, k, i);
                assert(a0 == i);
                assert(false);
            }
        } else {
            if contains_name(s, k) {
                let a = index_of_name(s, k);
                assert(0 <= a < s.len() && s[a]@.name == k);
                assert(a != i);
                if a == n - 1 {
                    // the last record now sits at position i
                    assert(i < n - 1);
                    assert(t[i] == s[n - 1]);
                    assert(t[i]@.name == k);
                    assert(contains_name(t, k));
                    lemma_index_of_name(t, k, i);
                    lemma_index_of_name(s, k, a);
                } else {
                    assert(t[a] == s[a]);
                    assert(t[a]@.name == k);
                    assert(contains_name(t, k));
                    lemma_index_of_name(t, k, a);
                    lemma_index_of_name(s, k, a);
                }
            }
            if contains_name(t, k) {
                let a = index_of_name(t, k);
                assert(0 <= a < t.len() && t[a]@.name == k);
                let a0 = if a == i { n - 1 } else { a };
                assert(t[a] == s[a0]);
                assert(s[a0]@.name == k);
                assert(contains_name(s, k));
            }
        }
    });
}

/// The in-memory backend: a growable collection of records whose
/// identifiers are pairwise distinct at every observable instant. Its
/// abstract state, `self@`, is the map from identifier to stored value;
/// callers always receive independent copies of stored records, never live
/// references.
pub struct MemRepo {
    items: Vec<Dino>,
}

impl View for MemRepo {
    type V = Map<Seq<char>, DinoView>;

    closed spec fn view(&self) -> Map<Seq<char>, DinoView> {
        map_of(self.items@)
    }
}

impl MemRepo {
    /// At most one live record per identifier, at all times.
    #[verifier::type_invariant]
    spec fn wf(self) -> bool {
        names_distinct(self.items@)
    }

    /// An empty repository.
    pub fn new() -> (r: Self)
        ensures
            r@ == Map::<Seq<char>, DinoView>::empty(),
    {
        let r = MemRepo { items: Vec::new() };
        proof {
            assert_maps_equal!(map_of(r.items@), Map::<Seq<char>, DinoView>::empty(), k => {});
        }
        r
    }

    /// The position of the record keyed `name`, if one is live.
    fn find(&self, name: &String) -> (r: Option<usize>)
        ensures
            match r {
                Some(i) => i < self.items@.len() && self.items@[i as int]@.name == name@,
                None => !contains_name(self.items@, name@),
            },
    {
        let n = self.items.len();
        let mut i: usize = 0;
        while i < n
            invariant
                n == self.items@.len(),
                i <= n,
                forall|j: int| 0 <= j < i ==> self.items@[j]@.name != name@,
            decreases n - i,
        {
            if self.items[i].name == *name {
                return Some(i);
            }
            i += 1;
        }
        None
    }

    /// Create a record: check-then-insert as one atomic operation on this
    /// backend's state. An identifier already in use yields `Conflict` and
    /// leaves the store unchanged; otherwise the record becomes visible to
    /// every subsequent operation, and an independent copy of the stored
    /// form is returned.
    pub fn create(&mut self, d: Dino) -> (r: Result<Dino, RepoError>)
        ensures
            final(self)@ == spec_create(old(self)@, d@).0,
            match r {
                Ok(s) => spec_create(old(self)@, d@).1 == Ok::<DinoView, RepoError>(s@) && s@
                    == d@,
                Err(e) => spec_create(old(self)@, d@).1 == Err::<DinoView, RepoError>(e),
            },
    {
        proof {
            use_type_invariant(&*self);
        }
        let ghost s0 = self.items@;
        match self.find(&d.name) {
            Some(i) => {
                proof {
                    assert(s0[i as int]@.name == d@.name);
                    assert(contains_name(s0, d@.name));
                }
                Err(RepoError::Conflict)
            },
            None => {
                let s = d.clone();
                let mut items: Vec<Dino> = Vec::new();
                std::mem::swap(&mut items, &mut self.items);
                items.push(d);
                proof {
                    lemma_map_of_push(s0, items@.last());
                }
                self.items = items;
                Ok(s)
            },
        }
    }

    /// Read the record keyed `name`: an independent copy of the stored
    /// value, or the absence marker; never an error.
    pub fn get(&self, name: &String) -> (r: Option<Dino>)
        ensures
            match r {
                Some(s) => spec_get(self@, name@) == Some(s@) && s@.name == name@,
                None => spec_get(self@, name@) == None::<DinoView>,
            },
    {
        proof {
            use_type_invariant(self);
        }
        match self.find(name) {
            Some(i) => {
                let s = self.items[i].clone();
                proof {
                    lemma_index_of_name(self.items@, name@, i as int);
                    assert(contains_name(self.items@, name@));
                }
                Some(s)
            },
            None => None,
        }
    }

    /// Replace every mutable field of the record keyed `name` with the
    /// fields of `d`; the identifier itself never changes. Returns an
    /// independent copy of the post-update record, or the absence marker if
    /// no record is live under `name` — no record is created in that case.
    pub fn update(&mut self, name: &String, d: Dino) -> (r: Option<Dino>)
        ensures
            final(self)@ == spec_update(old(self)@, name@, d@).0,
            match r {
                Some(s) => spec_update(old(self)@, name@, d@).1 == Some(s@),
                None => spec_update(old(self)@, name@, d@).1 == None::<DinoView>,
            },
    {
        proof {
            use_type_invariant(&*self);
        }
        let ghost s0 = self.items@;
        match self.find(name) {
            Some(i) => {
                let stored = Dino {
                    id: d.id,
                    name: name.clone(),
                    weight: d.weight,
                    diet: d.diet,
                };
                let copy = stored.clone();
                let mut items: Vec<Dino> = Vec::new();
                std::mem::swap(&mut items, &mut self.items);
                items[i] = stored;
                proof {
                    assert(contains_name(s0, name@));
                    lemma_map_of_update(s0, i as int, items@[i as int]);
                }
                self.items = items;
                Some(copy)
            },
            None => None,
        }
    }

    /// Remove the record keyed `name`. Presence and absence are both normal
    /// outcomes: the marker distinguishes "deleted" from "was already
    /// absent", and neither is an error.
    pub fn delete(&mut self, name: &String) -> (r: Option<()>)
        ensures
            final(self)@ == spec_delete(old(self)@, name@).0,
            r == spec_delete(old(self)@, name@).1,
    {
        proof {
            use_type_invariant(&*self);
        }
        let ghost s0 = self.items@;
        match self.find(name) {
            Some(i) => {
                let mut items: Vec<Dino> = Vec::new();
                std::mem::swap(&mut items, &mut self.items);
                items.swap_remove(i);
                proof {
                    assert(contains_name(s0, name@));
                    lemma_index_of_name(s0, name@, i as int);
                    lemma_map_of_swap_remove(s0, i as int);
                }
                self.items = items;
                Some(())
            },
            None => None,
        }
    }

    /// A snapshot of every live record, as independent copies: each returned
    /// record equals the stored value under its identifier, every live
    /// identifier appears, and no identifier appears twice. No order is
    /// promised.
    pub fn list(&self) -> (r: Vec<Dino>)
        ensures
            forall|i: int|
                0 <= i < r@.len() ==> self@.contains_key(#[trigger] r@[i]@.name) && self@[r@[i]@.name]
                    == r@[i]@,
            forall|k: Seq<char>| #[trigger] self@.contains_key(k) ==> exists|i: int|
                0 <= i < r@.len() && r@[i]@.name == k,
            forall|i: int, j: int| 0 <= i < j < r@.len() ==> r@[i]@.name != r@[j]@.name,
    {
        proof {
            use_type_invariant(self);
        }
        let n = self.items.len();
        let mut r: Vec<Dino> = Vec::new();
        let mut i: usize = 0;
        while i < n
            invariant
                n == self.items@.len(),
                i <= n,
                r@.len() == i,
                forall|j: int| 0 <= j < i ==> r@[j] == self.items@[j],
            decreases n - i,
        {
            let s = self.items[i].clone();
            r.push(s);
            i += 1;
        }
        proof {
            assert forall|i: int|
                0 <= i < r@.len() implies self@.contains_key(#[trigger] r@[i]@.name) && self@[r@[i]@.name]
                == r@[i]@ by {
                assert(r@[i] == self.items@[i]);
                assert(contains_name(self.items@, r@[i]@.name));
                lemma_index_of_name(self.items@, r@[i]@.name, i);
            }
            assert forall|k: Seq<char>| #[trigger] self@.contains_key(k) implies exists|i: int|
                0 <= i < r@.len() && r@[i]@.name == k by {
                let a = index_of_name(self.items@, k);
                assert(0 <= a < self.items@.len() && self.items@[a]@.name == k);
                assert(r@[a]@.name == k);
            }
        }
        r
    }
}

} // verus!
