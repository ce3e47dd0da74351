//! Scenario tests of the repository contract against the in-memory backend.

use dino_store::entity::{Dino, RepoError};
use dino_store::handler::{create_status, get_status};
use dino_store::repo::MemRepo;
use dino_store::shared::SharedRepo;

fn dino(name: &str, weight: i32, diet: &str) -> Dino {
    Dino { id: None, name: name.to_string(), weight, diet: diet.to_string() }
}

#[test]
fn create_then_get_returns_same_values() {
    let mut repo = MemRepo::new();
    let d = dino("rex", 500, "carnivorous");
    let created = repo.create(d.clone()).expect("create must succeed on a fresh identifier");
    assert_eq!(created, d);
    assert_eq!(create_status(&Ok(created)), 201);
    let got = repo.get(&"rex".to_string()).expect("created record must be readable");
    assert_eq!(got, d);
}

#[test]
fn create_conflict_keeps_original_values() {
    let mut repo = MemRepo::new();
    let d = dino("rex", 500, "carnivorous");
    repo.create(d.clone()).expect("first create succeeds");
    let second = dino("rex", 1, "herbivorous");
    let r = repo.create(second);
    assert_eq!(r, Err(RepoError::Conflict));
    assert_eq!(create_status(&r), 409);
    let got = repo.get(&"rex".to_string()).expect("original record stays live");
    assert_eq!(got, d);
}

#[test]
fn update_unknown_id_creates_no_record() {
    let mut repo = MemRepo::new();
    let r = repo.update(&"unknown".to_string(), dino("unknown", 7, "omnivorous"));
    assert_eq!(r, None);
    assert!(repo.list().is_empty());
}

#[test]
fn update_replaces_all_mutable_fields() {
    let mut repo = MemRepo::new();
    repo.create(dino("rex", 500, "carnivorous")).expect("create succeeds");
    let replaced = repo
        .update(&"rex".to_string(), dino("rex", 450, "omnivorous"))
        .expect("update of a live record succeeds");
    assert_eq!(replaced, dino("rex", 450, "omnivorous"));
    let got = repo.get(&"rex".to_string()).expect("record stays live");
    assert_eq!(got, replaced);
}

#[test]
fn delete_then_get_reports_absence() {
    let mut repo = MemRepo::new();
    repo.create(dino("rex", 500, "carnivorous")).expect("create succeeds");
    assert_eq!(repo.delete(&"rex".to_string()), Some(()));
    assert_eq!(repo.get(&"rex".to_string()), None);
    assert_eq!(get_status(&Ok(repo.get(&"rex".to_string()))), 404);
}

#[test]
fn delete_twice_presence_then_absence() {
    let mut repo = MemRepo::new();
    repo.create(dino("rex", 500, "carnivorous")).expect("create succeeds");
    assert_eq!(repo.delete(&"rex".to_string()), Some(()));
    assert_eq!(repo.delete(&"rex".to_string()), None);
}

#[test]
fn absence_is_stable_for_never_created_ids() {
    let mut repo = MemRepo::new();
    assert_eq!(repo.get(&"ghost".to_string()), None);
    assert_eq!(repo.update(&"ghost".to_string(), dino("ghost", 1, "unknown")), None);
    assert_eq!(repo.delete(&"ghost".to_string()), None);
}

#[test]
fn two_creates_distinct_ids_both_live() {
    let repo = SharedRepo::new();
    repo.create(dino("rex", 500, "carnivorous")).expect("first create succeeds");
    repo.create(dino("tri", 800, "herbivorous")).expect("second create succeeds");
    let all = repo.list();
    assert_eq!(all.len(), 2);
    assert!(all.iter().any(|d| d.name == "rex" && d.weight == 500));
    assert!(all.iter().any(|d| d.name == "tri" && d.weight == 800));
}

#[test]
fn list_returns_whole_records_without_duplicates() {
    let repo = SharedRepo::new();
    repo.create(dino("rex", 500, "carnivorous")).expect("create succeeds");
    repo.create(dino("tri", 800, "herbivorous")).expect("create succeeds");
    repo.update(&"rex".to_string(), dino("rex", 510, "carnivorous")).expect("update succeeds");
    let all = repo.list();
    assert_eq!(all.len(), 2);
    for d in &all {
        // every record is one stored value whole, never a mix
        assert!(
            *d == dino("rex", 510, "carnivorous") || *d == dino("tri", 800, "herbivorous"),
            "unexpected record {:?}",
            d
        );
    }
    assert!(all[0].name != all[1].name);
}

#[test]
fn empty_name_is_accepted_and_stored_as_is() {
    let mut repo = MemRepo::new();
    let odd = dino("", -3, "");
    repo.create(odd.clone()).expect("shape-only validation accepts it");
    assert_eq!(repo.get(&String::new()), Some(odd));
}

#[test]
fn shared_repo_serializes_writers() {
    let repo = SharedRepo::new();
    repo.create(dino("rex", 500, "carnivorous")).expect("create succeeds");
    let r = repo.create(dino("rex", 1, "herbivorous"));
    assert_eq!(r, Err(RepoError::Conflict));
    assert_eq!(repo.delete(&"rex".to_string()), Some(()));
    assert_eq!(repo.get(&"rex".to_string()), None);
}
