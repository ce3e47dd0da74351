//! The CRUD round trips over a shared repository instance, one per request
//! sequence, with the transport statuses of each outcome.

use dino_store::entity::Dino;
use dino_store::handler::{create_status, delete_status, get_status, list_status, update_status};
use dino_store::ident::resolve_entity_id;
use dino_store::shared::SharedRepo;

#[test]
fn list_dinos() {
    let repo = SharedRepo::new();
    let rows = repo.list();
    assert_eq!(200, list_status(&Ok(rows)));
}

#[test]
fn create_dino() {
    let repo = SharedRepo::new();
    let dino = resolve_entity_id(Dino {
        id: None,
        name: String::from("test"),
        weight: 50,
        diet: String::from("carnivorous"),
    });
    let r = repo.create(dino.clone());
    assert_eq!(201, create_status(&r));
    let d = r.expect("create succeeds on a fresh identifier");
    assert_eq!(dino, d);
}

#[test]
fn get_dino() {
    let repo = SharedRepo::new();
    let dino = resolve_entity_id(Dino {
        id: None,
        name: String::from("test_get"),
        weight: 50,
        diet: String::from("carnivorous"),
    });
    repo.create(dino.clone()).expect("create succeeds");

    let got = repo.get(&dino.name);
    assert_eq!(200, get_status(&Ok(got.clone())));

    let d = got.expect("created record is readable");
    assert_eq!(dino, d);
}

#[test]
fn delete_dino() {
    let repo = SharedRepo::new();
    let dino = resolve_entity_id(Dino {
        id: None,
        name: String::from("delete_test"),
        weight: 50,
        diet: String::from("carnivorous"),
    });
    repo.create(dino.clone()).expect("create succeeds");

    let removed = repo.delete(&dino.name);
    assert_eq!(204, delete_status(&Ok(removed)));
}

#[test]
fn update_dino() {
    let repo = SharedRepo::new();
    let mut dino = resolve_entity_id(Dino {
        id: None,
        name: String::from("update_test"),
        weight: 50,
        diet: String::from("carnivorous"),
    });
    repo.create(dino.clone()).expect("create succeeds");

    dino.diet = String::from("updated from test");

    let updated = repo.update(&dino.name, dino.clone());
    assert_eq!(200, update_status(&Ok(updated.clone())));

    let d = updated.expect("update of a live record succeeds");
    assert_eq!(dino, d);
}
