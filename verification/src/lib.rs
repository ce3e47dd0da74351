//! A record store for a single entity type ("dino"): an entity model, a
//! repository contract with uniform CRUD semantics, an in-memory backend
//! behind a reader/writer lock, the decision logic of a relational backend
//! adapter, and the handler's mapping of outcomes to transport status codes.

pub mod entity;
pub mod handler;
pub mod ident;
pub mod laws;
pub mod persist;
pub mod repo;
pub mod shared;
