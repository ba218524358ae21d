//! A building-management record library.
//!
//! Ten kinds of record (buildings, their owners, organizations that manage
//! them, coordinates, users, files, notes, history entries, file links and
//! registers) share one lifecycle: a record is constructed with a fresh
//! identifier and timestamps, inserted into a store, later fetched or
//! replaced by identifier, and soft-deleted by flipping a flag — never
//! removed. The store enforces identifier uniqueness and the referential
//! rules between the record kinds, and both are maintained as verified
//! invariants of [`db::Db`].

pub mod api;
pub mod building_owners;
pub mod buildings;
pub mod coordinates;
pub mod db;
pub mod entities_files;
pub mod entities_history;
pub mod entities_notes;
pub mod files;
pub mod ident;
pub mod organizations;
pub mod password;
pub mod registers;
pub mod store;
pub mod time;
pub mod users;
