//! Recipes and their ordered ingredients, kept in a relational store.
//!
//! The crate is layered the way the service around it is: wire shapes at the
//! edge, domain objects in the middle, persisted entities at the bottom. All
//! three layers view into one mathematical model, and every conversion between
//! them is proved to keep that view.
//!
//! Below the entities stands the repository. Its contract is a trait; its
//! write operations are protocols, state machines that say which statement
//! goes to the store next and that never talk to the store themselves. The
//! store is given twice: as mathematics, two tables with their constraints
//! and the meaning of each statement, and as a database in memory that is
//! proved to run each statement as the mathematics says. The repository in
//! memory drives the protocols against that database, and is proved to keep
//! the contract: what it lists is what was last committed, ingredient by
//! ingredient, in order.

/// What each statement keeps of the tables' constraints.
pub mod constraints;
/// The relational store in memory.
pub mod database;
/// Domain objects and their conversions.
pub mod domain;
/// Persisted entities and the errors of the repository.
pub mod entity;
/// Failures of the store, as every layer reports them.
pub mod failure;
/// What holds of the repository whatever is stored.
pub mod laws;
/// Between entities and rows.
pub mod mapping;
/// Quantities and cooking times.
pub mod measure;
/// The repository on the store in memory.
pub mod memory;
/// The mathematical model behind all layers.
pub mod model;
/// Wire shapes, their conversions and their status codes.
pub mod presentation;
/// The protocols of the repository.
pub mod protocol;
/// From rows to listed recipes.
pub mod refinement;
/// The repository contract.
pub mod repository;
/// What each write does to the store, stated directly.
pub mod results;
/// Running a protocol against the store.
pub mod runs;
/// Facts about filtering and mapping sequences.
pub mod sequences;
/// The domain service.
pub mod service;
/// Statements and replies.
pub mod statement;
/// The relational store as mathematics.
pub mod tables;
/// Case-insensitive substring matching.
pub mod text;
