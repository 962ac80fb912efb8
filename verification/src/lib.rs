//! A role-aware data-access core for an academic-records domain.
//!
//! The crate models users, courses, enrollments and departments, a filter
//! engine for building per-table predicates, an entity-agnostic storage
//! driver, a session/authorization service with a fixed permission matrix,
//! a join/search engine that reconstructs denormalized course cards, and a
//! statistics aggregator.

pub mod clock;
pub mod connection;
pub mod db_driver;
pub mod filters;
pub mod laws;
pub mod models;
pub mod mutations;
pub mod password;
pub mod patches;
pub mod queries;
pub mod search;
pub mod sql;
pub mod stats;
pub mod strings;
pub mod validate;
