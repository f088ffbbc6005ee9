//! Query assembly, result coercion and execution journaling for a desktop
//! database manager that keeps encrypted connection profiles in a local store.

pub mod sql;
pub mod models;
pub mod vault;
pub mod resolver;
pub mod requests;
pub mod assembler;
pub mod coercion;
pub mod journal;
pub mod commands;
