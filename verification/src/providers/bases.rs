//! Backing stores.

pub mod engine;
pub mod migrations;
pub mod movement;
pub mod outcomes;
pub mod rows;
pub mod sqlite;
pub mod statements;
