//! Bringing the schema of a database up to date.

pub mod sqlitemigrations;
