//! A small ledger-style persistence layer: users, their accounts and the
//! money movements booked against an account's balance, kept in an embedded
//! SQLite database behind one guarded connection.
//!
//! - [`models`] holds the values: users, accounts, money movements, ledger
//!   entries, dates. Money is counted in whole minor units.
//! - [`commands`] holds the requests to create a user or an account.
//! - [`providers`] holds the capabilities of a store as traits, and under
//!   [`providers::bases`] the store on SQLite with what it is made of: the
//!   statements it sends, the reading of the rows it gets back, the reading
//!   of failures, the writing of a money movement as one transaction, and
//!   the steps that bring a schema up to date.
//! - [`config`] says where a store lives and makes one from that.
//! - [`stores`] puts a storage together from capabilities.
//! - [`error`] holds the failures a store reports.
//!
//! What the database answers is not within the reach of a proof; what the
//! store hands to the database and what it makes of every possible answer
//! is, and that is what the contracts in this crate state.

pub mod commands;
pub mod config;
pub mod error;
pub mod models;
pub mod providers;
pub mod stores;
