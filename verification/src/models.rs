//! The values the store keeps: users, their accounts and money movements.

pub mod account;
pub mod date;
pub mod moneytransaction;
pub mod record;
pub mod user;
