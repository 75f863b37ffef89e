//! Stores put together from capabilities.

pub mod moneystorage;
