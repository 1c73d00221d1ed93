//! The routines of an accounts structure.

pub mod layout;
pub mod try_accounts;
