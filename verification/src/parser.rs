//! Reading declarations into the constraint model.

pub mod accounts;
