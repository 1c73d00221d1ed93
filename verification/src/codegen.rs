//! Laying out what runs when an instruction is executed.

pub mod accounts;
