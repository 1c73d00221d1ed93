//! Account validation for on-chain instructions.
//!
//! An instruction declares the accounts it expects as a structure whose
//! fields carry `account(...)` attributes. This crate reads such a
//! declaration into a typed constraint model ([`parser`]) and lays out the
//! routine that, when the instruction runs, deserializes the accounts and
//! checks every constraint in a fixed order ([`codegen`]).
//!
//! Everything is stated over mathematical readings of the data: each type has
//! a `deep_view`, and each function says what it returns in terms of them.

pub mod accounts;
pub mod codegen;
pub mod constraint;
pub mod error;
pub mod parser;
pub mod routine;
pub mod syntax;
pub mod text;
pub mod token;

pub use accounts::{
    AccountField, AccountsStruct, CompositeField, CpiAccountTy, CpiStateTy, Field, LoaderTy,
    ProgramAccountTy, ProgramStateTy, SysvarTy, Ty,
};
pub use constraint::{Constraint, ConstraintGroup, ConstraintRentExempt};
pub use error::ParseError;
pub use routine::{Progress, Routine, Step};
pub use token::{Delimiter, LexedToken, Token};
