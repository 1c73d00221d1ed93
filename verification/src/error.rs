//! Why a declaration is turned down.

use vstd::prelude::*;

verus! {

/// A definition-time failure. None is recoverable: the whole structure is
/// given up, and the variant says why.
#[derive(Clone, Copy, Debug, PartialEq, Eq, Structural)]
pub enum ParseError {
    /// The attribute carries no tokens after its name.
    MissingGroup,
    /// A token is out of place: an unknown keyword, a missing `=`, a value of
    /// the wrong kind, stray punctuation.
    InvalidSyntax,
    /// `rent_exempt =` is followed by something other than `skip`.
    InvalidRentExempt,
    /// `space =` is followed by something other than a literal.
    InvalidSpace,
    /// The lexer turned down the text of a literal that an entry reads.
    InvalidExpression,
    /// A field carries more than one `account` attribute.
    MultipleAccountAttributes,
    /// The structure's fields are not named.
    UnnamedFields,
    /// A field's type is not a path.
    InvalidAccountSyntax,
    /// A field's type is a path of more or less than one segment.
    QualifiedType,
    /// A field's type is none of the account wrappers.
    InvalidAccountType,
    /// An account wrapper's type arguments are not a lifetime and one plain
    /// type name.
    InvalidProgramAccount,
    /// A sysvar wrapper's type arguments are malformed, or name no known
    /// sysvar.
    InvalidSysvar,
}

impl ParseError {
    /// The message that goes with each failure.
    pub open spec fn message_text(self) -> Seq<char> {
        match self {
            ParseError::MissingGroup => "Must have a token group"@,
            ParseError::InvalidSyntax => "invalid syntax"@,
            ParseError::InvalidRentExempt =>
                "invalid syntax: omit the rent_exempt attribute to enforce rent exemption"@,
            ParseError::InvalidSpace => "invalid space"@,
            ParseError::InvalidExpression => "invalid expression"@,
            ParseError::MultipleAccountAttributes =>
                "Invalid syntax: please specify one account attribute."@,
            ParseError::UnnamedFields => "Accounts fields must be named"@,
            ParseError::InvalidAccountSyntax => "invalid account syntax"@,
            ParseError::QualifiedType => "invalid account syntax: qualified type path"@,
            ParseError::InvalidAccountType => "invalid account type"@,
            ParseError::InvalidProgramAccount => "Invalid ProgramAccount"@,
            ParseError::InvalidSysvar => "Invalid Sysvar"@,
        }
    }

    /// The message that goes with this failure.
    pub fn message(&self) -> (text: &'static str)
        ensures
            text@ == self.message_text(),
    {
        match self {
            ParseError::MissingGroup => "Must have a token group",
            ParseError::InvalidSyntax => "invalid syntax",
            ParseError::InvalidRentExempt =>
                "invalid syntax: omit the rent_exempt attribute to enforce rent exemption",
            ParseError::InvalidSpace => "invalid space",
            ParseError::InvalidExpression => "invalid expression",
            ParseError::MultipleAccountAttributes =>
                "Invalid syntax: please specify one account attribute.",
            ParseError::UnnamedFields => "Accounts fields must be named",
            ParseError::InvalidAccountSyntax => "invalid account syntax",
            ParseError::QualifiedType => "invalid account syntax: qualified type path",
            ParseError::InvalidAccountType => "invalid account type",
            ParseError::InvalidProgramAccount => "Invalid ProgramAccount",
            ParseError::InvalidSysvar => "Invalid Sysvar",
        }
    }
}

} // verus!
