//! The grammar of one `account(...)` attribute.
//!
//! The tokens between the parentheses are read from left to right as a run
//! of entries. Each entry starts with a keyword of a closed vocabulary and
//! has the shape that the keyword asks for:
//!
//! | entry | what it says |
//! |---|---|
//! | `init` | the account is initialized and written to; rent exemption is enforced unless something was said of it before |
//! | `mut` | the account is written to |
//! | `signer` | the account must sign |
//! | `seeds = [..]` | the address derives from the seeds in the group |
//! | `belongs_to = x`, `has_one = x` | the account names the sibling `x` |
//! | `owner = x` | the account is owned by `x` |
//! | `rent_exempt` | rent exemption is enforced |
//! | `rent_exempt = skip` | the rent-exemption check is waived |
//! | `executable` | the account holds a program |
//! | `state = x` | the account is the state of program `x` |
//! | `associated = x` | the address is the one associated with `x`; the account is written to |
//! | `with = x` | one more seed of the associated address |
//! | `payer = x` | `x` funds the allocation |
//! | `space = "n"` | the allocation has the size that the literal's text gives |
//! | `"expr"` | the expression in the literal must hold |
//!
//! The text of a literal, its double quotes taken out, is lexed into a token
//! stream before the entries are read ([`lex_literals`]); a literal whose
//! text the lexer turns down fails the entry that it stands in.
//!
//! Commas may stand between entries. Anything else fails the attribute:
//! there is no way to read past a token that is out of place.
//!
//! Reading the entries fills a [`Scan`]; when the last token is read,
//! [`Scan::finish`] settles what depends on the attribute as a whole.

use crate::constraint::{
    Constraint, ConstraintGroup, ConstraintGroupView, ConstraintRentExempt, ConstraintView,
};
use crate::error::ParseError;
use crate::parser::accounts::guarantees::{
    literal_free_tokens_lex_one_way, parsed_group_is_well_formed,
};
use crate::syntax::{Attribute, AttributeView};
use crate::text::{is_word, remove_char, without_char};
use crate::token::{
    has_literal, lex, optional_stream_tokens, stream_tokens, token_trees, tokens_of, unlexed,
    Delimiter, LexedToken, LexedTokenView, Token, TokenView,
};
use vstd::prelude::*;

verus! {

/// The words that may start an entry.
#[derive(Clone, Copy, Debug, PartialEq, Eq, Structural)]
pub enum Keyword {
    Init,
    Mut,
    Signer,
    Seeds,
    /// Written `belongs_to` or `has_one`.
    BelongsTo,
    Owner,
    /// On its own, or followed by `= skip`.
    RentExempt,
    Executable,
    State,
    Associated,
    /// May be repeated; every occurrence adds a seed.
    With,
    Payer,
    Space,
}

/// The keyword that an identifier spells, if it spells one.
pub open spec fn keyword_of(name: Seq<char>) -> Option<Keyword> {
    if name == "init"@ {
        Some(Keyword::Init)
    } else if name == "mut"@ {
        Some(Keyword::Mut)
    } else if name == "signer"@ {
        Some(Keyword::Signer)
    } else if name == "seeds"@ {
        Some(Keyword::Seeds)
    } else if name == "belongs_to"@ || name == "has_one"@ {
        Some(Keyword::BelongsTo)
    } else if name == "owner"@ {
        Some(Keyword::Owner)
    } else if name == "rent_exempt"@ {
        Some(Keyword::RentExempt)
    } else if name == "executable"@ {
        Some(Keyword::Executable)
    } else if name == "state"@ {
        Some(Keyword::State)
    } else if name == "associated"@ {
        Some(Keyword::Associated)
    } else if name == "with"@ {
        Some(Keyword::With)
    } else if name == "payer"@ {
        Some(Keyword::Payer)
    } else if name == "space"@ {
        Some(Keyword::Space)
    } else {
        None
    }
}

/// The keyword that an identifier spells, if it spells one.
pub fn keyword(name: &String) -> (found: Option<Keyword>)
    ensures
        found == keyword_of(name@),
{
    if is_word(name, "init") {
        Some(Keyword::Init)
    } else if is_word(name, "mut") {
        Some(Keyword::Mut)
    } else if is_word(name, "signer") {
        Some(Keyword::Signer)
    } else if is_word(name, "seeds") {
        Some(Keyword::Seeds)
    } else if is_word(name, "belongs_to") || is_word(name, "has_one") {
        Some(Keyword::BelongsTo)
    } else if is_word(name, "owner") {
        Some(Keyword::Owner)
    } else if is_word(name, "rent_exempt") {
        Some(Keyword::RentExempt)
    } else if is_word(name, "executable") {
        Some(Keyword::Executable)
    } else if is_word(name, "state") {
        Some(Keyword::State)
    } else if is_word(name, "associated") {
        Some(Keyword::Associated)
    } else if is_word(name, "with") {
        Some(Keyword::With)
    } else if is_word(name, "payer") {
        Some(Keyword::Payer)
    } else if is_word(name, "space") {
        Some(Keyword::Space)
    } else {
        None
    }
}

/// One entry of an attribute, with the value that its keyword takes.
#[derive(Clone, Debug)]
pub enum Entry {
    /// A comma.
    Separator,
    Init,
    Mut,
    Signer,
    Seeds(Delimiter, proc_macro2::TokenStream),
    BelongsTo(String),
    Owner(String),
    RentExempt(ConstraintRentExempt),
    Executable,
    State(String),
    Associated(String),
    With(String),
    Payer(String),
    Space(proc_macro2::TokenStream),
    Literal(proc_macro2::TokenStream),
}

/// The mathematical reading of an [`Entry`].
pub enum EntryView {
    Separator,
    Init,
    Mut,
    Signer,
    Seeds(Delimiter, Seq<TokenView>),
    BelongsTo(Seq<char>),
    Owner(Seq<char>),
    RentExempt(ConstraintRentExempt),
    Executable,
    State(Seq<char>),
    Associated(Seq<char>),
    With(Seq<char>),
    Payer(Seq<char>),
    Space(Seq<TokenView>),
    Literal(Seq<TokenView>),
}

impl DeepView for Entry {
    type V = EntryView;

    open spec fn deep_view(&self) -> EntryView {
        match self {
            Entry::Separator => EntryView::Separator,
            Entry::Init => EntryView::Init,
            Entry::Mut => EntryView::Mut,
            Entry::Signer => EntryView::Signer,
            Entry::Seeds(delimiter, seeds) => EntryView::Seeds(*delimiter, stream_tokens(*seeds)),
            Entry::BelongsTo(target) => EntryView::BelongsTo(target@),
            Entry::Owner(target) => EntryView::Owner(target@),
            Entry::RentExempt(rent) => EntryView::RentExempt(*rent),
            Entry::Executable => EntryView::Executable,
            Entry::State(target) => EntryView::State(target@),
            Entry::Associated(target) => EntryView::Associated(target@),
            Entry::With(seed) => EntryView::With(seed@),
            Entry::Payer(payer) => EntryView::Payer(payer@),
            Entry::Space(space) => EntryView::Space(stream_tokens(*space)),
            Entry::Literal(tokens) => EntryView::Literal(stream_tokens(*tokens)),
        }
    }
}

/// The text of a literal with its double quotes taken out.
pub open spec fn unquoted(literal: Seq<char>) -> Seq<char> {
    without_char(literal, '"')
}

/// The token that a keyword at `pos` is assigned: the one after the `=`
/// that follows the keyword. `None` where the `=` or the token is missing.
pub open spec fn assigned(tokens: Seq<LexedTokenView>, pos: int) -> Option<LexedTokenView> {
    if pos + 2 < tokens.len() && tokens[pos + 1] == LexedTokenView::Punct('=') {
        Some(tokens[pos + 2])
    } else {
        None
    }
}

/// The identifier that a keyword at `pos` is assigned.
pub open spec fn assigned_ident(tokens: Seq<LexedTokenView>, pos: int) -> Option<Seq<char>> {
    match assigned(tokens, pos) {
        Some(LexedTokenView::Ident(name)) => Some(name),
        _ => None,
    }
}

/// The entry for a keyword that takes an identifier, and the position
/// after it.
pub open spec fn ident_entry(
    tokens: Seq<LexedTokenView>,
    pos: int,
    make: spec_fn(Seq<char>) -> EntryView,
) -> Result<(EntryView, int), ParseError> {
    match assigned_ident(tokens, pos) {
        Some(name) => Ok((make(name), pos + 3)),
        None => Err(ParseError::InvalidSyntax),
    }
}

/// The entry for a literal standing on its own, given what its text was
/// lexed into.
pub open spec fn literal_entry(lexed_text: Option<Seq<TokenView>>) -> Result<
    EntryView,
    ParseError,
> {
    match lexed_text {
        Some(tokens) => Ok(EntryView::Literal(tokens)),
        None => Err(ParseError::InvalidExpression),
    }
}

/// The entry for `space = <literal>`, given what the literal's text was
/// lexed into.
pub open spec fn space_entry(lexed_text: Option<Seq<TokenView>>) -> Result<
    EntryView,
    ParseError,
> {
    match lexed_text {
        Some(tokens) => Ok(EntryView::Space(tokens)),
        None => Err(ParseError::InvalidExpression),
    }
}

/// The entry that starts with `keyword` at `pos`, and the position after it.
///
/// A keyword that takes a value is followed by `=` and a token of the right
/// kind; where either is missing or of another kind, the entry fails.
/// `rent_exempt` takes a value exactly where a `=` follows it.
pub open spec fn keyword_entry(keyword: Keyword, tokens: Seq<LexedTokenView>, pos: int) -> Result<
    (EntryView, int),
    ParseError,
> {
    match keyword {
        Keyword::Init => Ok((EntryView::Init, pos + 1)),
        Keyword::Mut => Ok((EntryView::Mut, pos + 1)),
        Keyword::Signer => Ok((EntryView::Signer, pos + 1)),
        Keyword::Executable => Ok((EntryView::Executable, pos + 1)),
        Keyword::Seeds => match assigned(tokens, pos) {
            Some(LexedTokenView::Group(delimiter, seeds)) => Ok(
                (EntryView::Seeds(delimiter, seeds), pos + 3),
            ),
            _ => Err(ParseError::InvalidSyntax),
        },
        Keyword::BelongsTo => ident_entry(tokens, pos, |t: Seq<char>| EntryView::BelongsTo(t)),
        Keyword::Owner => ident_entry(tokens, pos, |t: Seq<char>| EntryView::Owner(t)),
        Keyword::State => ident_entry(tokens, pos, |t: Seq<char>| EntryView::State(t)),
        Keyword::Associated => ident_entry(tokens, pos, |t: Seq<char>| EntryView::Associated(t)),
        Keyword::With => ident_entry(tokens, pos, |t: Seq<char>| EntryView::With(t)),
        Keyword::Payer => ident_entry(tokens, pos, |t: Seq<char>| EntryView::Payer(t)),
        Keyword::RentExempt => if pos + 1 < tokens.len() && tokens[pos + 1]
            == LexedTokenView::Punct('=') {
            match assigned_ident(tokens, pos) {
                Some(value) => if value == "skip"@ {
                    Ok((EntryView::RentExempt(ConstraintRentExempt::Skip), pos + 3))
                } else {
                    Err(ParseError::InvalidRentExempt)
                },
                None => Err(ParseError::InvalidSyntax),
            }
        } else {
            Ok((EntryView::RentExempt(ConstraintRentExempt::Enforce), pos + 1))
        },
        Keyword::Space => match assigned(tokens, pos) {
            Some(LexedTokenView::Literal(_, lexed)) => match space_entry(lexed) {
                Ok(entry) => Ok((entry, pos + 3)),
                Err(e) => Err(e),
            },
            Some(_) => Err(ParseError::InvalidSpace),
            None => Err(ParseError::InvalidSyntax),
        },
    }
}

/// The entry that starts at `pos`, and the position after it.
pub open spec fn entry_at(tokens: Seq<LexedTokenView>, pos: int) -> Result<
    (EntryView, int),
    ParseError,
>
    recommends
        0 <= pos < tokens.len(),
{
    match tokens[pos] {
        LexedTokenView::Ident(name) => match keyword_of(name) {
            Some(keyword) => keyword_entry(keyword, tokens, pos),
            None => Err(ParseError::InvalidSyntax),
        },
        LexedTokenView::Punct(c) => if c == ',' {
            Ok((EntryView::Separator, pos + 1))
        } else {
            Err(ParseError::InvalidSyntax)
        },
        LexedTokenView::Literal(_, lexed) => match literal_entry(lexed) {
            Ok(entry) => Ok((entry, pos + 1)),
            Err(e) => Err(e),
        },
        LexedTokenView::Group(_, _) => Err(ParseError::InvalidSyntax),
    }
}

/// The token that the keyword at `pos` is assigned, if the `=` and the
/// token are there.
fn assigned_token(tokens: &Vec<LexedToken>, pos: usize) -> (value: Option<&LexedToken>)
    requires
        pos < tokens.len(),
    ensures
        value.deep_view() == assigned(tokens.deep_view(), pos as int),
{
    if tokens.len() - pos > 2 {
        let is_assignment = match &tokens[pos + 1] {
            LexedToken::Punct(c) => *c == '=',
            _ => false,
        };
        if is_assignment {
            Some(&tokens[pos + 2])
        } else {
            None
        }
    } else {
        None
    }
}

/// The identifier that the keyword at `pos` is assigned.
fn assigned_name(tokens: &Vec<LexedToken>, pos: usize) -> (name: Option<String>)
    requires
        pos < tokens.len(),
    ensures
        name.deep_view() == assigned_ident(tokens.deep_view(), pos as int),
{
    match assigned_token(tokens, pos) {
        Some(LexedToken::Ident(name)) => Some(name.clone()),
        _ => None,
    }
}

impl Entry {
    /// The entry that a literal on its own makes, given what its text was
    /// lexed into.
    pub fn literal(lexed_text: Option<proc_macro2::TokenStream>) -> (entry: Result<
        Entry,
        ParseError,
    >)
        ensures
            entry_view(entry) == literal_entry(optional_stream_tokens(lexed_text)),
    {
        match lexed_text {
            Some(tokens) => Ok(Entry::Literal(tokens)),
            None => Err(ParseError::InvalidExpression),
        }
    }

    /// The entry that `space = <literal>` makes, given what the literal's
    /// text was lexed into.
    pub fn space(lexed_text: Option<proc_macro2::TokenStream>) -> (entry: Result<
        Entry,
        ParseError,
    >)
        ensures
            entry_view(entry) == space_entry(optional_stream_tokens(lexed_text)),
    {
        match lexed_text {
            Some(tokens) => Ok(Entry::Space(tokens)),
            None => Err(ParseError::InvalidExpression),
        }
    }
}

/// The reading of an entry or of the failure to make one.
pub open spec fn entry_view(entry: Result<Entry, ParseError>) -> Result<EntryView, ParseError> {
    match entry {
        Ok(entry) => Ok(entry.deep_view()),
        Err(e) => Err(e),
    }
}

/// The reading of an entry with the position after it, or of a failure.
pub open spec fn step_view(step: Result<(Entry, usize), ParseError>) -> Result<
    (EntryView, int),
    ParseError,
> {
    match step {
        Ok((entry, next)) => Ok((entry.deep_view(), next as int)),
        Err(e) => Err(e),
    }
}

/// The text of a literal with its double quotes taken out: what is handed
/// to the lexer.
pub fn unquote(literal: &String) -> (text: String)
    ensures
        text@ == unquoted(literal@),
{
    remove_char(literal.as_str(), '"')
}

/// Lexes the text of a literal, double quotes taken out. What comes back is
/// for the lexer to decide.
fn lex_unquoted(literal: &String) -> Option<proc_macro2::TokenStream> {
    let text = unquote(literal);
    match lex(text.as_str()) {
        Ok(stream) => Some(stream),
        Err(_) => None,
    }
}

/// Lexes every literal among the tokens and hands the tokens on, each
/// literal with what lexing its unquoted text came to. The tokens
/// themselves are kept as they are: as many, of the same kinds, with the
/// same texts and streams.
pub fn lex_literals(tokens: &Vec<Token>) -> (lexed: Vec<LexedToken>)
    ensures
        tokens_of(lexed.deep_view()) == tokens.deep_view(),
{
    let mut lexed: Vec<LexedToken> = Vec::new();
    let mut i: usize = 0;
    while i < tokens.len()
        invariant
            i <= tokens.len(),
            lexed.len() == i,
            forall|k: int|
                0 <= k < i ==> (#[trigger] lexed@[k]).deep_view().token()
                    == tokens@[k].deep_view(),
        decreases tokens.len() - i,
    {
        let token = match &tokens[i] {
            Token::Ident(name) => LexedToken::Ident(name.clone()),
            Token::Punct(c) => LexedToken::Punct(*c),
            Token::Literal(text) => LexedToken::Literal(text.clone(), lex_unquoted(text)),
            Token::Group(delimiter, stream) => LexedToken::Group(*delimiter, stream.clone()),
        };
        lexed.push(token);
        i += 1;
    }
    assert(tokens_of(lexed.deep_view()) =~= tokens.deep_view());
    lexed
}

/// A copy of what a literal's text was lexed into.
fn clone_lexed(lexed: &Option<proc_macro2::TokenStream>) -> (copy: Option<
    proc_macro2::TokenStream,
>)
    ensures
        optional_stream_tokens(copy) == optional_stream_tokens(*lexed),
{
    match lexed {
        Some(stream) => Some(stream.clone()),
        None => None,
    }
}

/// Reads the entry that starts with `keyword` at `pos`.
fn read_keyword(keyword: Keyword, tokens: &Vec<LexedToken>, pos: usize) -> (step: Result<
    (Entry, usize),
    ParseError,
>)
    requires
        pos < tokens.len(),
    ensures
        step_view(step) == keyword_entry(keyword, tokens.deep_view(), pos as int),
{
    match keyword {
        Keyword::Init => Ok((Entry::Init, pos + 1)),
        Keyword::Mut => Ok((Entry::Mut, pos + 1)),
        Keyword::Signer => Ok((Entry::Signer, pos + 1)),
        Keyword::Executable => Ok((Entry::Executable, pos + 1)),
        Keyword::Seeds => match assigned_token(tokens, pos) {
            Some(LexedToken::Group(delimiter, seeds)) => Ok(
                (Entry::Seeds(*delimiter, seeds.clone()), pos + 3),
            ),
            _ => Err(ParseError::InvalidSyntax),
        },
        Keyword::BelongsTo => match assigned_name(tokens, pos) {
            Some(target) => Ok((Entry::BelongsTo(target), pos + 3)),
            None => Err(ParseError::InvalidSyntax),
        },
        Keyword::Owner => match assigned_name(tokens, pos) {
            Some(target) => Ok((Entry::Owner(target), pos + 3)),
            None => Err(ParseError::InvalidSyntax),
        },
        Keyword::State => match assigned_name(tokens, pos) {
            Some(target) => Ok((Entry::State(target), pos + 3)),
            None => Err(ParseError::InvalidSyntax),
        },
        Keyword::Associated => match assigned_name(tokens, pos) {
            Some(target) => Ok((Entry::Associated(target), pos + 3)),
            None => Err(ParseError::InvalidSyntax),
        },
        Keyword::With => match assigned_name(tokens, pos) {
            Some(seed) => Ok((Entry::With(seed), pos + 3)),
            None => Err(ParseError::InvalidSyntax),
        },
        Keyword::Payer => match assigned_name(tokens, pos) {
            Some(payer) => Ok((Entry::Payer(payer), pos + 3)),
            None => Err(ParseError::InvalidSyntax),
        },
        Keyword::RentExempt => {
            let takes_value = tokens.len() - pos > 1 && match &tokens[pos + 1] {
                LexedToken::Punct(c) => *c == '=',
                _ => false,
            };
            if takes_value {
                match assigned_name(tokens, pos) {
                    Some(value) => {
                        if is_word(&value, "skip") {
                            Ok((Entry::RentExempt(ConstraintRentExempt::Skip), pos + 3))
                        } else {
                            Err(ParseError::InvalidRentExempt)
                        }
                    },
                    None => Err(ParseError::InvalidSyntax),
                }
            } else {
                Ok((Entry::RentExempt(ConstraintRentExempt::Enforce), pos + 1))
            }
        },
        Keyword::Space => match assigned_token(tokens, pos) {
            Some(LexedToken::Literal(_, lexed)) => match Entry::space(clone_lexed(lexed)) {
                Ok(entry) => Ok((entry, pos + 3)),
                Err(e) => Err(e),
            },
            Some(_) => Err(ParseError::InvalidSpace),
            None => Err(ParseError::InvalidSyntax),
        },
    }
}

/// Reads the entry that starts at `pos`: which entry it is, and where the
/// next one starts.
fn next_entry(tokens: &Vec<LexedToken>, pos: usize) -> (step: Result<
    (Entry, usize),
    ParseError,
>)
    requires
        pos < tokens.len(),
    ensures
        step_view(step) == entry_at(tokens.deep_view(), pos as int),
        step matches Ok((_, next)) ==> pos < next <= tokens.len(),
{
    match &tokens[pos] {
        LexedToken::Ident(name) => match keyword(name) {
            Some(keyword) => read_keyword(keyword, tokens, pos),
            None => Err(ParseError::InvalidSyntax),
        },
        LexedToken::Punct(c) => {
            if *c == ',' {
                Ok((Entry::Separator, pos + 1))
            } else {
                Err(ParseError::InvalidSyntax)
            }
        },
        LexedToken::Literal(_, lexed) => match Entry::literal(clone_lexed(lexed)) {
            Ok(entry) => Ok((entry, pos + 1)),
            Err(e) => Err(e),
        },
        LexedToken::Group(_, _) => Err(ParseError::InvalidSyntax),
    }
}

/// What has been read of an attribute so far.
#[derive(Clone, Debug)]
pub struct Scan {
    pub constraints: Vec<Constraint>,
    pub is_init: bool,
    pub is_mut: bool,
    pub is_signer: bool,
    /// The rent-exemption state, once a keyword has set it.
    pub rent_exempt: Option<ConstraintRentExempt>,
    pub payer: Option<String>,
    pub space: Option<proc_macro2::TokenStream>,
    pub is_associated: bool,
    pub associated_seeds: Vec<String>,
}

/// The mathematical reading of a [`Scan`].
pub struct ScanView {
    pub constraints: Seq<ConstraintView>,
    pub is_init: bool,
    pub is_mut: bool,
    pub is_signer: bool,
    pub rent_exempt: Option<ConstraintRentExempt>,
    pub payer: Option<Seq<char>>,
    pub space: Option<Seq<TokenView>>,
    pub is_associated: bool,
    pub associated_seeds: Seq<Seq<char>>,
}

impl DeepView for Scan {
    type V = ScanView;

    open spec fn deep_view(&self) -> ScanView {
        ScanView {
            constraints: self.constraints.deep_view(),
            is_init: self.is_init,
            is_mut: self.is_mut,
            is_signer: self.is_signer,
            rent_exempt: self.rent_exempt,
            payer: self.payer.deep_view(),
            space: optional_stream_tokens(self.space),
            is_associated: self.is_associated,
            associated_seeds: self.associated_seeds.deep_view(),
        }
    }
}

impl ScanView {
    /// Nothing read yet.
    pub open spec fn start() -> ScanView {
        ScanView {
            constraints: Seq::empty(),
            is_init: false,
            is_mut: false,
            is_signer: false,
            rent_exempt: None,
            payer: None,
            space: None,
            is_associated: false,
            associated_seeds: Seq::empty(),
        }
    }

    /// This state with one more constraint at the end of its list.
    pub open spec fn with_constraint(self, constraint: ConstraintView) -> ScanView {
        ScanView { constraints: self.constraints.push(constraint), ..self }
    }

    /// The state after one more entry.
    pub open spec fn apply(self, entry: EntryView) -> ScanView {
        match entry {
            EntryView::Separator => self,
            EntryView::Init => ScanView {
                is_init: true,
                is_mut: true,
                rent_exempt: if self.rent_exempt is None {
                    Some(ConstraintRentExempt::Enforce)
                } else {
                    self.rent_exempt
                },
                ..self
            },
            EntryView::Mut => ScanView { is_mut: true, ..self },
            EntryView::Signer => ScanView { is_signer: true, ..self }.with_constraint(
                ConstraintView::Signer,
            ),
            EntryView::Seeds(delimiter, seeds) => self.with_constraint(
                ConstraintView::Seeds { delimiter, seeds },
            ),
            EntryView::BelongsTo(join_target) => self.with_constraint(
                ConstraintView::BelongsTo { join_target },
            ),
            EntryView::Owner(owner_target) => self.with_constraint(
                ConstraintView::Owner { owner_target },
            ),
            EntryView::RentExempt(rent) => ScanView { rent_exempt: Some(rent), ..self },
            EntryView::Executable => self.with_constraint(ConstraintView::Executable),
            EntryView::State(program_target) => self.with_constraint(
                ConstraintView::State { program_target },
            ),
            EntryView::Associated(associated_target) => ScanView {
                is_associated: true,
                is_mut: true,
                ..self
            }.with_constraint(
                ConstraintView::Associated { associated_target, is_init: self.is_init },
            ),
            EntryView::With(seed) => ScanView {
                associated_seeds: self.associated_seeds.push(seed),
                ..self
            },
            EntryView::Payer(payer) => ScanView { payer: Some(payer), ..self },
            EntryView::Space(space) => ScanView { space: Some(space), ..self },
            EntryView::Literal(tokens) => self.with_constraint(ConstraintView::Literal { tokens }),
        }
    }

    /// The constraints as they stand once the whole attribute is read: with
    /// `init` anywhere in it, every associated constraint creates its
    /// account; and the rent-exemption constraint, if there is one, comes
    /// last.
    pub open spec fn settled_constraints(self) -> Seq<ConstraintView> {
        let marked = if self.is_init {
            self.constraints.map_values(|c: ConstraintView| c.marked_init())
        } else {
            self.constraints
        };
        match self.rent_exempt {
            Some(rent) => marked.push(ConstraintView::RentExempt(rent)),
            None => marked,
        }
    }

    /// What the attribute says, once all of it is read. An associated
    /// account is created by its own constraint, so `is_init` is dropped
    /// where the attribute holds `associated`.
    pub open spec fn finish(self) -> ConstraintGroupView {
        ConstraintGroupView {
            constraints: self.settled_constraints(),
            is_mut: self.is_mut,
            is_signer: self.is_signer,
            is_init: self.is_init && !self.is_associated,
            payer: self.payer,
            space: self.space,
            associated_seeds: self.associated_seeds,
        }
    }
}

/// The state after reading the entries from `pos` to the end, starting in
/// `state`; or the first failure on the way.
pub open spec fn scan_from(tokens: Seq<LexedTokenView>, pos: int, state: ScanView) -> Result<
    ScanView,
    ParseError,
>
    decreases tokens.len() - pos,
{
    if 0 <= pos < tokens.len() {
        match entry_at(tokens, pos) {
            Ok((entry, next)) => scan_from(tokens, next, state.apply(entry)),
            Err(e) => Err(e),
        }
    } else {
        Ok(state)
    }
}

/// What the tokens between an attribute's parentheses say of the field, or
/// why they are turned down; the tokens with their literals lexed.
pub open spec fn attribute_constraints(tokens: Seq<LexedTokenView>) -> Result<
    ConstraintGroupView,
    ParseError,
> {
    match scan_from(tokens, 0, ScanView::start()) {
        Ok(state) => Ok(state.finish()),
        Err(e) => Err(e),
    }
}

/// The reading of a parse result.
pub open spec fn group_view(group: Result<ConstraintGroup, ParseError>) -> Result<
    ConstraintGroupView,
    ParseError,
> {
    match group {
        Ok(group) => Ok(group.deep_view()),
        Err(e) => Err(e),
    }
}

impl Scan {
    /// Nothing read yet.
    pub fn start() -> (scan: Scan)
        ensures
            scan.deep_view() == ScanView::start(),
    {
        let scan = Scan {
            constraints: Vec::new(),
            is_init: false,
            is_mut: false,
            is_signer: false,
            rent_exempt: None,
            payer: None,
            space: None,
            is_associated: false,
            associated_seeds: Vec::new(),
        };
        assert(scan.constraints.deep_view() =~= Seq::empty());
        assert(scan.associated_seeds.deep_view() =~= Seq::empty());
        scan
    }

    /// Adds a constraint at the end of the list.
    fn push_constraint(&mut self, constraint: Constraint)
        ensures
            final(self).deep_view() == old(self).deep_view().with_constraint(
                constraint.deep_view(),
            ),
    {
        self.constraints.push(constraint);
        assert(self.constraints.deep_view() =~= old(self).constraints.deep_view().push(
            constraint.deep_view(),
        ));
    }

    /// Takes one more entry into account.
    pub fn apply(&mut self, entry: Entry)
        ensures
            final(self).deep_view() == old(self).deep_view().apply(entry.deep_view()),
    {
        match entry {
            Entry::Separator => {},
            Entry::Init => {
                self.is_init = true;
                self.is_mut = true;
                if self.rent_exempt.is_none() {
                    self.rent_exempt = Some(ConstraintRentExempt::Enforce);
                }
            },
            Entry::Mut => {
                self.is_mut = true;
            },
            Entry::Signer => {
                self.is_signer = true;
                self.push_constraint(Constraint::Signer);
            },
            Entry::Seeds(delimiter, seeds) => {
                self.push_constraint(Constraint::Seeds { delimiter, seeds });
            },
            Entry::BelongsTo(join_target) => {
                self.push_constraint(Constraint::BelongsTo { join_target });
            },
            Entry::Owner(owner_target) => {
                self.push_constraint(Constraint::Owner { owner_target });
            },
            Entry::RentExempt(rent) => {
                self.rent_exempt = Some(rent);
            },
            Entry::Executable => {
                self.push_constraint(Constraint::Executable);
            },
            Entry::State(program_target) => {
                self.push_constraint(Constraint::State { program_target });
            },
            Entry::Associated(associated_target) => {
                self.is_associated = true;
                self.is_mut = true;
                let is_init = self.is_init;
                self.push_constraint(Constraint::Associated { associated_target, is_init });
            },
            Entry::With(seed) => {
                self.associated_seeds.push(seed);
                assert(self.associated_seeds.deep_view() =~= old(
                    self,
                ).associated_seeds.deep_view().push(seed@));
            },
            Entry::Payer(payer) => {
                self.payer = Some(payer);
            },
            Entry::Space(space) => {
                self.space = Some(space);
            },
            Entry::Literal(tokens) => {
                self.push_constraint(Constraint::Literal { tokens });
            },
        }
    }

    /// Settles what depends on the attribute as a whole and hands out what
    /// it says of the field.
    pub fn finish(self) -> (group: ConstraintGroup)
        ensures
            group.deep_view() == self.deep_view().finish(),
    {
        let ghost given = self.constraints@;
        let mut constraints = self.constraints;
        if self.is_init {
            let mut i: usize = 0;
            while i < constraints.len()
                invariant
                    i <= constraints.len(),
                    constraints.len() == given.len(),
                    forall|k: int|
                        0 <= k < i ==> (#[trigger] constraints@[k]).deep_view()
                            == given[k].deep_view().marked_init(),
                    forall|k: int| i <= k < constraints.len() ==> constraints@[k] == given[k],
                decreases constraints.len() - i,
            {
                let target = match &constraints[i] {
                    Constraint::Associated { associated_target, .. } => Some(
                        associated_target.clone(),
                    ),
                    _ => None,
                };
                if let Some(associated_target) = target {
                    constraints.set(i, Constraint::Associated { associated_target, is_init: true });
                }
                i += 1;
            }
            assert(constraints.deep_view() =~= self.constraints.deep_view().map_values(
                |c: ConstraintView| c.marked_init(),
            ));
        }
        if let Some(rent) = self.rent_exempt {
            let ghost marked = constraints.deep_view();
            constraints.push(Constraint::RentExempt(rent));
            assert(constraints.deep_view() =~= marked.push(ConstraintView::RentExempt(rent)));
        }
        ConstraintGroup {
            constraints,
            is_mut: self.is_mut,
            is_signer: self.is_signer,
            is_init: self.is_init && !self.is_associated,
            payer: self.payer,
            space: self.space,
            associated_seeds: self.associated_seeds,
        }
    }
}

/// Reads the tokens between an attribute's parentheses, their literals
/// lexed.
///
/// Succeeds exactly on the token sequences of the grammar, with what they
/// say of the field; on any other, fails with the first failure met from
/// the left.
pub fn parse_tokens(tokens: &Vec<LexedToken>) -> (group: Result<ConstraintGroup, ParseError>)
    ensures
        group_view(group) == attribute_constraints(tokens.deep_view()),
        group matches Ok(group) ==> group.deep_view().well_formed(),
{
    proof {
        parsed_group_is_well_formed(tokens.deep_view());
    }
    let mut scan = Scan::start();
    let mut pos: usize = 0;
    while pos < tokens.len()
        invariant
            pos <= tokens.len(),
            scan_from(tokens.deep_view(), pos as int, scan.deep_view()) == scan_from(
                tokens.deep_view(),
                0,
                ScanView::start(),
            ),
        decreases tokens.len() - pos,
    {
        match next_entry(tokens, pos) {
            Ok((entry, next)) => {
                scan.apply(entry);
                pos = next;
            },
            Err(e) => {
                return Err(e);
            },
        }
    }
    Ok(scan.finish())
}

/// The tokens between the parentheses of an attribute: the stream inside
/// the group that the attribute's tokens start with.
pub open spec fn attribute_arguments(tokens: Seq<TokenView>) -> Result<
    Seq<TokenView>,
    ParseError,
> {
    if tokens.len() == 0 {
        Err(ParseError::MissingGroup)
    } else {
        match tokens[0] {
            TokenView::Group(_, inner) => Ok(inner),
            _ => Err(ParseError::InvalidSyntax),
        }
    }
}

/// Whether `group` is a reading of the tokens between an attribute's
/// parentheses: what the grammar makes of them once their literals are
/// lexed, whatever lexing comes to.
pub open spec fn arguments_read_as(
    tokens: Seq<TokenView>,
    group: Result<ConstraintGroupView, ParseError>,
) -> bool {
    exists|lexed: Seq<LexedTokenView>|
        tokens_of(lexed) == tokens && #[trigger] attribute_constraints(lexed) == group
}

/// Whether `group` is a reading of an attribute: the failure of an
/// attribute without a group, or else a reading of the tokens in its group.
pub open spec fn attribute_reads_as(
    anchor: AttributeView,
    group: Result<ConstraintGroupView, ParseError>,
) -> bool {
    match attribute_arguments(anchor.tokens) {
        Ok(inner) => arguments_read_as(inner, group),
        Err(e) => group == Err::<ConstraintGroupView, ParseError>(e),
    }
}

/// What an attribute without a literal among its arguments says of its
/// field. With no literal there is nothing to lex, and the attribute has
/// this one reading.
pub open spec fn parsed_attribute(anchor: AttributeView) -> Result<
    ConstraintGroupView,
    ParseError,
> {
    match attribute_arguments(anchor.tokens) {
        Ok(inner) => attribute_constraints(unlexed(inner)),
        Err(e) => Err(e),
    }
}

/// Whether a literal stands among the arguments of an attribute.
pub open spec fn lexes_a_literal(anchor: AttributeView) -> bool {
    attribute_arguments(anchor.tokens) matches Ok(inner) && has_literal(inner)
}

/// Reads one `account(...)` attribute.
///
/// The attribute's tokens must start with a group. The literals among the
/// tokens inside it are lexed by [`lex_literals`], and the tokens are then
/// read by [`parse_tokens`]. Where no literal stands among them, the result
/// is [`parsed_attribute`].
pub fn parse(anchor: &Attribute) -> (group: Result<ConstraintGroup, ParseError>)
    ensures
        attribute_reads_as(anchor.deep_view(), group_view(group)),
        !lexes_a_literal(anchor.deep_view()) ==> group_view(group) == parsed_attribute(
            anchor.deep_view(),
        ),
        group matches Ok(group) ==> group.deep_view().well_formed(),
{
    let outer = token_trees(&anchor.tokens);
    if outer.len() == 0 {
        return Err(ParseError::MissingGroup);
    }
    match &outer[0] {
        Token::Group(_, inner) => {
            let tokens = token_trees(inner);
            let lexed = lex_literals(&tokens);
            let group = parse_tokens(&lexed);
            proof {
                assert(attribute_constraints(lexed.deep_view()) == group_view(group));
                if !has_literal(tokens.deep_view()) {
                    literal_free_tokens_lex_one_way(lexed.deep_view());
                }
            }
            group
        },
        _ => Err(ParseError::InvalidSyntax),
    }
}

} // verus!
