//! Reading an accounts structure.
//!
//! Each field is read in two steps: its `account(...)` attribute, if it has
//! one, gives the constraints; its declared type says whether it is a single
//! account of one of the wrapper kinds, or a nested group of accounts.
//!
//! What an attribute says depends on what lexing its literals comes to, and
//! that is for the lexer to decide. So the contracts here say two things: the
//! result is a reading of the input (`.._reads_as`), whatever the lexer
//! did; and where there is no literal to lex, the result is the one reading
//! that the input has.

use crate::accounts::{
    AccountField, AccountFieldView, AccountsStruct, AccountsStructView, CompositeField,
    CompositeFieldView, CpiAccountTy, CpiStateTy, Field, FieldView, LoaderTy, ProgramAccountTy,
    ProgramStateTy, SysvarTy, Ty, TyView,
};
use crate::constraint::{ConstraintGroup, ConstraintGroupView};
use crate::error::ParseError;
use crate::syntax::{
    Attribute, AttributeView, Fields, FieldsView, GenericArgument, GenericArgumentView,
    GenericParam, ItemStruct, ItemStructView, Path, PathArguments, PathArgumentsView, PathView,
    StructField, StructFieldView, Type, TypeView,
};
use crate::text::is_word;
use vstd::prelude::*;

pub mod constraints;
pub mod guarantees;

verus! {

/// The kinds of account wrapper that a field may be declared with.
#[derive(Clone, Copy, Debug, PartialEq, Eq, Structural)]
pub enum WrapperKind {
    ProgramState,
    ProgramAccount,
    CpiAccount,
    Sysvar,
    AccountInfo,
    CpiState,
    Loader,
}

/// The wrapper kind that a type name spells, if it spells one.
pub open spec fn wrapper_kind_of(name: Seq<char>) -> Option<WrapperKind> {
    if name == "ProgramState"@ {
        Some(WrapperKind::ProgramState)
    } else if name == "ProgramAccount"@ {
        Some(WrapperKind::ProgramAccount)
    } else if name == "CpiAccount"@ {
        Some(WrapperKind::CpiAccount)
    } else if name == "Sysvar"@ {
        Some(WrapperKind::Sysvar)
    } else if name == "AccountInfo"@ {
        Some(WrapperKind::AccountInfo)
    } else if name == "CpiState"@ {
        Some(WrapperKind::CpiState)
    } else if name == "Loader"@ {
        Some(WrapperKind::Loader)
    } else {
        None
    }
}

/// The sysvar that a type name spells, if it spells one.
pub open spec fn sysvar_of(name: Seq<char>) -> Option<SysvarTy> {
    if name == "Clock"@ {
        Some(SysvarTy::Clock)
    } else if name == "Rent"@ {
        Some(SysvarTy::Rent)
    } else if name == "EpochSchedule"@ {
        Some(SysvarTy::EpochSchedule)
    } else if name == "Fees"@ {
        Some(SysvarTy::Fees)
    } else if name == "RecentBlockhashes"@ {
        Some(SysvarTy::RecentBlockhashes)
    } else if name == "SlotHashes"@ {
        Some(SysvarTy::SlotHashes)
    } else if name == "SlotHistory"@ {
        Some(SysvarTy::SlotHistory)
    } else if name == "StakeHistory"@ {
        Some(SysvarTy::StakeHistory)
    } else if name == "Instructions"@ {
        Some(SysvarTy::Instructions)
    } else if name == "Rewards"@ {
        Some(SysvarTy::Rewards)
    } else {
        None
    }
}

/// Whether an attribute is an `account` attribute: its path is the single
/// bare identifier `account`.
pub open spec fn is_account_attribute(attr: AttributeView) -> bool {
    attr.path.get_ident() == Some("account"@)
}

/// The `account` attributes among a field's attributes, in order.
pub open spec fn account_attributes(attrs: Seq<AttributeView>) -> Seq<AttributeView> {
    attrs.filter(|attr: AttributeView| is_account_attribute(attr))
}

/// Whether `group` is a reading of a field's attributes: nothing without an
/// `account` attribute, a reading of the attribute with one, and a failure
/// with more.
pub open spec fn field_constraints_read_as(
    f: StructFieldView,
    group: Result<ConstraintGroupView, ParseError>,
) -> bool {
    let accounts = account_attributes(f.attrs);
    if accounts.len() == 0 {
        group == Ok::<ConstraintGroupView, ParseError>(ConstraintGroupView::empty())
    } else if accounts.len() == 1 {
        constraints::attribute_reads_as(accounts[0], group)
    } else {
        group == Err::<ConstraintGroupView, ParseError>(ParseError::MultipleAccountAttributes)
    }
}

/// Whether reading a field's attributes lexes a literal.
pub open spec fn field_lexes_a_literal(f: StructFieldView) -> bool {
    account_attributes(f.attrs).len() == 1 && constraints::lexes_a_literal(
        account_attributes(f.attrs)[0],
    )
}

/// What the attributes of a field say of it, where reading them lexes no
/// literal: nothing without an `account` attribute, what the attribute says
/// with one, and a failure with more.
pub open spec fn field_constraints(f: StructFieldView) -> Result<ConstraintGroupView, ParseError> {
    let accounts = account_attributes(f.attrs);
    if accounts.len() == 0 {
        Ok(ConstraintGroupView::empty())
    } else if accounts.len() == 1 {
        constraints::parsed_attribute(accounts[0])
    } else {
        Err(ParseError::MultipleAccountAttributes)
    }
}

/// The name that a field's type goes by: the only segment of its path.
pub open spec fn declared_name(ty: TypeView) -> Result<Seq<char>, ParseError> {
    match ty {
        TypeView::Path(path) => if path.segments.len() == 1 {
            Ok(path.segments[0].ident)
        } else {
            Err(ParseError::QualifiedType)
        },
        TypeView::Other => Err(ParseError::InvalidAccountSyntax),
    }
}

/// Whether a field's type is one of the account wrappers.
pub open spec fn is_primitive(ty: TypeView) -> Result<bool, ParseError> {
    match declared_name(ty) {
        Ok(name) => Ok(wrapper_kind_of(name) is Some),
        Err(e) => Err(e),
    }
}

/// The name of the data type that a wrapper's path carries: the path's first
/// segment has exactly two arguments in angle brackets, and the second is a
/// type whose path is a single name.
pub open spec fn inner_account(path: PathView) -> Option<Seq<char>> {
    if path.segments.len() == 0 {
        None
    } else {
        match path.segments[0].arguments {
            PathArgumentsView::AngleBracketed(args) => if args.len() == 2 {
                match args[1] {
                    GenericArgumentView::TypePath(names) => if names.len() == 1 {
                        Some(names[0])
                    } else {
                        None
                    },
                    _ => None,
                }
            } else {
                None
            },
            _ => None,
        }
    }
}

/// The data type of a wrapper, or the failure of a malformed one.
pub open spec fn account_ident(path: PathView) -> Result<Seq<char>, ParseError> {
    match inner_account(path) {
        Some(name) => Ok(name),
        None => Err(ParseError::InvalidProgramAccount),
    }
}

/// The sysvar that a `Sysvar` path names.
pub open spec fn sysvar_type(path: PathView) -> Result<SysvarTy, ParseError> {
    match inner_account(path) {
        Some(name) => match sysvar_of(name) {
            Some(sysvar) => Ok(sysvar),
            None => Err(ParseError::InvalidSysvar),
        },
        None => Err(ParseError::InvalidSysvar),
    }
}

/// The account type of a wrapper of the given kind and path.
pub open spec fn wrapper_type(kind: WrapperKind, path: PathView) -> Result<TyView, ParseError> {
    match kind {
        WrapperKind::AccountInfo => Ok(TyView::AccountInfo),
        WrapperKind::Sysvar => match sysvar_type(path) {
            Ok(sysvar) => Ok(TyView::Sysvar(sysvar)),
            Err(e) => Err(e),
        },
        WrapperKind::ProgramState => match account_ident(path) {
            Ok(name) => Ok(TyView::ProgramState(name)),
            Err(e) => Err(e),
        },
        WrapperKind::CpiState => match account_ident(path) {
            Ok(name) => Ok(TyView::CpiState(name)),
            Err(e) => Err(e),
        },
        WrapperKind::ProgramAccount => match account_ident(path) {
            Ok(name) => Ok(TyView::ProgramAccount(name)),
            Err(e) => Err(e),
        },
        WrapperKind::CpiAccount => match account_ident(path) {
            Ok(name) => Ok(TyView::CpiAccount(name)),
            Err(e) => Err(e),
        },
        WrapperKind::Loader => match account_ident(path) {
            Ok(name) => Ok(TyView::Loader(name)),
            Err(e) => Err(e),
        },
    }
}

/// The account type that a field's declared type stands for.
pub open spec fn account_type(ty: TypeView) -> Result<TyView, ParseError> {
    match ty {
        TypeView::Path(path) => match declared_name(ty) {
            Ok(name) => match wrapper_kind_of(name) {
                Some(kind) => wrapper_type(kind, path),
                None => Err(ParseError::InvalidAccountType),
            },
            Err(e) => Err(e),
        },
        TypeView::Other => Err(ParseError::InvalidAccountSyntax),
    }
}

/// The field of the accounts model that a structure's field stands for,
/// given the reading of its attributes. A failure to read the attributes
/// comes before any failure of the type.
pub open spec fn account_field_of(
    f: StructFieldView,
    group: Result<ConstraintGroupView, ParseError>,
) -> Result<AccountFieldView, ParseError> {
    match group {
        Ok(group) => match is_primitive(f.ty) {
            Ok(true) => match account_type(f.ty) {
                Ok(ty) => Ok(
                    AccountFieldView::Field(
                        FieldView {
                            ident: f.ident,
                            ty,
                            constraints: group.constraints,
                            is_mut: group.is_mut,
                            is_signer: group.is_signer,
                            is_init: group.is_init,
                            payer: group.payer,
                            space: group.space,
                            associated_seeds: group.associated_seeds,
                        },
                    ),
                ),
                Err(e) => Err(e),
            },
            Ok(false) => Ok(
                AccountFieldView::CompositeField(
                    CompositeFieldView {
                        ident: f.ident,
                        symbol: declared_name(f.ty)->Ok_0,
                        constraints: group.constraints,
                    },
                ),
            ),
            Err(e) => Err(e),
        },
        Err(e) => Err(e),
    }
}

/// Whether `field` is a reading of a structure's field: what the field
/// stands for under some reading of its attributes.
pub open spec fn field_reads_as(
    f: StructFieldView,
    field: Result<AccountFieldView, ParseError>,
) -> bool {
    exists|group: Result<ConstraintGroupView, ParseError>|
        field_constraints_read_as(f, group) && #[trigger] account_field_of(f, group) == field
}

/// Whether a structure's field has a reading that is no failure.
pub open spec fn field_can_be_read(f: StructFieldView) -> bool {
    exists|field: AccountFieldView|
        #[trigger] field_reads_as(f, Ok::<AccountFieldView, ParseError>(field))
}

/// Whether `parsed` is a reading of a run of fields: a reading of each field
/// in the order of declaration, or else the failure of the first field that
/// was read as one.
pub open spec fn fields_read_as(
    fields: Seq<StructFieldView>,
    parsed: Result<Seq<AccountFieldView>, ParseError>,
) -> bool {
    match parsed {
        Ok(parsed) => parsed.len() == fields.len() && forall|i: int|
            0 <= i < fields.len() ==> field_reads_as(
                #[trigger] fields[i],
                Ok::<AccountFieldView, ParseError>(parsed[i]),
            ),
        Err(e) => exists|i: int|
            0 <= i < fields.len() && field_reads_as(
                #[trigger] fields[i],
                Err::<AccountFieldView, ParseError>(e),
            ) && forall|j: int| 0 <= j < i ==> field_can_be_read(#[trigger] fields[j]),
    }
}

/// Whether `accs` is a reading of a structure definition: its name and
/// parameters with a reading of its named fields, or the failure of one of
/// them, or the failure of a structure without named fields.
pub open spec fn struct_reads_as(
    strct: ItemStructView,
    accs: Result<AccountsStructView, ParseError>,
) -> bool {
    match strct.fields {
        FieldsView::Named(fields) => match accs {
            Ok(accs) => accs.ident == strct.ident && accs.generics == strct.generics
                && fields_read_as(fields, Ok::<Seq<AccountFieldView>, ParseError>(accs.fields)),
            Err(e) => fields_read_as(fields, Err::<Seq<AccountFieldView>, ParseError>(e)),
        },
        _ => accs == Err::<AccountsStructView, ParseError>(ParseError::UnnamedFields),
    }
}

/// Whether reading a structure lexes a literal.
pub open spec fn struct_lexes_a_literal(strct: ItemStructView) -> bool {
    strct.fields matches FieldsView::Named(fields) && exists|i: int|
        0 <= i < fields.len() && field_lexes_a_literal(#[trigger] fields[i])
}

/// The field of the accounts model that a structure's field stands for,
/// where reading its attributes lexes no literal.
pub open spec fn account_field(f: StructFieldView) -> Result<AccountFieldView, ParseError> {
    account_field_of(f, field_constraints(f))
}

/// The fields of the accounts model that a run of fields stands for, or the
/// failure of the first field that has one; where reading them lexes no
/// literal.
pub open spec fn account_fields(fields: Seq<StructFieldView>) -> Result<
    Seq<AccountFieldView>,
    ParseError,
>
    decreases fields.len(),
{
    if fields.len() == 0 {
        Ok(Seq::empty())
    } else {
        match account_fields(fields.drop_last()) {
            Ok(parsed) => match account_field(fields.last()) {
                Ok(field) => Ok(parsed.push(field)),
                Err(e) => Err(e),
            },
            Err(e) => Err(e),
        }
    }
}

/// The accounts structure that a structure definition stands for, where
/// reading it lexes no literal.
pub open spec fn accounts_struct(strct: ItemStructView) -> Result<AccountsStructView, ParseError> {
    match strct.fields {
        FieldsView::Named(fields) => match account_fields(fields) {
            Ok(parsed) => Ok(
                AccountsStructView { ident: strct.ident, generics: strct.generics, fields: parsed },
            ),
            Err(e) => Err(e),
        },
        _ => Err(ParseError::UnnamedFields),
    }
}

/// The wrapper kind that a type name spells, if it spells one.
pub fn wrapper_kind(name: &String) -> (kind: Option<WrapperKind>)
    ensures
        kind == wrapper_kind_of(name@),
{
    if is_word(name, "ProgramState") {
        Some(WrapperKind::ProgramState)
    } else if is_word(name, "ProgramAccount") {
        Some(WrapperKind::ProgramAccount)
    } else if is_word(name, "CpiAccount") {
        Some(WrapperKind::CpiAccount)
    } else if is_word(name, "Sysvar") {
        Some(WrapperKind::Sysvar)
    } else if is_word(name, "AccountInfo") {
        Some(WrapperKind::AccountInfo)
    } else if is_word(name, "CpiState") {
        Some(WrapperKind::CpiState)
    } else if is_word(name, "Loader") {
        Some(WrapperKind::Loader)
    } else {
        None
    }
}

/// The sysvar that a type name spells, if it spells one.
pub fn sysvar(name: &String) -> (found: Option<SysvarTy>)
    ensures
        found == sysvar_of(name@),
{
    if is_word(name, "Clock") {
        Some(SysvarTy::Clock)
    } else if is_word(name, "Rent") {
        Some(SysvarTy::Rent)
    } else if is_word(name, "EpochSchedule") {
        Some(SysvarTy::EpochSchedule)
    } else if is_word(name, "Fees") {
        Some(SysvarTy::Fees)
    } else if is_word(name, "RecentBlockhashes") {
        Some(SysvarTy::RecentBlockhashes)
    } else if is_word(name, "SlotHashes") {
        Some(SysvarTy::SlotHashes)
    } else if is_word(name, "SlotHistory") {
        Some(SysvarTy::SlotHistory)
    } else if is_word(name, "StakeHistory") {
        Some(SysvarTy::StakeHistory)
    } else if is_word(name, "Instructions") {
        Some(SysvarTy::Instructions)
    } else if is_word(name, "Rewards") {
        Some(SysvarTy::Rewards)
    } else {
        None
    }
}

/// Whether an attribute is an `account` attribute.
pub fn is_account(attr: &Attribute) -> (yes: bool)
    ensures
        yes == is_account_attribute(attr.deep_view()),
{
    if attr.path.leading_colon || attr.path.segments.len() != 1 {
        return false;
    }
    let segment = &attr.path.segments[0];
    match &segment.arguments {
        PathArguments::Absent => is_word(&segment.ident, "account"),
        _ => false,
    }
}

/// `account_attributes` of a sequence with one more attribute at its end.
proof fn account_attributes_push(attrs: Seq<AttributeView>, attr: AttributeView)
    ensures
        account_attributes(attrs.push(attr)) == if is_account_attribute(attr) {
            account_attributes(attrs).push(attr)
        } else {
            account_attributes(attrs)
        },
{
    attrs.lemma_filter_push(attr, |a: AttributeView| is_account_attribute(a));
}

/// Reads what a field's attributes say of it.
///
/// A field without an `account` attribute has no constraint and no flag; one
/// with a single such attribute has what the attribute says; one with more
/// is turned down, whatever the attributes hold.
pub fn parse_constraints(f: &StructField) -> (group: Result<ConstraintGroup, ParseError>)
    ensures
        field_constraints_read_as(f.deep_view(), constraints::group_view(group)),
        !field_lexes_a_literal(f.deep_view()) ==> constraints::group_view(group)
            == field_constraints(f.deep_view()),
        group matches Ok(group) ==> group.deep_view().well_formed(),
{
    let mut found: Option<usize> = None;
    let mut several = false;
    let mut i: usize = 0;
    proof {
        assert(f.attrs.deep_view().take(0) =~= Seq::empty());
        reveal(Seq::filter);
    }
    while i < f.attrs.len()
        invariant
            i <= f.attrs.len(),
            several ==> found is Some,
            several ==> account_attributes(f.attrs.deep_view().take(i as int)).len() >= 2,
            !several ==> match found {
                Some(j) => j < i && account_attributes(f.attrs.deep_view().take(i as int))
                    == seq![f.attrs.deep_view()[j as int]],
                None => account_attributes(f.attrs.deep_view().take(i as int)).len() == 0,
            },
        decreases f.attrs.len() - i,
    {
        proof {
            let attrs = f.attrs.deep_view();
            assert(attrs.take(i + 1) =~= attrs.take(i as int).push(attrs[i as int]));
            account_attributes_push(attrs.take(i as int), attrs[i as int]);
        }
        if is_account(&f.attrs[i]) {
            if found.is_some() {
                several = true;
            } else {
                found = Some(i);
                proof {
                    let attrs = f.attrs.deep_view();
                    assert(account_attributes(attrs.take(i as int)).push(attrs[i as int])
                        =~= seq![attrs[i as int]]);
                }
            }
        }
        i += 1;
    }
    proof {
        let attrs = f.attrs.deep_view();
        assert(attrs.take(i as int) =~= attrs);
    }
    if several {
        Err(ParseError::MultipleAccountAttributes)
    } else {
        match found {
            Some(j) => constraints::parse(&f.attrs[j]),
            None => Ok(ConstraintGroup::empty()),
        }
    }
}

/// The name that a field's type goes by.
///
/// The type must be a path of a single segment; the name is that segment's.
pub fn ident_string(f: &StructField) -> (name: Result<String, ParseError>)
    ensures
        match name {
            Ok(name) => declared_name(f.deep_view().ty) == Ok::<Seq<char>, ParseError>(name@),
            Err(e) => declared_name(f.deep_view().ty) == Err::<Seq<char>, ParseError>(e),
        },
{
    match &f.ty {
        Type::Path(path) => {
            if path.segments.len() == 1 {
                Ok(path.segments[0].ident.clone())
            } else {
                Err(ParseError::QualifiedType)
            }
        },
        Type::Other => Err(ParseError::InvalidAccountSyntax),
    }
}

/// Whether a field is a single account: its type is one of the account
/// wrappers.
pub fn is_field_primitive(f: &StructField) -> (primitive: Result<bool, ParseError>)
    ensures
        primitive == is_primitive(f.deep_view().ty),
{
    match ident_string(f) {
        Ok(name) => Ok(wrapper_kind(&name).is_some()),
        Err(e) => Err(e),
    }
}

/// The name of the data type that a wrapper's path carries.
fn inner_ident(path: &Path) -> (name: Option<String>)
    ensures
        name.deep_view() == inner_account(path.deep_view()),
{
    if path.segments.len() == 0 {
        return None;
    }
    match &path.segments[0].arguments {
        PathArguments::AngleBracketed(args) => {
            if args.len() == 2 {
                match &args[1] {
                    GenericArgument::TypePath(names) => {
                        if names.len() == 1 {
                            Some(names[0].clone())
                        } else {
                            None
                        }
                    },
                    _ => None,
                }
            } else {
                None
            }
        },
        _ => None,
    }
}

/// The data type of an account wrapper.
///
/// The wrapper must have exactly two arguments in angle brackets, the second
/// a type given by a single name; that name is the data type.
pub fn parse_account(path: &Path) -> (name: Result<String, ParseError>)
    ensures
        match name {
            Ok(name) => account_ident(path.deep_view()) == Ok::<Seq<char>, ParseError>(name@),
            Err(e) => account_ident(path.deep_view()) == Err::<Seq<char>, ParseError>(e),
        },
{
    match inner_ident(path) {
        Some(name) => Ok(name),
        None => Err(ParseError::InvalidProgramAccount),
    }
}

/// Reads a `ProgramState` wrapper.
pub fn parse_program_state(path: &Path) -> (ty: Result<ProgramStateTy, ParseError>)
    ensures
        match ty {
            Ok(ty) => account_ident(path.deep_view()) == Ok::<Seq<char>, ParseError>(
                ty.deep_view(),
            ),
            Err(e) => account_ident(path.deep_view()) == Err::<Seq<char>, ParseError>(e),
        },
{
    match parse_account(path) {
        Ok(account_ident) => Ok(ProgramStateTy { account_ident }),
        Err(e) => Err(e),
    }
}

/// Reads a `CpiState` wrapper.
pub fn parse_cpi_state(path: &Path) -> (ty: Result<CpiStateTy, ParseError>)
    ensures
        match ty {
            Ok(ty) => account_ident(path.deep_view()) == Ok::<Seq<char>, ParseError>(
                ty.deep_view(),
            ),
            Err(e) => account_ident(path.deep_view()) == Err::<Seq<char>, ParseError>(e),
        },
{
    match parse_account(path) {
        Ok(account_ident) => Ok(CpiStateTy { account_ident }),
        Err(e) => Err(e),
    }
}

/// Reads a `CpiAccount` wrapper.
pub fn parse_cpi_account(path: &Path) -> (ty: Result<CpiAccountTy, ParseError>)
    ensures
        match ty {
            Ok(ty) => account_ident(path.deep_view()) == Ok::<Seq<char>, ParseError>(
                ty.deep_view(),
            ),
            Err(e) => account_ident(path.deep_view()) == Err::<Seq<char>, ParseError>(e),
        },
{
    match parse_account(path) {
        Ok(account_ident) => Ok(CpiAccountTy { account_ident }),
        Err(e) => Err(e),
    }
}

/// Reads a `ProgramAccount` wrapper.
pub fn parse_program_account(path: &Path) -> (ty: Result<ProgramAccountTy, ParseError>)
    ensures
        match ty {
            Ok(ty) => account_ident(path.deep_view()) == Ok::<Seq<char>, ParseError>(
                ty.deep_view(),
            ),
            Err(e) => account_ident(path.deep_view()) == Err::<Seq<char>, ParseError>(e),
        },
{
    match parse_account(path) {
        Ok(account_ident) => Ok(ProgramAccountTy { account_ident }),
        Err(e) => Err(e),
    }
}

/// Reads a `Loader` wrapper.
pub fn parse_program_account_zero_copy(path: &Path) -> (ty: Result<LoaderTy, ParseError>)
    ensures
        match ty {
            Ok(ty) => account_ident(path.deep_view()) == Ok::<Seq<char>, ParseError>(
                ty.deep_view(),
            ),
            Err(e) => account_ident(path.deep_view()) == Err::<Seq<char>, ParseError>(e),
        },
{
    match parse_account(path) {
        Ok(account_ident) => Ok(LoaderTy { account_ident }),
        Err(e) => Err(e),
    }
}

/// Reads a `Sysvar` wrapper: its arguments as for any wrapper, and the data
/// type one of the known sysvars.
pub fn parse_sysvar(path: &Path) -> (ty: Result<SysvarTy, ParseError>)
    ensures
        ty == sysvar_type(path.deep_view()),
{
    match inner_ident(path) {
        Some(name) => match sysvar(&name) {
            Some(found) => Ok(found),
            None => Err(ParseError::InvalidSysvar),
        },
        None => Err(ParseError::InvalidSysvar),
    }
}

/// The reading of an account type or of the failure to read one.
pub open spec fn ty_view(ty: Result<Ty, ParseError>) -> Result<TyView, ParseError> {
    match ty {
        Ok(ty) => Ok(ty.deep_view()),
        Err(e) => Err(e),
    }
}

/// Reads the account type of a field that is a single account.
pub fn parse_ty(f: &StructField) -> (ty: Result<Ty, ParseError>)
    ensures
        ty_view(ty) == account_type(f.deep_view().ty),
{
    let path = match &f.ty {
        Type::Path(path) => path,
        Type::Other => {
            return Err(ParseError::InvalidAccountSyntax);
        },
    };
    let name = match ident_string(f) {
        Ok(name) => name,
        Err(e) => {
            return Err(e);
        },
    };
    let kind = match wrapper_kind(&name) {
        Some(kind) => kind,
        None => {
            return Err(ParseError::InvalidAccountType);
        },
    };
    match kind {
        WrapperKind::AccountInfo => Ok(Ty::AccountInfo),
        WrapperKind::Sysvar => match parse_sysvar(path) {
            Ok(ty) => Ok(Ty::Sysvar(ty)),
            Err(e) => Err(e),
        },
        WrapperKind::ProgramState => match parse_program_state(path) {
            Ok(ty) => Ok(Ty::ProgramState(ty)),
            Err(e) => Err(e),
        },
        WrapperKind::CpiState => match parse_cpi_state(path) {
            Ok(ty) => Ok(Ty::CpiState(ty)),
            Err(e) => Err(e),
        },
        WrapperKind::ProgramAccount => match parse_program_account(path) {
            Ok(ty) => Ok(Ty::ProgramAccount(ty)),
            Err(e) => Err(e),
        },
        WrapperKind::CpiAccount => match parse_cpi_account(path) {
            Ok(ty) => Ok(Ty::CpiAccount(ty)),
            Err(e) => Err(e),
        },
        WrapperKind::Loader => match parse_program_account_zero_copy(path) {
            Ok(ty) => Ok(Ty::Loader(ty)),
            Err(e) => Err(e),
        },
    }
}

/// The reading of a field of the accounts model, or of a failure.
pub open spec fn account_field_view(field: Result<AccountField, ParseError>) -> Result<
    AccountFieldView,
    ParseError,
> {
    match field {
        Ok(field) => Ok(field.deep_view()),
        Err(e) => Err(e),
    }
}

/// Reads one field of a structure into the accounts model.
///
/// The attributes are read first, then the type: a field whose type is one
/// of the account wrappers is a single account, any other is a nested group
/// that goes by its type's name.
pub fn parse_account_field(f: &StructField) -> (field: Result<AccountField, ParseError>)
    ensures
        field_reads_as(f.deep_view(), account_field_view(field)),
        !field_lexes_a_literal(f.deep_view()) ==> account_field_view(field) == account_field(
            f.deep_view(),
        ),
        field matches Ok(AccountField::Field(field))
            ==> field.deep_view().constraint_group().well_formed(),
{
    let read = parse_constraints(f);
    let ghost reading = constraints::group_view(read);
    let field = field_with(f, read);
    assert(account_field_of(f.deep_view(), reading) == account_field_view(field));
    field
}

/// Makes the field of the accounts model from a structure's field and the
/// reading of its attributes.
fn field_with(f: &StructField, group: Result<ConstraintGroup, ParseError>) -> (field: Result<
    AccountField,
    ParseError,
>)
    ensures
        account_field_view(field) == account_field_of(
            f.deep_view(),
            constraints::group_view(group),
        ),
        field matches Ok(AccountField::Field(field)) ==> group matches Ok(group)
            && field.deep_view().constraint_group() == group.deep_view(),
{
    let group = match group {
        Ok(group) => group,
        Err(e) => {
            return Err(e);
        },
    };
    let ident = f.ident.clone();
    match is_field_primitive(f) {
        Ok(true) => match parse_ty(f) {
            Ok(ty) => Ok(
                AccountField::Field(
                    Field {
                        ident,
                        ty,
                        constraints: group.constraints,
                        is_mut: group.is_mut,
                        is_signer: group.is_signer,
                        is_init: group.is_init,
                        payer: group.payer,
                        space: group.space,
                        associated_seeds: group.associated_seeds,
                    },
                ),
            ),
            Err(e) => Err(e),
        },
        Ok(false) => match ident_string(f) {
            Ok(symbol) => Ok(
                AccountField::CompositeField(
                    CompositeField { ident, symbol, constraints: group.constraints },
                ),
            ),
            Err(e) => Err(e),
        },
        Err(e) => Err(e),
    }
}

/// Copies the generic parameters of a structure.
fn clone_generics(generics: &Vec<GenericParam>) -> (copy: Vec<GenericParam>)
    ensures
        copy.deep_view() == generics.deep_view(),
{
    let mut copy: Vec<GenericParam> = Vec::new();
    let mut i: usize = 0;
    while i < generics.len()
        invariant
            i <= generics.len(),
            copy.len() == i,
            forall|k: int|
                0 <= k < i ==> (#[trigger] copy@[k]).deep_view() == generics@[k].deep_view(),
        decreases generics.len() - i,
    {
        let param = match &generics[i] {
            GenericParam::Lifetime(name) => GenericParam::Lifetime(name.clone()),
            GenericParam::Type(name) => GenericParam::Type(name.clone()),
            GenericParam::Const(name) => GenericParam::Const(name.clone()),
        };
        copy.push(param);
        i += 1;
    }
    assert(copy.deep_view() =~= generics.deep_view());
    copy
}

/// The reading of an accounts structure, or of the failure to read one.
pub open spec fn accounts_struct_view(accs: Result<AccountsStruct, ParseError>) -> Result<
    AccountsStructView,
    ParseError,
> {
    match accs {
        Ok(accs) => Ok(accs.deep_view()),
        Err(e) => Err(e),
    }
}

/// Reads a structure definition into the accounts model.
///
/// The structure must have named fields. Its fields are read in the order
/// of their declaration, and the first that fails fails the structure.
pub fn parse(strct: &ItemStruct) -> (accs: Result<AccountsStruct, ParseError>)
    ensures
        struct_reads_as(strct.deep_view(), accounts_struct_view(accs)),
        !struct_lexes_a_literal(strct.deep_view()) ==> accounts_struct_view(accs)
            == accounts_struct(strct.deep_view()),
{
    let named = match &strct.fields {
        Fields::Named(named) => named,
        _ => {
            return Err(ParseError::UnnamedFields);
        },
    };
    let mut fields: Vec<AccountField> = Vec::new();
    let mut i: usize = 0;
    let ghost lexes = struct_lexes_a_literal(strct.deep_view());
    proof {
        assert(named.deep_view().take(0) =~= Seq::empty());
        assert(fields.deep_view() =~= Seq::empty());
    }
    while i < named.len()
        invariant
            i <= named.len(),
            fields.len() == i,
            strct.deep_view().fields == FieldsView::Named(named.deep_view()),
            lexes == struct_lexes_a_literal(strct.deep_view()),
            forall|j: int|
                0 <= j < i ==> field_reads_as(
                    #[trigger] named.deep_view()[j],
                    Ok::<AccountFieldView, ParseError>(fields.deep_view()[j]),
                ),
            !lexes ==> account_fields(named.deep_view().take(i as int)) == Ok::<
                Seq<AccountFieldView>,
                ParseError,
            >(fields.deep_view()),
        decreases named.len() - i,
    {
        proof {
            let all = named.deep_view();
            assert(all.take(i + 1).drop_last() =~= all.take(i as int));
            assert(all.take(i + 1).last() == all[i as int]);
            if !lexes {
                assert(!field_lexes_a_literal(all[i as int]));
            }
        }
        match parse_account_field(&named[i]) {
            Ok(field) => {
                let ghost before = fields.deep_view();
                fields.push(field);
                proof {
                    assert(fields.deep_view() =~= before.push(field.deep_view()));
                    assert forall|j: int| 0 <= j < i + 1 implies field_reads_as(
                        #[trigger] named.deep_view()[j],
                        Ok::<AccountFieldView, ParseError>(fields.deep_view()[j]),
                    ) by {
                        if j < i {
                            assert(fields.deep_view()[j] == before[j]);
                        }
                    }
                }
            },
            Err(e) => {
                proof {
                    let all = named.deep_view();
                    assert forall|j: int| 0 <= j < i implies field_can_be_read(
                        #[trigger] all[j],
                    ) by {
                        assert(field_reads_as(
                            all[j],
                            Ok::<AccountFieldView, ParseError>(fields.deep_view()[j]),
                        ));
                    }
                    assert(field_reads_as(all[i as int], Err::<AccountFieldView, ParseError>(e)));
                    if !lexes {
                        assert(account_fields(all.take(i + 1)) == Err::<
                            Seq<AccountFieldView>,
                            ParseError,
                        >(e));
                        first_failure_stands(all, i as int + 1);
                    }
                }
                return Err(e);
            },
        }
        i += 1;
    }
    assert(named.deep_view().take(i as int) =~= named.deep_view());
    Ok(AccountsStruct::new(strct.ident.clone(), clone_generics(&strct.generics), fields))
}

/// Once a run of fields fails, every longer run fails in the same way.
proof fn first_failure_stands(fields: Seq<StructFieldView>, n: int)
    requires
        0 <= n <= fields.len(),
        account_fields(fields.take(n)) is Err,
    ensures
        account_fields(fields) == account_fields(fields.take(n)),
    decreases fields.len() - n,
{
    if n < fields.len() {
        assert(fields.take(n + 1).drop_last() =~= fields.take(n));
        first_failure_stands(fields, n + 1);
    } else {
        assert(fields.take(n) =~= fields);
    }
}

} // verus!
