//! The accounts model: a structure's fields with their account types and
//! constraints.

use crate::constraint::{Constraint, ConstraintGroupView, ConstraintView};
use crate::syntax::{GenericParam, GenericParamView};
use crate::token::{optional_stream_tokens, TokenView};
use vstd::prelude::*;

verus! {

/// The sysvars that a `Sysvar` account may hold.
#[derive(Clone, Copy, Debug, PartialEq, Eq, Structural)]
pub enum SysvarTy {
    Clock,
    Rent,
    EpochSchedule,
    Fees,
    RecentBlockhashes,
    SlotHashes,
    SlotHistory,
    StakeHistory,
    Instructions,
    Rewards,
}

/// A `ProgramState` account and the type of its data.
#[derive(Clone, Debug)]
pub struct ProgramStateTy {
    pub account_ident: String,
}

/// A `CpiState` account and the type of its data.
#[derive(Clone, Debug)]
pub struct CpiStateTy {
    pub account_ident: String,
}

/// A `ProgramAccount` account and the type of its data.
#[derive(Clone, Debug)]
pub struct ProgramAccountTy {
    pub account_ident: String,
}

/// A `CpiAccount` account and the type of its data.
#[derive(Clone, Debug)]
pub struct CpiAccountTy {
    pub account_ident: String,
}

/// A `Loader` account and the type of its data.
#[derive(Clone, Debug)]
pub struct LoaderTy {
    pub account_ident: String,
}

impl DeepView for ProgramStateTy {
    type V = Seq<char>;

    open spec fn deep_view(&self) -> Seq<char> {
        self.account_ident@
    }
}

impl DeepView for CpiStateTy {
    type V = Seq<char>;

    open spec fn deep_view(&self) -> Seq<char> {
        self.account_ident@
    }
}

impl DeepView for ProgramAccountTy {
    type V = Seq<char>;

    open spec fn deep_view(&self) -> Seq<char> {
        self.account_ident@
    }
}

impl DeepView for CpiAccountTy {
    type V = Seq<char>;

    open spec fn deep_view(&self) -> Seq<char> {
        self.account_ident@
    }
}

impl DeepView for LoaderTy {
    type V = Seq<char>;

    open spec fn deep_view(&self) -> Seq<char> {
        self.account_ident@
    }
}

/// The account type of a field: which wrapper it is declared with and, where
/// the wrapper takes one, the type of the account's data.
#[derive(Clone, Debug)]
pub enum Ty {
    /// A raw account handle.
    AccountInfo,
    ProgramState(ProgramStateTy),
    CpiState(CpiStateTy),
    ProgramAccount(ProgramAccountTy),
    Loader(LoaderTy),
    CpiAccount(CpiAccountTy),
    Sysvar(SysvarTy),
}

/// The mathematical reading of a [`Ty`]; a wrapper holds the name of its
/// data type.
pub enum TyView {
    AccountInfo,
    ProgramState(Seq<char>),
    CpiState(Seq<char>),
    ProgramAccount(Seq<char>),
    Loader(Seq<char>),
    CpiAccount(Seq<char>),
    Sysvar(SysvarTy),
}

impl DeepView for Ty {
    type V = TyView;

    open spec fn deep_view(&self) -> TyView {
        match self {
            Ty::AccountInfo => TyView::AccountInfo,
            Ty::ProgramState(ty) => TyView::ProgramState(ty.deep_view()),
            Ty::CpiState(ty) => TyView::CpiState(ty.deep_view()),
            Ty::ProgramAccount(ty) => TyView::ProgramAccount(ty.deep_view()),
            Ty::Loader(ty) => TyView::Loader(ty.deep_view()),
            Ty::CpiAccount(ty) => TyView::CpiAccount(ty.deep_view()),
            Ty::Sysvar(sysvar) => TyView::Sysvar(*sysvar),
        }
    }
}

/// A field that is a single account.
#[derive(Clone, Debug)]
pub struct Field {
    pub ident: String,
    pub ty: Ty,
    /// The constraints, in the order in which they are checked.
    pub constraints: Vec<Constraint>,
    pub is_mut: bool,
    pub is_signer: bool,
    pub is_init: bool,
    /// The field that funds the allocation.
    pub payer: Option<String>,
    /// The size of the allocation, as an expression.
    pub space: Option<proc_macro2::TokenStream>,
    /// The fields whose addresses seed an associated address, in order.
    pub associated_seeds: Vec<String>,
}

/// The mathematical reading of a [`Field`].
pub struct FieldView {
    pub ident: Seq<char>,
    pub ty: TyView,
    pub constraints: Seq<ConstraintView>,
    pub is_mut: bool,
    pub is_signer: bool,
    pub is_init: bool,
    pub payer: Option<Seq<char>>,
    pub space: Option<Seq<TokenView>>,
    pub associated_seeds: Seq<Seq<char>>,
}

impl DeepView for Field {
    type V = FieldView;

    open spec fn deep_view(&self) -> FieldView {
        FieldView {
            ident: self.ident@,
            ty: self.ty.deep_view(),
            constraints: self.constraints.deep_view(),
            is_mut: self.is_mut,
            is_signer: self.is_signer,
            is_init: self.is_init,
            payer: self.payer.deep_view(),
            space: optional_stream_tokens(self.space),
            associated_seeds: self.associated_seeds.deep_view(),
        }
    }
}

impl FieldView {
    /// What the field's attribute said of it.
    pub open spec fn constraint_group(self) -> ConstraintGroupView {
        ConstraintGroupView {
            constraints: self.constraints,
            is_mut: self.is_mut,
            is_signer: self.is_signer,
            is_init: self.is_init,
            payer: self.payer,
            space: self.space,
            associated_seeds: self.associated_seeds,
        }
    }
}

/// A field that is itself a group of accounts, validated by the group's own
/// routine.
#[derive(Clone, Debug)]
pub struct CompositeField {
    pub ident: String,
    /// The name of the group's type.
    pub symbol: String,
    /// The constraints on the group as a whole.
    pub constraints: Vec<Constraint>,
}

/// The mathematical reading of a [`CompositeField`].
pub struct CompositeFieldView {
    pub ident: Seq<char>,
    pub symbol: Seq<char>,
    pub constraints: Seq<ConstraintView>,
}

impl DeepView for CompositeField {
    type V = CompositeFieldView;

    open spec fn deep_view(&self) -> CompositeFieldView {
        CompositeFieldView {
            ident: self.ident@,
            symbol: self.symbol@,
            constraints: self.constraints.deep_view(),
        }
    }
}

/// One field of an accounts structure.
#[derive(Clone, Debug)]
pub enum AccountField {
    Field(Field),
    CompositeField(CompositeField),
}

/// The mathematical reading of an [`AccountField`].
pub enum AccountFieldView {
    Field(FieldView),
    CompositeField(CompositeFieldView),
}

impl DeepView for AccountField {
    type V = AccountFieldView;

    open spec fn deep_view(&self) -> AccountFieldView {
        match self {
            AccountField::Field(field) => AccountFieldView::Field(field.deep_view()),
            AccountField::CompositeField(field) => AccountFieldView::CompositeField(
                field.deep_view(),
            ),
        }
    }
}

impl AccountFieldView {
    /// The field's name.
    pub open spec fn ident(self) -> Seq<char> {
        match self {
            AccountFieldView::Field(field) => field.ident,
            AccountFieldView::CompositeField(field) => field.ident,
        }
    }

    /// The field's own constraints.
    pub open spec fn constraints(self) -> Seq<ConstraintView> {
        match self {
            AccountFieldView::Field(field) => field.constraints,
            AccountFieldView::CompositeField(field) => field.constraints,
        }
    }

    /// Whether the field is a single account with an associated constraint
    /// that creates it.
    pub open spec fn is_associated_init(self) -> bool {
        match self {
            AccountFieldView::Field(field) => exists|k: int|
                0 <= k < field.constraints.len()
                    && (#[trigger] field.constraints[k]).is_associated_init(),
            AccountFieldView::CompositeField(_) => false,
        }
    }
}

impl AccountField {
    /// The field's name.
    pub fn ident(&self) -> (name: &String)
        ensures
            name@ == self.deep_view().ident(),
    {
        match self {
            AccountField::Field(field) => &field.ident,
            AccountField::CompositeField(field) => &field.ident,
        }
    }

    /// The field's own constraints.
    pub fn constraints(&self) -> (constraints: &Vec<Constraint>)
        ensures
            constraints.deep_view() == self.deep_view().constraints(),
    {
        match self {
            AccountField::Field(field) => &field.constraints,
            AccountField::CompositeField(field) => &field.constraints,
        }
    }
}

/// An accounts structure: its name, its generic parameters and its fields in
/// the order of their declaration. That order is the order in which account
/// records are consumed and constraints are checked.
#[derive(Clone, Debug)]
pub struct AccountsStruct {
    pub ident: String,
    pub generics: Vec<GenericParam>,
    pub fields: Vec<AccountField>,
}

/// The mathematical reading of an [`AccountsStruct`].
pub struct AccountsStructView {
    pub ident: Seq<char>,
    pub generics: Seq<GenericParamView>,
    pub fields: Seq<AccountFieldView>,
}

impl DeepView for AccountsStruct {
    type V = AccountsStructView;

    open spec fn deep_view(&self) -> AccountsStructView {
        AccountsStructView {
            ident: self.ident@,
            generics: self.generics.deep_view(),
            fields: self.fields.deep_view(),
        }
    }
}

impl AccountsStruct {
    /// An accounts structure of the given name, parameters and fields.
    pub fn new(ident: String, generics: Vec<GenericParam>, fields: Vec<AccountField>) -> (accs:
        AccountsStruct)
        ensures
            accs.deep_view() == (AccountsStructView {
                ident: ident@,
                generics: generics.deep_view(),
                fields: fields.deep_view(),
            }),
    {
        AccountsStruct { ident, generics, fields }
    }
}

} // verus!
