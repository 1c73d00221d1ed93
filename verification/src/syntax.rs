//! A structure definition, as far as account parsing reads it.
//!
//! These types hold in plain values what the parser looks at in a parsed
//! `struct` item: names, the shape of type paths, and each attribute's
//! tokens. Whoever parses the source text fills them in.

use crate::token::{stream_tokens, TokenView};
use vstd::prelude::*;

verus! {

/// One argument between the angle brackets of a path segment.
#[derive(Clone, Debug)]
pub enum GenericArgument {
    /// A lifetime, by its name.
    Lifetime(String),
    /// A type given by a path, by the names of the path's segments.
    TypePath(Vec<String>),
    /// Anything else: a type that is no path, a constant, a binding.
    Other,
}

/// The mathematical reading of a [`GenericArgument`].
pub enum GenericArgumentView {
    Lifetime(Seq<char>),
    TypePath(Seq<Seq<char>>),
    Other,
}

impl DeepView for GenericArgument {
    type V = GenericArgumentView;

    open spec fn deep_view(&self) -> GenericArgumentView {
        match self {
            GenericArgument::Lifetime(name) => GenericArgumentView::Lifetime(name@),
            GenericArgument::TypePath(segments) => GenericArgumentView::TypePath(
                segments.deep_view(),
            ),
            GenericArgument::Other => GenericArgumentView::Other,
        }
    }
}

/// The arguments that follow a path segment's name.
#[derive(Clone, Debug)]
pub enum PathArguments {
    /// No arguments.
    Absent,
    /// `<'a, T>`
    AngleBracketed(Vec<GenericArgument>),
    /// `(A, B) -> C`
    Parenthesized,
}

/// The mathematical reading of [`PathArguments`].
pub enum PathArgumentsView {
    Absent,
    AngleBracketed(Seq<GenericArgumentView>),
    Parenthesized,
}

impl DeepView for PathArguments {
    type V = PathArgumentsView;

    open spec fn deep_view(&self) -> PathArgumentsView {
        match self {
            PathArguments::Absent => PathArgumentsView::Absent,
            PathArguments::AngleBracketed(args) => PathArgumentsView::AngleBracketed(
                args.deep_view(),
            ),
            PathArguments::Parenthesized => PathArgumentsView::Parenthesized,
        }
    }
}

/// One segment of a path: a name and its arguments.
#[derive(Clone, Debug)]
pub struct PathSegment {
    pub ident: String,
    pub arguments: PathArguments,
}

/// The mathematical reading of a [`PathSegment`].
pub struct PathSegmentView {
    pub ident: Seq<char>,
    pub arguments: PathArgumentsView,
}

impl DeepView for PathSegment {
    type V = PathSegmentView;

    open spec fn deep_view(&self) -> PathSegmentView {
        PathSegmentView { ident: self.ident@, arguments: self.arguments.deep_view() }
    }
}

/// A path such as `ProgramAccount<'info, Data>` or `std::vec::Vec<u8>`.
#[derive(Clone, Debug)]
pub struct Path {
    /// Whether the path starts with `::`.
    pub leading_colon: bool,
    pub segments: Vec<PathSegment>,
}

/// The mathematical reading of a [`Path`].
pub struct PathView {
    pub leading_colon: bool,
    pub segments: Seq<PathSegmentView>,
}

impl DeepView for Path {
    type V = PathView;

    open spec fn deep_view(&self) -> PathView {
        PathView { leading_colon: self.leading_colon, segments: self.segments.deep_view() }
    }
}

impl PathView {
    /// The path's only name, where the path is a single bare identifier: no
    /// leading `::`, one segment, no arguments.
    pub open spec fn get_ident(self) -> Option<Seq<char>> {
        if !self.leading_colon && self.segments.len() == 1
            && self.segments[0].arguments is Absent {
            Some(self.segments[0].ident)
        } else {
            None
        }
    }
}

/// The type of a field.
#[derive(Clone, Debug)]
pub enum Type {
    /// A type given by a path.
    Path(Path),
    /// Any other type: a reference, a tuple, an array.
    Other,
}

/// The mathematical reading of a [`Type`].
pub enum TypeView {
    Path(PathView),
    Other,
}

impl DeepView for Type {
    type V = TypeView;

    open spec fn deep_view(&self) -> TypeView {
        match self {
            Type::Path(path) => TypeView::Path(path.deep_view()),
            Type::Other => TypeView::Other,
        }
    }
}

/// One attribute: `#[path tokens]`.
#[derive(Clone, Debug)]
pub struct Attribute {
    pub path: Path,
    /// Everything after the path; for `#[account(mut)]` a stream of one
    /// parenthesized group.
    pub tokens: proc_macro2::TokenStream,
}

/// The mathematical reading of an [`Attribute`].
pub struct AttributeView {
    pub path: PathView,
    pub tokens: Seq<TokenView>,
}

impl DeepView for Attribute {
    type V = AttributeView;

    open spec fn deep_view(&self) -> AttributeView {
        AttributeView { path: self.path.deep_view(), tokens: stream_tokens(self.tokens) }
    }
}

/// One named field of a structure.
#[derive(Clone, Debug)]
pub struct StructField {
    pub attrs: Vec<Attribute>,
    pub ident: String,
    pub ty: Type,
}

/// The mathematical reading of a [`StructField`].
pub struct StructFieldView {
    pub attrs: Seq<AttributeView>,
    pub ident: Seq<char>,
    pub ty: TypeView,
}

impl DeepView for StructField {
    type V = StructFieldView;

    open spec fn deep_view(&self) -> StructFieldView {
        StructFieldView {
            attrs: self.attrs.deep_view(),
            ident: self.ident@,
            ty: self.ty.deep_view(),
        }
    }
}

/// The fields of a structure.
#[derive(Clone, Debug)]
pub enum Fields {
    /// `struct S { a: A, b: B }`
    Named(Vec<StructField>),
    /// `struct S(A, B);`
    Unnamed,
    /// `struct S;`
    Unit,
}

/// The mathematical reading of [`Fields`].
pub enum FieldsView {
    Named(Seq<StructFieldView>),
    Unnamed,
    Unit,
}

impl DeepView for Fields {
    type V = FieldsView;

    open spec fn deep_view(&self) -> FieldsView {
        match self {
            Fields::Named(fields) => FieldsView::Named(fields.deep_view()),
            Fields::Unnamed => FieldsView::Unnamed,
            Fields::Unit => FieldsView::Unit,
        }
    }
}

/// A generic parameter of a structure, by its name.
#[derive(Clone, Debug)]
pub enum GenericParam {
    Lifetime(String),
    Type(String),
    Const(String),
}

/// The mathematical reading of a [`GenericParam`].
pub enum GenericParamView {
    Lifetime(Seq<char>),
    Type(Seq<char>),
    Const(Seq<char>),
}

impl DeepView for GenericParam {
    type V = GenericParamView;

    open spec fn deep_view(&self) -> GenericParamView {
        match self {
            GenericParam::Lifetime(name) => GenericParamView::Lifetime(name@),
            GenericParam::Type(name) => GenericParamView::Type(name@),
            GenericParam::Const(name) => GenericParamView::Const(name@),
        }
    }
}

/// A structure definition.
#[derive(Clone, Debug)]
pub struct ItemStruct {
    pub ident: String,
    pub generics: Vec<GenericParam>,
    pub fields: Fields,
}

/// The mathematical reading of an [`ItemStruct`].
pub struct ItemStructView {
    pub ident: Seq<char>,
    pub generics: Seq<GenericParamView>,
    pub fields: FieldsView,
}

impl DeepView for ItemStruct {
    type V = ItemStructView;

    open spec fn deep_view(&self) -> ItemStructView {
        ItemStructView {
            ident: self.ident@,
            generics: self.generics.deep_view(),
            fields: self.fields.deep_view(),
        }
    }
}

} // verus!
