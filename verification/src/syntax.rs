//! The parts of a function item that weaving reads, and the aspect that is woven in.
//!
//! What weaving only copies is kept as the tokens it is printed as.

use crate::tokens::{ident_span, ident_text, stream_toks, Tok};
use proc_macro2::{Ident, Span, TokenStream};
use vstd::prelude::*;

verus! {

/// An identifier: its text and the place it is resolved at.
pub struct Name {
    pub text: Seq<char>,
    pub span: Span,
}

impl Name {
    /// The identifier as a token.
    pub open spec fn tok(self) -> Tok {
        Tok::Ident(self.text, self.span)
    }
}

/// What an identifier is made of.
pub open spec fn name_of(ident: Ident) -> Name {
    Name { text: ident_text(ident), span: ident_span(ident) }
}

/// What identifiers are made of, in their order.
pub open spec fn names_of(idents: Seq<Ident>) -> Seq<Name> {
    Seq::new(idents.len(), |i: int| name_of(idents[i]))
}

/// A pattern, and the tokens it is printed as.
pub struct Pattern {
    pub shape: PatternShape,
    pub tokens: TokenStream,
}

/// The form of a pattern.
pub enum PatternShape {
    /// A binding, such as `x`, `mut x`, `ref x` or `x @ SUBPATTERN`, and whether a subpattern
    /// follows the name.
    Ident(Ident, bool),
    /// `&pattern`
    Reference(Box<Pattern>),
    /// `pattern: Type`
    Type(Box<Pattern>),
    /// `(pattern)`
    Paren(Box<Pattern>),
    /// `(a, b)`
    Tuple(Vec<Pattern>),
    /// `Variant(a, b)`
    TupleStruct(Vec<Pattern>),
    /// `Variant { a, b: c }`, by the patterns of its fields.
    Struct(Vec<Pattern>),
    /// `[a, b]`
    Slice(Vec<Pattern>),
    /// `A | B`
    Or(Vec<Pattern>),
    /// Any other pattern.
    Other,
}

/// What a `Pattern` holds.
pub struct PatternView {
    pub shape: PatternShapeView,
    pub tokens: Seq<Tok>,
}

/// What a `PatternShape` holds.
pub enum PatternShapeView {
    Ident(Name, bool),
    Reference(Box<PatternView>),
    Type(Box<PatternView>),
    Paren(Box<PatternView>),
    Tuple(Seq<PatternView>),
    TupleStruct(Seq<PatternView>),
    Struct(Seq<PatternView>),
    Slice(Seq<PatternView>),
    Or(Seq<PatternView>),
    Other,
}

/// What a pattern holds.
pub open spec fn pat_view(pat: Pattern) -> PatternView
    decreases pat,
{
    PatternView {
        shape: match pat.shape {
            PatternShape::Ident(ident, subpat) => PatternShapeView::Ident(name_of(ident), subpat),
            PatternShape::Reference(inner) => PatternShapeView::Reference(
                Box::new(pat_view(*inner)),
            ),
            PatternShape::Type(inner) => PatternShapeView::Type(Box::new(pat_view(*inner))),
            PatternShape::Paren(inner) => PatternShapeView::Paren(Box::new(pat_view(*inner))),
            PatternShape::Tuple(elems) => PatternShapeView::Tuple(pat_views(elems@)),
            PatternShape::TupleStruct(elems) => PatternShapeView::TupleStruct(pat_views(elems@)),
            PatternShape::Struct(fields) => PatternShapeView::Struct(pat_views(fields@)),
            PatternShape::Slice(elems) => PatternShapeView::Slice(pat_views(elems@)),
            PatternShape::Or(cases) => PatternShapeView::Or(pat_views(cases@)),
            PatternShape::Other => PatternShapeView::Other,
        },
        tokens: stream_toks(pat.tokens),
    }
}

/// What patterns hold, in their order.
pub open spec fn pat_views(pats: Seq<Pattern>) -> Seq<PatternView>
    decreases pats,
{
    if pats.len() == 0 {
        Seq::empty()
    } else {
        pat_views(pats.drop_last()).push(pat_view(pats.last()))
    }
}

impl View for Pattern {
    type V = PatternView;

    open spec fn view(&self) -> PatternView {
        pat_view(*self)
    }
}

/// A type, and the tokens it is printed as.
pub struct Ty {
    pub shape: TyShape,
    pub tokens: TokenStream,
}

/// The form of a type.
pub enum TyShape {
    /// A path such as `std::io::Result<T>`, by the identifiers of its segments.
    Path(Vec<Ident>),
    /// `impl Trait`
    ImplTrait,
    /// Any other type.
    Other,
}

/// What a `Ty` holds.
pub struct TyView {
    pub shape: TyShapeView,
    pub tokens: Seq<Tok>,
}

/// What a `TyShape` holds.
pub enum TyShapeView {
    Path(Seq<Name>),
    ImplTrait,
    Other,
}

impl View for Ty {
    type V = TyView;

    open spec fn view(&self) -> TyView {
        TyView {
            shape: match self.shape {
                TyShape::Path(segments) => TyShapeView::Path(names_of(segments@)),
                TyShape::ImplTrait => TyShapeView::ImplTrait,
                TyShape::Other => TyShapeView::Other,
            },
            tokens: stream_toks(self.tokens),
        }
    }
}

/// A parameter of a function.
pub enum Param {
    /// `self` in any of its forms.
    Receiver,
    /// A parameter of a given type, by its pattern.
    Typed(Pattern),
}

/// What a `Param` holds.
pub enum ParamView {
    Receiver,
    Typed(PatternView),
}

impl View for Param {
    type V = ParamView;

    open spec fn view(&self) -> ParamView {
        match *self {
            Param::Receiver => ParamView::Receiver,
            Param::Typed(pat) => ParamView::Typed(pat@),
        }
    }
}

/// What a function returns.
pub enum ReturnType {
    /// Nothing is written: `()`.
    Default,
    /// The arrow, and the type it points to.
    Type(TokenStream, Ty),
}

/// What a `ReturnType` holds.
pub enum ReturnTypeView {
    Default,
    Type(Seq<Tok>, TyView),
}

impl View for ReturnType {
    type V = ReturnTypeView;

    open spec fn view(&self) -> ReturnTypeView {
        match *self {
            ReturnType::Default => ReturnTypeView::Default,
            ReturnType::Type(arrow, ty) => ReturnTypeView::Type(stream_toks(arrow), ty@),
        }
    }
}

/// An attribute, and the tokens it is printed as.
pub struct Attr {
    /// Whether it is `#![..]`, in the body, and not `#[..]`, before the function.
    pub inner: bool,
    pub tokens: TokenStream,
}

/// What an `Attr` holds.
pub struct AttrView {
    pub inner: bool,
    pub tokens: Seq<Tok>,
}

impl View for Attr {
    type V = AttrView;

    open spec fn view(&self) -> AttrView {
        AttrView { inner: self.inner, tokens: stream_toks(self.tokens) }
    }
}

/// The signature of a function.
pub struct FnSig {
    /// `const`, or nothing.
    pub constness: TokenStream,
    /// `async`, where the function is asynchronous.
    pub asyncness: Option<TokenStream>,
    /// `unsafe`, or nothing.
    pub unsafety: TokenStream,
    /// `extern "C"`, or nothing.
    pub abi: TokenStream,
    /// `fn`
    pub fn_token: TokenStream,
    pub ident: Ident,
    /// The generic parameters with their angle brackets, or nothing.
    pub generics: TokenStream,
    /// The place of the parentheses.
    pub paren_span: Span,
    /// The parameters that are not variadic.
    pub inputs: Vec<Param>,
    /// The same parameters, as they are printed between the parentheses.
    pub input_tokens: TokenStream,
    /// Whether there are no such parameters, or a comma follows the last one.
    pub inputs_ended: bool,
    /// `...`, where the function is variadic.
    pub variadic: Option<TokenStream>,
    pub output: ReturnType,
    /// The `where` clause, or nothing.
    pub where_clause: TokenStream,
}

/// What a `FnSig` holds.
pub struct FnSigView {
    pub constness: Seq<Tok>,
    pub asyncness: Option<Seq<Tok>>,
    pub unsafety: Seq<Tok>,
    pub abi: Seq<Tok>,
    pub fn_token: Seq<Tok>,
    pub ident: Name,
    pub generics: Seq<Tok>,
    pub paren_span: Span,
    pub inputs: Seq<ParamView>,
    pub input_tokens: Seq<Tok>,
    pub inputs_ended: bool,
    pub variadic: Option<Seq<Tok>>,
    pub output: ReturnTypeView,
    pub where_clause: Seq<Tok>,
}

/// The tokens of a part that may be missing.
pub open spec fn optional_toks(part: Option<TokenStream>) -> Option<Seq<Tok>> {
    match part {
        Some(tokens) => Some(stream_toks(tokens)),
        None => None,
    }
}

/// What parameters hold, in their order.
pub open spec fn arg_views(args: Seq<Param>) -> Seq<ParamView> {
    Seq::new(args.len(), |i: int| args[i]@)
}

impl View for FnSig {
    type V = FnSigView;

    open spec fn view(&self) -> FnSigView {
        FnSigView {
            constness: stream_toks(self.constness),
            asyncness: optional_toks(self.asyncness),
            unsafety: stream_toks(self.unsafety),
            abi: stream_toks(self.abi),
            fn_token: stream_toks(self.fn_token),
            ident: name_of(self.ident),
            generics: stream_toks(self.generics),
            paren_span: self.paren_span,
            inputs: arg_views(self.inputs@),
            input_tokens: stream_toks(self.input_tokens),
            inputs_ended: self.inputs_ended,
            variadic: optional_toks(self.variadic),
            output: self.output@,
            where_clause: stream_toks(self.where_clause),
        }
    }
}

/// A function item.
pub struct FnItem {
    pub attrs: Vec<Attr>,
    /// `pub`, `pub(..)`, or nothing.
    pub vis: TokenStream,
    pub sig: FnSig,
    /// The place of the braces of the body.
    pub brace_span: Span,
    /// The statements between the braces of the body.
    pub stmts: TokenStream,
}

/// What an `FnItem` holds.
pub struct FnItemView {
    pub attrs: Seq<AttrView>,
    pub vis: Seq<Tok>,
    pub sig: FnSigView,
    pub brace_span: Span,
    pub stmts: Seq<Tok>,
}

/// What attributes hold, in their order.
pub open spec fn attr_views(attrs: Seq<Attr>) -> Seq<AttrView> {
    Seq::new(attrs.len(), |i: int| attrs[i]@)
}

impl View for FnItem {
    type V = FnItemView;

    open spec fn view(&self) -> FnItemView {
        FnItemView {
            attrs: attr_views(self.attrs@),
            vis: stream_toks(self.vis),
            sig: self.sig@,
            brace_span: self.brace_span,
            stmts: stream_toks(self.stmts),
        }
    }
}

/// The aspect that is woven into a function.
pub struct AspectInfo {
    /// The expression that makes the aspect.
    pub aspect_expr: TokenStream,
    /// Whether the aspect has an asynchronous `around` of its own.
    pub has_custom_async_around: bool,
}

/// What an `AspectInfo` holds.
pub struct AspectView {
    pub aspect_expr: Seq<Tok>,
    pub has_custom_async_around: bool,
}

impl View for AspectInfo {
    type V = AspectView;

    open spec fn view(&self) -> AspectView {
        AspectView {
            aspect_expr: stream_toks(self.aspect_expr),
            has_custom_async_around: self.has_custom_async_around,
        }
    }
}

} // verus!
