//! Reading a function that `syn` has parsed.
//!
//! The syntax trees of `syn` are opaque here. What each of them holds of the parts that weaving
//! reads has a name: `syn_item`, `syn_signature` and so on. The functions that take a tree apart
//! match on it or print a part of it with `quote::ToTokens`, and their contracts are taken on
//! trust; everything else is put together from them by verified code.

use self::PatParts::{
    AnyOf, Ascribed, Behind, Binding, Enclosed, Opaque, SliceOf, StructOf, TupleOf, TupleStructOf,
};
use crate::syntax::{
    arg_views, attr_views, name_of, optional_toks, pat_views, AspectInfo, AspectView, Attr,
    AttrView, FnItem, FnItemView, FnSig, FnSigView, Param, ParamView, Pattern, PatternShape,
    PatternShapeView, PatternView, ReturnType, ReturnTypeView, Ty, TyShape, TyView,
};
use crate::tokens::{copy_ident, stream_toks, Tok};
use proc_macro2::{Ident, Span, TokenStream};
use quote::{ToTokens, TokenStreamExt};
use syn::Pat;
use vstd::prelude::*;

verus! {

/// An expression.
#[verifier::external_type_specification]
#[verifier::external_body]
pub struct ExSynExpr(syn::Expr);

/// An attribute.
#[verifier::external_type_specification]
#[verifier::external_body]
pub struct ExSynAttribute(syn::Attribute);

/// A pattern.
#[verifier::external_type_specification]
#[verifier::external_body]
pub struct ExSynPat(syn::Pat);

/// A type.
#[verifier::external_type_specification]
#[verifier::external_body]
pub struct ExSynType(syn::Type);

/// A parameter.
#[verifier::external_type_specification]
#[verifier::external_body]
pub struct ExSynFnArg(syn::FnArg);

/// A signature.
#[verifier::external_type_specification]
#[verifier::external_body]
pub struct ExSynSignature(syn::Signature);

/// A function item.
#[verifier::external_type_specification]
#[verifier::external_body]
pub struct ExSynItemFn(syn::ItemFn);

/// The tokens that an expression is printed as.
pub uninterp spec fn syn_expr(expr: syn::Expr) -> Seq<Tok>;

/// What an attribute holds.
pub uninterp spec fn syn_attr(attr: syn::Attribute) -> AttrView;

/// What a pattern holds.
pub uninterp spec fn syn_pat(pat: syn::Pat) -> PatternView;

/// What a type holds.
pub uninterp spec fn syn_type(ty: syn::Type) -> TyView;

/// What a parameter holds.
pub uninterp spec fn syn_arg(arg: syn::FnArg) -> ParamView;

/// What a signature holds.
pub uninterp spec fn syn_signature(sig: syn::Signature) -> FnSigView;

/// What a function item holds.
pub uninterp spec fn syn_item(item: syn::ItemFn) -> FnItemView;

/// A pattern taken apart, one level deep.
pub enum PatParts<'a> {
    /// A binding, and whether a subpattern follows the name.
    Binding(&'a Ident, bool),
    /// The pattern behind a `&`.
    Behind(&'a syn::Pat),
    /// The pattern that a type is ascribed to.
    Ascribed(&'a syn::Pat),
    /// The pattern between parentheses.
    Enclosed(&'a syn::Pat),
    /// The elements of a tuple.
    TupleOf(Vec<&'a syn::Pat>),
    /// The elements of a tuple struct.
    TupleStructOf(Vec<&'a syn::Pat>),
    /// The patterns of the fields of a struct.
    StructOf(Vec<&'a syn::Pat>),
    /// The elements of a slice.
    SliceOf(Vec<&'a syn::Pat>),
    /// The alternatives.
    AnyOf(Vec<&'a syn::Pat>),
    /// Any other pattern.
    Opaque,
}

/// What patterns hold, in their order.
pub open spec fn syn_pats(pats: Seq<&syn::Pat>) -> Seq<PatternView> {
    Seq::new(pats.len(), |i: int| syn_pat(*pats[i]))
}

impl<'a> PatParts<'a> {
    /// The form of the pattern that was taken apart.
    pub open spec fn shape(self) -> PatternShapeView {
        match self {
            Binding(ident, subpat) => PatternShapeView::Ident(name_of(*ident), subpat),
            Behind(inner) => PatternShapeView::Reference(Box::new(syn_pat(*inner))),
            Ascribed(inner) => PatternShapeView::Type(Box::new(syn_pat(*inner))),
            Enclosed(inner) => PatternShapeView::Paren(Box::new(syn_pat(*inner))),
            TupleOf(elems) => PatternShapeView::Tuple(syn_pats(elems@)),
            TupleStructOf(elems) => PatternShapeView::TupleStruct(syn_pats(elems@)),
            StructOf(fields) => PatternShapeView::Struct(syn_pats(fields@)),
            SliceOf(elems) => PatternShapeView::Slice(syn_pats(elems@)),
            AnyOf(cases) => PatternShapeView::Or(syn_pats(cases@)),
            Opaque => PatternShapeView::Other,
        }
    }
}

/// The qualifiers of a signature: what stands before the name.
pub struct Qualifiers {
    pub constness: TokenStream,
    pub asyncness: Option<TokenStream>,
    pub unsafety: TokenStream,
    pub abi: TokenStream,
    pub fn_token: TokenStream,
}

/// What follows the qualifiers in a signature, taken apart one level deep.
pub struct SignatureParts<'a> {
    pub ident: Ident,
    pub generics: TokenStream,
    pub paren_span: Span,
    pub inputs: Vec<&'a syn::FnArg>,
    pub input_tokens: TokenStream,
    pub inputs_ended: bool,
    pub variadic: Option<TokenStream>,
    pub output: Option<(TokenStream, &'a syn::Type)>,
    pub where_clause: TokenStream,
}

/// What parameters hold, in their order.
pub open spec fn syn_args(args: Seq<&syn::FnArg>) -> Seq<ParamView> {
    Seq::new(args.len(), |i: int| syn_arg(*args[i]))
}

/// What a return type holds, by its arrow and its type.
pub open spec fn syn_output(output: Option<(TokenStream, &syn::Type)>) -> ReturnTypeView {
    match output {
        Some((arrow, ty)) => ReturnTypeView::Type(stream_toks(arrow), syn_type(*ty)),
        None => ReturnTypeView::Default,
    }
}

/// A function item taken apart, one level deep.
pub struct ItemParts<'a> {
    pub attrs: Vec<&'a syn::Attribute>,
    pub vis: TokenStream,
    pub sig: &'a syn::Signature,
    pub brace_span: Span,
    pub stmts: TokenStream,
}

impl<'a> View for ItemParts<'a> {
    type V = FnItemView;

    open spec fn view(&self) -> FnItemView {
        FnItemView {
            attrs: Seq::new(self.attrs@.len(), |i: int| syn_attr(*self.attrs@[i])),
            vis: stream_toks(self.vis),
            sig: syn_signature(*self.sig),
            brace_span: self.brace_span,
            stmts: stream_toks(self.stmts),
        }
    }
}

/// `ToTokens` of a `syn::Expr`: the tokens that the expression is printed as.
#[verifier::external_body]
fn expr_tokens(expr: &syn::Expr) -> (tokens: TokenStream)
    ensures
        stream_toks(tokens) == syn_expr(*expr),
{
    expr.to_token_stream()
}

/// `ToTokens` of a `syn::Attribute`, and its `style`.
#[verifier::external_body]
fn read_attr(attr: &syn::Attribute) -> (read: Attr)
    ensures
        read@ == syn_attr(*attr),
{
    let inner = match attr.style {
        syn::AttrStyle::Outer => false,
        syn::AttrStyle::Inner(_) => true,
    };
    Attr { inner, tokens: attr.to_token_stream() }
}

/// `ToTokens` of a `syn::Type`, and its variant, with the identifiers of the segments of a path.
#[verifier::external_body]
fn read_type(ty: &syn::Type) -> (read: Ty)
    ensures
        read@ == syn_type(*ty),
{
    let shape = match ty {
        syn::Type::Path(path) => TyShape::Path(
            path.path.segments.iter().map(|segment| segment.ident.clone()).collect(),
        ),
        syn::Type::ImplTrait(_) => TyShape::ImplTrait,
        _ => TyShape::Other,
    };
    Ty { shape, tokens: ty.to_token_stream() }
}

/// `ToTokens` of a `syn::Pat`: the tokens that the pattern is printed as.
#[verifier::external_body]
fn pat_tokens(pat: &syn::Pat) -> (tokens: TokenStream)
    ensures
        stream_toks(tokens) == syn_pat(*pat).tokens,
{
    pat.to_token_stream()
}

/// The variant of a `syn::Pat`, with the patterns it is made of.
#[verifier::external_body]
fn split_pat(pat: &syn::Pat) -> (parts: PatParts<'_>)
    ensures
        parts.shape() == syn_pat(*pat).shape,
{
    match pat {
        Pat::Ident(p) => Binding(&p.ident, p.subpat.is_some()),
        Pat::Reference(p) => Behind(&p.pat),
        Pat::Type(p) => Ascribed(&p.pat),
        Pat::Paren(p) => Enclosed(&p.pat),
        Pat::Tuple(p) => TupleOf(p.elems.iter().collect()),
        Pat::TupleStruct(p) => TupleStructOf(p.elems.iter().collect()),
        Pat::Struct(p) => StructOf(p.fields.iter().map(|f| &*f.pat).collect()),
        Pat::Slice(p) => SliceOf(p.elems.iter().collect()),
        Pat::Or(p) => AnyOf(p.cases.iter().collect()),
        _ => Opaque,
    }
}

/// The variant of a `syn::FnArg`, with the pattern of a parameter that has one.
#[verifier::external_body]
fn split_arg(arg: &syn::FnArg) -> (pat: Option<&syn::Pat>)
    ensures
        syn_arg(*arg) == match pat {
            Some(pat) => ParamView::Typed(syn_pat(*pat)),
            None => ParamView::Receiver,
        },
{
    match arg {
        syn::FnArg::Receiver(_) => None,
        syn::FnArg::Typed(typed) => Some(&typed.pat),
    }
}

/// `ToTokens` of the fields of a `syn::Signature` that stand before the name.
#[verifier::external_body]
fn split_qualifiers(sig: &syn::Signature) -> (parts: Qualifiers)
    ensures
        stream_toks(parts.constness) == syn_signature(*sig).constness,
        optional_toks(parts.asyncness) == syn_signature(*sig).asyncness,
        stream_toks(parts.unsafety) == syn_signature(*sig).unsafety,
        stream_toks(parts.abi) == syn_signature(*sig).abi,
        stream_toks(parts.fn_token) == syn_signature(*sig).fn_token,
{
    Qualifiers {
        constness: sig.constness.to_token_stream(),
        asyncness: sig.asyncness.as_ref().map(|token| token.to_token_stream()),
        unsafety: sig.unsafety.to_token_stream(),
        abi: sig.abi.to_token_stream(),
        fn_token: sig.fn_token.to_token_stream(),
    }
}

/// The other fields of a `syn::Signature`: the name, the parameters and the type that is returned
/// as they are, `DelimSpan::join` of the parentheses, `Punctuated::empty_or_trailing` of the
/// parameters, and `ToTokens` of the rest.
#[verifier::external_body]
fn split_signature(sig: &syn::Signature) -> (parts: SignatureParts<'_>)
    ensures
        name_of(parts.ident) == syn_signature(*sig).ident,
        stream_toks(parts.generics) == syn_signature(*sig).generics,
        parts.paren_span == syn_signature(*sig).paren_span,
        syn_args(parts.inputs@) == syn_signature(*sig).inputs,
        stream_toks(parts.input_tokens) == syn_signature(*sig).input_tokens,
        parts.inputs_ended == syn_signature(*sig).inputs_ended,
        optional_toks(parts.variadic) == syn_signature(*sig).variadic,
        syn_output(parts.output) == syn_signature(*sig).output,
        stream_toks(parts.where_clause) == syn_signature(*sig).where_clause,
{
    let output = match &sig.output {
        syn::ReturnType::Default => None,
        syn::ReturnType::Type(arrow, ty) => Some((arrow.to_token_stream(), &**ty)),
    };
    SignatureParts {
        ident: sig.ident.clone(),
        generics: sig.generics.to_token_stream(),
        paren_span: sig.paren_token.span.join(),
        inputs: sig.inputs.iter().collect(),
        input_tokens: sig.inputs.to_token_stream(),
        inputs_ended: sig.inputs.empty_or_trailing(),
        variadic: sig.variadic.as_ref().map(|variadic| variadic.to_token_stream()),
        output,
        where_clause: sig.generics.where_clause.to_token_stream(),
    }
}

/// The fields of a `syn::ItemFn`: attributes and signature as they are, `DelimSpan::join` of the
/// braces, and `ToTokens` of the visibility and of the statements of the block.
#[verifier::external_body]
fn split_item(item: &syn::ItemFn) -> (parts: ItemParts<'_>)
    ensures
        parts@ == syn_item(*item),
{
    let mut stmts = TokenStream::new();
    stmts.append_all(&item.block.stmts);
    ItemParts {
        attrs: item.attrs.iter().collect(),
        vis: item.vis.to_token_stream(),
        sig: &item.sig,
        brace_span: item.block.brace_token.span.join(),
        stmts,
    }
}

/// Reads a pattern.
pub fn read_pat(pat: &syn::Pat) -> (read: Pattern)
    ensures
        read@ == syn_pat(*pat),
    decreases syn_pat(*pat),
{
    let tokens = pat_tokens(pat);
    proof {
        let view = syn_pat(*pat);
        assert(decreases_to!(view => view.shape));
        match view.shape {
            PatternShapeView::Reference(inner) => assert(decreases_to!(view => *inner)),
            PatternShapeView::Type(inner) => assert(decreases_to!(view => *inner)),
            PatternShapeView::Paren(inner) => assert(decreases_to!(view => *inner)),
            PatternShapeView::Tuple(elems) => assert(decreases_to!(view => elems)),
            PatternShapeView::TupleStruct(elems) => assert(decreases_to!(view => elems)),
            PatternShapeView::Struct(fields) => assert(decreases_to!(view => fields)),
            PatternShapeView::Slice(elems) => assert(decreases_to!(view => elems)),
            PatternShapeView::Or(cases) => assert(decreases_to!(view => cases)),
            _ => {},
        }
    }
    let shape = match split_pat(pat) {
        Binding(ident, subpat) => PatternShape::Ident(copy_ident(ident), subpat),
        Behind(inner) => PatternShape::Reference(Box::new(read_pat(inner))),
        Ascribed(inner) => PatternShape::Type(Box::new(read_pat(inner))),
        Enclosed(inner) => PatternShape::Paren(Box::new(read_pat(inner))),
        TupleOf(elems) => PatternShape::Tuple(read_pats(&elems)),
        TupleStructOf(elems) => PatternShape::TupleStruct(read_pats(&elems)),
        StructOf(fields) => PatternShape::Struct(read_pats(&fields)),
        SliceOf(elems) => PatternShape::Slice(read_pats(&elems)),
        AnyOf(cases) => PatternShape::Or(read_pats(&cases)),
        Opaque => PatternShape::Other,
    };
    Pattern { shape, tokens }
}

/// Reads patterns, one after the other.
fn read_pats(pats: &Vec<&syn::Pat>) -> (read: Vec<Pattern>)
    ensures
        pat_views(read@) == syn_pats(pats@),
    decreases syn_pats(pats@),
{
    let mut read: Vec<Pattern> = Vec::new();
    let ghost all = syn_pats(pats@);
    let mut i: usize = 0;
    while i < pats.len()
        invariant
            i <= pats@.len(),
            all == syn_pats(pats@),
            pat_views(read@) == all.take(i as int),
        decreases pats@.len() - i,
    {
        let ghost before = read@;
        assert(decreases_to!(all => all[i as int]));
        let pat = read_pat(pats[i]);
        read.push(pat);
        assert(read@.drop_last() =~= before);
        i = i + 1;
        assert(all.take(i as int) =~= all.take(i - 1).push(all[i - 1]));
    }
    assert(all.take(i as int) =~= all);
    read
}

/// Reads a parameter.
pub fn read_arg(arg: &syn::FnArg) -> (read: Param)
    ensures
        read@ == syn_arg(*arg),
{
    match split_arg(arg) {
        Some(pat) => Param::Typed(read_pat(pat)),
        None => Param::Receiver,
    }
}

/// Reads a signature.
pub fn read_signature(sig: &syn::Signature) -> (read: FnSig)
    ensures
        read@ == syn_signature(*sig),
{
    let qualifiers = split_qualifiers(sig);
    let parts = split_signature(sig);
    let mut inputs: Vec<Param> = Vec::new();
    let mut i: usize = 0;
    while i < parts.inputs.len()
        invariant
            i <= parts.inputs@.len(),
            inputs@.len() == i,
            forall|j: int| 0 <= j < i ==> (#[trigger] inputs@[j])@ == syn_arg(*parts.inputs@[j]),
        decreases parts.inputs@.len() - i,
    {
        inputs.push(read_arg(parts.inputs[i]));
        i = i + 1;
    }
    assert(arg_views(inputs@) =~= syn_args(parts.inputs@));
    let output = match parts.output {
        Some((arrow, ty)) => ReturnType::Type(arrow, read_type(ty)),
        None => ReturnType::Default,
    };
    FnSig {
        constness: qualifiers.constness,
        asyncness: qualifiers.asyncness,
        unsafety: qualifiers.unsafety,
        abi: qualifiers.abi,
        fn_token: qualifiers.fn_token,
        ident: parts.ident,
        generics: parts.generics,
        paren_span: parts.paren_span,
        inputs,
        input_tokens: parts.input_tokens,
        inputs_ended: parts.inputs_ended,
        variadic: parts.variadic,
        output,
        where_clause: parts.where_clause,
    }
}

/// Reads a function item.
pub fn read_item(item: &syn::ItemFn) -> (read: FnItem)
    ensures
        read@ == syn_item(*item),
{
    let parts = split_item(item);
    let mut attrs: Vec<Attr> = Vec::new();
    let mut i: usize = 0;
    while i < parts.attrs.len()
        invariant
            i <= parts.attrs@.len(),
            attrs@.len() == i,
            forall|j: int| 0 <= j < i ==> (#[trigger] attrs@[j])@ == syn_attr(*parts.attrs@[j]),
        decreases parts.attrs@.len() - i,
    {
        attrs.push(read_attr(parts.attrs[i]));
        i = i + 1;
    }
    assert(attr_views(attrs@) =~= parts@.attrs);
    FnItem {
        attrs,
        vis: parts.vis,
        sig: read_signature(parts.sig),
        brace_span: parts.brace_span,
        stmts: parts.stmts,
    }
}

/// Reads the expression that makes an aspect.
pub fn read_aspect(expr: &syn::Expr, has_custom_async_around: bool) -> (read: AspectInfo)
    ensures
        read@ == (AspectView { aspect_expr: syn_expr(*expr), has_custom_async_around }),
{
    AspectInfo { aspect_expr: expr_tokens(expr), has_custom_async_around }
}

/// What is taken apart is seen part by part, and lists one by one, in their order.
pub proof fn law_parts_are_read_one_by_one(
    pats: Seq<&syn::Pat>,
    args: Seq<&syn::FnArg>,
    output: Option<(TokenStream, &syn::Type)>,
    item: ItemParts,
)
    ensures
        syn_pats(pats).len() == pats.len(),
        forall|i: int| 0 <= i < pats.len() ==> #[trigger] syn_pats(pats)[i] == syn_pat(*pats[i]),
        syn_args(args).len() == args.len(),
        forall|i: int| 0 <= i < args.len() ==> #[trigger] syn_args(args)[i] == syn_arg(*args[i]),
        match output {
            Some((arrow, ty)) => syn_output(output) == ReturnTypeView::Type(
                stream_toks(arrow),
                syn_type(*ty),
            ),
            None => syn_output(output) == ReturnTypeView::Default,
        },
        item@.attrs.len() == item.attrs@.len(),
        forall|i: int|
            0 <= i < item.attrs@.len() ==> #[trigger] item@.attrs[i] == syn_attr(*item.attrs@[i]),
        item@.vis == stream_toks(item.vis),
        item@.sig == syn_signature(*item.sig),
        item@.brace_span == item.brace_span,
        item@.stmts == stream_toks(item.stmts),
{
}

/// A pattern that is taken apart keeps its form: its name and whether a subpattern follows it for a
/// binding, the pattern inside for a reference, a type or parentheses, and all the patterns inside,
/// in their order, for the others.
pub proof fn law_patterns_are_taken_apart(parts: PatParts)
    ensures
        match parts {
            Binding(ident, subpat) => parts.shape() == PatternShapeView::Ident(
                name_of(*ident),
                subpat,
            ),
            Behind(inner) => parts.shape() == PatternShapeView::Reference(
                Box::new(syn_pat(*inner)),
            ),
            Ascribed(inner) => parts.shape() == PatternShapeView::Type(Box::new(syn_pat(*inner))),
            Enclosed(inner) => parts.shape() == PatternShapeView::Paren(Box::new(syn_pat(*inner))),
            TupleOf(elems) => parts.shape() matches PatternShapeView::Tuple(seen) && seen.len()
                == elems@.len() && forall|i: int|
                0 <= i < seen.len() ==> #[trigger] seen[i] == syn_pat(*elems@[i]),
            TupleStructOf(elems) => parts.shape() matches PatternShapeView::TupleStruct(seen)
                && seen.len() == elems@.len() && forall|i: int|
                0 <= i < seen.len() ==> #[trigger] seen[i] == syn_pat(*elems@[i]),
            StructOf(fields) => parts.shape() matches PatternShapeView::Struct(seen) && seen.len()
                == fields@.len() && forall|i: int|
                0 <= i < seen.len() ==> #[trigger] seen[i] == syn_pat(*fields@[i]),
            SliceOf(elems) => parts.shape() matches PatternShapeView::Slice(seen) && seen.len()
                == elems@.len() && forall|i: int|
                0 <= i < seen.len() ==> #[trigger] seen[i] == syn_pat(*elems@[i]),
            AnyOf(cases) => parts.shape() matches PatternShapeView::Or(seen) && seen.len()
                == cases@.len() && forall|i: int|
                0 <= i < seen.len() ==> #[trigger] seen[i] == syn_pat(*cases@[i]),
            Opaque => parts.shape() is Other,
        },
{
}

} // verus!
