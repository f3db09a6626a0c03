//! What weaving takes from its inputs.
//!
//! Each law here ties what is read of a function to the function itself: by index where it is a
//! list, and by its parts where it has some.

use crate::codegen::{ref_views, streams_toks};
use crate::numerals::digits;
use crate::syntax::{
    names_of, pat_views, AspectInfo, FnItem, FnItemView, Name, Param, ParamView, Pattern,
    PatternShape, PatternShapeView, PatternView, ReturnType, ReturnTypeView, Ty, TyShape,
    TyShapeView,
};
use crate::templates::{
    all_bound_names, bound_names, names_result, param_names, returns_impl_trait, returns_result,
    singletons, takes_self, typed_pats,
};
use crate::tokens::{ident_span, ident_text, is_plain, stream_toks, Tok};
use crate::wording::lemma_flatten_last;
use proc_macro2::{Ident, TokenStream};
use vstd::prelude::*;

verus! {

/// The parameters other than `self` are handed on by their patterns, all of them and in their
/// order, and a function is a method exactly if one of its parameters is `self`.
pub proof fn law_parameters(inputs: Seq<ParamView>)
    ensures
        typed_pats(inputs) == inputs.filter_map(
            |param: ParamView|
                match param {
                    ParamView::Typed(pat) => Some(pat),
                    ParamView::Receiver => None,
                },
        ),
        takes_self(inputs) == (exists|i: int|
            0 <= i < inputs.len() && #[trigger] inputs[i] is Receiver),
    decreases inputs.len(),
{
    if inputs.len() > 0 {
        law_parameters(inputs.drop_last());
    }
}

/// The names that a pattern binds: its own name for a binding, those of the pattern inside for a
/// reference, a type or parentheses, those of all elements in their order for a tuple, a tuple
/// struct, a struct or a slice, those of the first case for alternatives, and none otherwise.
pub proof fn law_names_that_a_pattern_binds(pat: PatternView, parts: Seq<Seq<Name>>)
    ensures
        match pat.shape {
            PatternShapeView::Ident(name, _) => bound_names(pat) == seq![name],
            PatternShapeView::Reference(inner) => bound_names(pat) == bound_names(*inner),
            PatternShapeView::Type(inner) => bound_names(pat) == bound_names(*inner),
            PatternShapeView::Paren(inner) => bound_names(pat) == bound_names(*inner),
            PatternShapeView::Tuple(elems) => (parts.len() == elems.len() && forall|i: int|
                0 <= i < elems.len() ==> #[trigger] parts[i] == bound_names(elems[i]))
                ==> bound_names(pat) == parts.flatten(),
            PatternShapeView::TupleStruct(elems) => (parts.len() == elems.len() && forall|i: int|
                0 <= i < elems.len() ==> #[trigger] parts[i] == bound_names(elems[i]))
                ==> bound_names(pat) == parts.flatten(),
            PatternShapeView::Struct(fields) => (parts.len() == fields.len() && forall|i: int|
                0 <= i < fields.len() ==> #[trigger] parts[i] == bound_names(fields[i]))
                ==> bound_names(pat) == parts.flatten(),
            PatternShapeView::Slice(elems) => (parts.len() == elems.len() && forall|i: int|
                0 <= i < elems.len() ==> #[trigger] parts[i] == bound_names(elems[i]))
                ==> bound_names(pat) == parts.flatten(),
            PatternShapeView::Or(cases) => bound_names(pat) == (if cases.len() > 0 {
                bound_names(cases[0])
            } else {
                Seq::empty()
            }),
            PatternShapeView::Other => bound_names(pat) == Seq::<Name>::empty(),
        },
{
    match pat.shape {
        PatternShapeView::Tuple(elems) => lemma_all_bound_names(elems, parts),
        PatternShapeView::TupleStruct(elems) => lemma_all_bound_names(elems, parts),
        PatternShapeView::Struct(fields) => lemma_all_bound_names(fields, parts),
        PatternShapeView::Slice(elems) => lemma_all_bound_names(elems, parts),
        _ => {},
    }
}

proof fn lemma_all_bound_names(pats: Seq<PatternView>, parts: Seq<Seq<Name>>)
    ensures
        (parts.len() == pats.len() && forall|i: int|
            0 <= i < pats.len() ==> #[trigger] parts[i] == bound_names(pats[i]))
            ==> all_bound_names(pats) == parts.flatten(),
    decreases pats.len(),
{
    if parts.len() == pats.len() && (forall|i: int|
        0 <= i < pats.len() ==> #[trigger] parts[i] == bound_names(pats[i])) && pats.len() > 0 {
        lemma_all_bound_names(pats.drop_last(), parts.drop_last());
        lemma_flatten_last(parts);
        assert(parts.last() == parts[pats.len() - 1]);
    }
}

/// The arguments that are kept are the names that the parameters bind, those of each parameter in
/// their order, and no others.
pub proof fn law_kept_arguments(item: FnItemView, parts: Seq<Seq<Name>>)
    requires
        ({
            let pats = item.sig.inputs.filter_map(
                |param: ParamView|
                    match param {
                        ParamView::Typed(pat) => Some(pat),
                        ParamView::Receiver => None,
                    },
            );
            &&& parts.len() == pats.len()
            &&& forall|i: int| 0 <= i < pats.len() ==> #[trigger] parts[i] == bound_names(pats[i])
        }),
    ensures
        param_names(item) == parts.flatten(),
{
    law_parameters(item.sig.inputs);
    lemma_all_bound_names(typed_pats(item.sig.inputs), parts);
}

/// Where every parameter other than `self` is a plain binding, as many arguments are kept as there
/// are such parameters, and the argument at each place is the parameter at that place.
pub proof fn law_plain_parameters_are_all_kept(item: FnItemView)
    requires
        ({
            let pats = item.sig.inputs.filter_map(
                |param: ParamView|
                    match param {
                        ParamView::Typed(pat) => Some(pat),
                        ParamView::Receiver => None,
                    },
            );
            forall|i: int| 0 <= i < pats.len() ==> #[trigger] pats[i].shape is Ident
        }),
    ensures
        ({
            let pats = item.sig.inputs.filter_map(
                |param: ParamView|
                    match param {
                        ParamView::Typed(pat) => Some(pat),
                        ParamView::Receiver => None,
                    },
            );
            &&& param_names(item).len() == pats.len()
            &&& forall|i: int|
                0 <= i < pats.len() ==> #[trigger] param_names(item)[i]
                    == pats[i].shape->Ident_0
        }),
{
    law_parameters(item.sig.inputs);
    lemma_plain_bindings(typed_pats(item.sig.inputs));
}

proof fn lemma_plain_bindings(pats: Seq<PatternView>)
    requires
        forall|i: int| 0 <= i < pats.len() ==> #[trigger] pats[i].shape is Ident,
    ensures
        all_bound_names(pats).len() == pats.len(),
        forall|i: int|
            0 <= i < pats.len() ==> #[trigger] all_bound_names(pats)[i]
                == pats[i].shape->Ident_0,
    decreases pats.len(),
{
    if pats.len() > 0 {
        let front = pats.drop_last();
        assert(pats[pats.len() - 1].shape is Ident);
        assert forall|i: int| 0 <= i < front.len() implies #[trigger] front[i].shape is Ident by {
            assert(front[i] == pats[i]);
        }
        lemma_plain_bindings(front);
        assert(bound_names(pats.last()) == seq![pats.last().shape->Ident_0]);
        assert forall|i: int| 0 <= i < pats.len() implies #[trigger] all_bound_names(pats)[i]
            == pats[i].shape->Ident_0 by {
            if i < front.len() {
                assert(front[i] == pats[i]);
                assert(all_bound_names(pats)[i] == all_bound_names(front)[i]);
            }
        }
    }
}

/// A function returns a `Result` exactly if its written return type is a path whose last segment
/// has that name, and `impl Trait` exactly if its return type is written so.
pub proof fn law_return_types(output: ReturnTypeView)
    ensures
        returns_result(output) <==> (output matches ReturnTypeView::Type(_, ty)
            && ty.shape matches TyShapeView::Path(names) && names.len() > 0 && names[names.len()
            - 1].text == "Result"@),
        returns_impl_trait(output) <==> (output matches ReturnTypeView::Type(_, ty)
            && ty.shape is ImplTrait),
        output matches ReturnTypeView::Type(_, ty) ==> names_result(ty) == returns_result(output),
{
}

/// A name can be part of another one exactly if it holds neither `#` nor `$`.
pub proof fn law_plain_names(text: Seq<char>)
    ensures
        is_plain(text) <==> forall|i: int|
            0 <= i < text.len() ==> #[trigger] text[i] != '#' && text[i] != '$',
{
    if !is_plain(text) {
        if text.contains('#') {
            let i = text.index_of('#');
            assert(text[i] == '#');
        } else {
            let i = text.index_of('$');
            assert(text[i] == '$');
        }
    }
}

/// A numeral is made of decimal digits, has no leading zero, and stands for its number.
pub proof fn law_numerals(n: nat)
    ensures
        digits(n).len() > 0,
        forall|i: int| 0 <= i < digits(n).len() ==> '0' <= #[trigger] digits(n)[i] <= '9',
        digits(n)[0] == '0' ==> n == 0 && digits(n).len() == 1,
        digits(n).fold_left(0int, |v: int, c: char| 10 * v + (c as int - '0' as int)) == n,
    decreases n,
{
    let value = |v: int, c: char| 10 * v + (c as int - '0' as int);
    if n < 10 {
        assert(digits(n).drop_last() =~= Seq::<char>::empty());
        reveal_with_fuel(Seq::fold_left, 2);
    } else {
        law_numerals(n / 10);
        assert(digits(n).drop_last() =~= digits(n / 10));
    }
}

/// Lists of identifiers, streams and patterns are seen one by one, in their order.
pub proof fn law_lists_are_seen_one_by_one(
    idents: Seq<Ident>,
    names: Seq<Name>,
    streams: Seq<TokenStream>,
    refs: Seq<&Pattern>,
    pats: Seq<Pattern>,
)
    ensures
        names_of(idents).len() == idents.len(),
        forall|i: int|
            0 <= i < idents.len() ==> #[trigger] names_of(idents)[i] == (Name {
                text: ident_text(idents[i]),
                span: ident_span(idents[i]),
            }),
        singletons(names).len() == names.len(),
        forall|i: int|
            0 <= i < names.len() ==> #[trigger] singletons(names)[i] == seq![
                Tok::Ident(names[i].text, names[i].span),
            ],
        streams_toks(streams).len() == streams.len(),
        forall|i: int|
            0 <= i < streams.len() ==> #[trigger] streams_toks(streams)[i] == stream_toks(
                streams[i],
            ),
        ref_views(refs).len() == refs.len(),
        forall|i: int| 0 <= i < refs.len() ==> #[trigger] ref_views(refs)[i] == refs[i]@,
        pat_views(pats).len() == pats.len(),
        forall|i: int| 0 <= i < pats.len() ==> #[trigger] pat_views(pats)[i] == pats[i]@,
    decreases pats.len(),
{
    if pats.len() > 0 {
        law_lists_are_seen_one_by_one(idents, names, streams, refs, pats.drop_last());
    }
}

/// A pattern is seen as it is: its tokens, its form, and the patterns inside it one by one.
pub proof fn law_patterns_are_seen_as_they_are(pat: Pattern)
    ensures
        pat@.tokens == stream_toks(pat.tokens),
        match pat.shape {
            PatternShape::Ident(ident, subpat) => pat@.shape == PatternShapeView::Ident(
                Name { text: ident_text(ident), span: ident_span(ident) },
                subpat,
            ),
            PatternShape::Reference(inner) => pat@.shape == PatternShapeView::Reference(
                Box::new(inner@),
            ),
            PatternShape::Type(inner) => pat@.shape == PatternShapeView::Type(Box::new(inner@)),
            PatternShape::Paren(inner) => pat@.shape == PatternShapeView::Paren(Box::new(inner@)),
            PatternShape::Tuple(elems) => pat@.shape matches PatternShapeView::Tuple(seen)
                && seen.len() == elems@.len() && forall|i: int|
                0 <= i < seen.len() ==> #[trigger] seen[i] == elems@[i]@,
            PatternShape::TupleStruct(elems) => pat@.shape matches PatternShapeView::TupleStruct(
                seen,
            ) && seen.len() == elems@.len() && forall|i: int|
                0 <= i < seen.len() ==> #[trigger] seen[i] == elems@[i]@,
            PatternShape::Struct(fields) => pat@.shape matches PatternShapeView::Struct(seen)
                && seen.len() == fields@.len() && forall|i: int|
                0 <= i < seen.len() ==> #[trigger] seen[i] == fields@[i]@,
            PatternShape::Slice(elems) => pat@.shape matches PatternShapeView::Slice(seen)
                && seen.len() == elems@.len() && forall|i: int|
                0 <= i < seen.len() ==> #[trigger] seen[i] == elems@[i]@,
            PatternShape::Or(cases) => pat@.shape matches PatternShapeView::Or(seen) && seen.len()
                == cases@.len() && forall|i: int|
                0 <= i < seen.len() ==> #[trigger] seen[i] == cases@[i]@,
            PatternShape::Other => pat@.shape is Other,
        },
{
    match pat.shape {
        PatternShape::Tuple(elems) => lemma_pats_are_seen(elems@),
        PatternShape::TupleStruct(elems) => lemma_pats_are_seen(elems@),
        PatternShape::Struct(fields) => lemma_pats_are_seen(fields@),
        PatternShape::Slice(elems) => lemma_pats_are_seen(elems@),
        PatternShape::Or(cases) => lemma_pats_are_seen(cases@),
        _ => {},
    }
}

proof fn lemma_pats_are_seen(pats: Seq<Pattern>)
    ensures
        pat_views(pats).len() == pats.len(),
        forall|i: int| 0 <= i < pats.len() ==> #[trigger] pat_views(pats)[i] == pats[i]@,
{
    law_lists_are_seen_one_by_one(
        Seq::empty(),
        Seq::empty(),
        Seq::empty(),
        Seq::empty(),
        pats,
    );
}

/// A function is seen as it is: every part of it, its attributes and parameters one by one.
pub proof fn law_functions_are_seen_as_they_are(item: FnItem)
    ensures
        item@.attrs.len() == item.attrs@.len(),
        forall|i: int|
            0 <= i < item.attrs@.len() ==> (#[trigger] item@.attrs[i]).inner == item.attrs@[i].inner
                && item@.attrs[i].tokens == stream_toks(item.attrs@[i].tokens),
        item@.vis == stream_toks(item.vis),
        item@.brace_span == item.brace_span,
        item@.stmts == stream_toks(item.stmts),
        item@.sig.constness == stream_toks(item.sig.constness),
        item@.sig.asyncness == (match item.sig.asyncness {
            Some(tokens) => Some(stream_toks(tokens)),
            None => None,
        }),
        item@.sig.unsafety == stream_toks(item.sig.unsafety),
        item@.sig.abi == stream_toks(item.sig.abi),
        item@.sig.fn_token == stream_toks(item.sig.fn_token),
        item@.sig.ident.text == ident_text(item.sig.ident),
        item@.sig.ident.span == ident_span(item.sig.ident),
        item@.sig.generics == stream_toks(item.sig.generics),
        item@.sig.paren_span == item.sig.paren_span,
        item@.sig.inputs.len() == item.sig.inputs@.len(),
        forall|i: int|
            0 <= i < item.sig.inputs@.len() ==> #[trigger] item@.sig.inputs[i] == (
            match item.sig.inputs@[i] {
                Param::Receiver => ParamView::Receiver,
                Param::Typed(pat) => ParamView::Typed(pat@),
            }),
        item@.sig.input_tokens == stream_toks(item.sig.input_tokens),
        item@.sig.inputs_ended == item.sig.inputs_ended,
        item@.sig.variadic == (match item.sig.variadic {
            Some(tokens) => Some(stream_toks(tokens)),
            None => None,
        }),
        item@.sig.output == (match item.sig.output {
            ReturnType::Default => ReturnTypeView::Default,
            ReturnType::Type(arrow, ty) => ReturnTypeView::Type(stream_toks(arrow), ty@),
        }),
        item@.sig.where_clause == stream_toks(item.sig.where_clause),
{
}

/// A type and an aspect are seen as they are.
pub proof fn law_types_and_aspects_are_seen_as_they_are(ty: Ty, aspect: AspectInfo)
    ensures
        ty@.tokens == stream_toks(ty.tokens),
        match ty.shape {
            TyShape::Path(segments) => ty@.shape matches TyShapeView::Path(names) && names.len()
                == segments@.len() && forall|i: int|
                0 <= i < names.len() ==> #[trigger] names[i] == (Name {
                    text: ident_text(segments@[i]),
                    span: ident_span(segments@[i]),
                }),
            TyShape::ImplTrait => ty@.shape is ImplTrait,
            TyShape::Other => ty@.shape is Other,
        },
        aspect@.aspect_expr == stream_toks(aspect.aspect_expr),
        aspect@.has_custom_async_around == aspect.has_custom_async_around,
{
}

} // verus!
