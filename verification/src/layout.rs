//! Where everything stands in what weaving produces.

use crate::builder::spell;
use crate::builder::Piece::{Alone, Close, Open, Word};
use crate::inputs::{law_parameters, law_return_types};
use crate::laws::{holds, lemma_holds_itself};
use crate::syntax::{AspectView, AttrView, FnItemView, Name, ParamView, ReturnTypeView, TyShapeView};
use crate::templates::{
    args_vec, aspect_wrapper, async_advice, async_aspect_wrapper, attr_toks, captured_join_point,
    captures, each_call_arg, lifecycle, original_call, output_toks, param_names, param_toks,
    part_toks, renamed_item, sync_around, wrapper, wrapper_signature,
};
use crate::tokens::Delim::{Brace, Paren};
use crate::tokens::Tok;
use crate::wording::lemma_flatten_last;
use proc_macro2::Span;
use vstd::prelude::*;

verus! {

proof fn lemma_attrs(attrs: Seq<AttrView>)
    ensures
        attr_toks(attrs, false) == attrs.filter_map(
            |attr: AttrView|
                if attr.inner {
                    None
                } else {
                    Some(attr.tokens)
                },
        ).flatten(),
        attr_toks(attrs, true) == attrs.filter_map(
            |attr: AttrView|
                if attr.inner {
                    Some(attr.tokens)
                } else {
                    None
                },
        ).flatten(),
    decreases attrs.len(),
{
    if attrs.len() > 0 {
        lemma_attrs(attrs.drop_last());
        let outer = |attr: AttrView|
            if attr.inner {
                None
            } else {
                Some(attr.tokens)
            };
        let inner = |attr: AttrView|
            if attr.inner {
                Some(attr.tokens)
            } else {
                None
            };
        let outside = attrs.filter_map(outer);
        let inside = attrs.filter_map(inner);
        if attrs.last().inner {
            lemma_flatten_last(inside);
            assert(inside.drop_last() =~= attrs.drop_last().filter_map(inner));
        } else {
            lemma_flatten_last(outside);
            assert(outside.drop_last() =~= attrs.drop_last().filter_map(outer));
        }
    }
}

proof fn lemma_regroup(a: Seq<Tok>, b: Seq<Tok>, c: Seq<Tok>)
    ensures
        a + (b + c) == a + b + c,
{
    assert(a + (b + c) =~= a + b + c);
}

/// The function behind the wrapper is the function itself, under the name that is given: its outer
/// attributes, its qualifiers, its generics, parameters, return type and bounds, and in its braces
/// its inner attributes and its statements. Only its visibility is gone.
#[verifier::rlimit(60)]
pub proof fn law_function_behind_the_wrapper(item: FnItemView, name: Name, at: Span)
    ensures
        renamed_item(item, name, at) == item.attrs.filter_map(
            |attr: AttrView|
                if attr.inner {
                    None
                } else {
                    Some(attr.tokens)
                },
        ).flatten()
            + item.sig.constness
            + (match item.sig.asyncness {
            Some(tokens) => tokens,
            None => Seq::empty(),
        })
            + item.sig.unsafety
            + item.sig.abi
            + item.sig.fn_token
            + seq![Tok::Ident(name.text, name.span)]
            + item.sig.generics
            + seq![Tok::Open(Paren, item.sig.paren_span)]
            + (match item.sig.variadic {
            Some(variadic) => item.sig.input_tokens + (if item.sig.inputs_ended {
                Seq::empty()
            } else {
                spell(seq![Alone(',')], at)
            }) + variadic,
            None => item.sig.input_tokens,
        })
            + spell(seq![Close], at)
            + (match item.sig.output {
            ReturnTypeView::Type(arrow, ty) => arrow + ty.tokens,
            ReturnTypeView::Default => Seq::empty(),
        })
            + item.sig.where_clause
            + seq![Tok::Open(Brace, item.brace_span)]
            + item.attrs.filter_map(
            |attr: AttrView|
                if attr.inner {
                    Some(attr.tokens)
                } else {
                    None
                },
        ).flatten()
            + item.stmts
            + spell(seq![Close], at),
{
    lemma_attrs(item.attrs);
    let outer = attr_toks(item.attrs, false);
    let a = item.sig.constness;
    let b = a + part_toks(item.sig.asyncness);
    let c = b + item.sig.unsafety;
    let d = c + item.sig.abi;
    let e = d + item.sig.fn_token;
    let f = e + seq![name.tok()];
    let g = f + item.sig.generics;
    let h = g + seq![Tok::Open(Paren, item.sig.paren_span)];
    let i = h + param_toks(item.sig, at);
    let j = i + spell(seq![Close], at);
    let k = j + output_toks(item.sig.output);
    lemma_regroup(outer, a, part_toks(item.sig.asyncness));
    lemma_regroup(outer, b, item.sig.unsafety);
    lemma_regroup(outer, c, item.sig.abi);
    lemma_regroup(outer, d, item.sig.fn_token);
    lemma_regroup(outer, e, seq![name.tok()]);
    lemma_regroup(outer, f, item.sig.generics);
    lemma_regroup(outer, g, seq![Tok::Open(Paren, item.sig.paren_span)]);
    lemma_regroup(outer, h, param_toks(item.sig, at));
    lemma_regroup(outer, i, spell(seq![Close], at));
    lemma_regroup(outer, j, output_toks(item.sig.output));
    lemma_regroup(outer, k, item.sig.where_clause);
    assert(item.sig.input_tokens + Seq::<Tok>::empty() =~= item.sig.input_tokens);
    assert(param_toks(item.sig, at) == (match item.sig.variadic {
            Some(variadic) => item.sig.input_tokens + (if item.sig.inputs_ended {
                Seq::empty()
            } else {
                spell(seq![Alone(',')], at)
            }) + variadic,
            None => item.sig.input_tokens,
        }));
}

/// The signature of a wrapper, of a method as of any other function: the visibility, `async` where
/// it is asked for, `fn`, the name, the generics, the parameters, the return type and the bounds of
/// the function, one after the other.
pub proof fn law_signature_of_the_wrapper(item: FnItemView, asyncness: Seq<Tok>, at: Span)
    ensures
        wrapper_signature(item, asyncness, at) == item.vis
            + asyncness
            + spell(seq![Word("fn")], at)
            + seq![Tok::Ident(item.sig.ident.text, item.sig.ident.span)]
            + item.sig.generics
            + spell(seq![Open(Paren)], at)
            + item.sig.input_tokens
            + spell(seq![Close], at)
            + (match item.sig.output {
            ReturnTypeView::Type(arrow, ty) => arrow + ty.tokens,
            ReturnTypeView::Default => Seq::empty(),
        })
            + item.sig.where_clause,
{
}

/// A wrapper is its signature and, in braces, its body. The function behind it stands before it for
/// a method, and first in its braces for any other function.
pub proof fn law_wrapper_is_laid_out(
    item: FnItemView,
    asyncness: Seq<Tok>,
    name: Name,
    body: Seq<Tok>,
    at: Span,
)
    ensures
        wrapper(item, asyncness, name, body, at) == (if exists|i: int|
            0 <= i < item.sig.inputs.len() && #[trigger] item.sig.inputs[i] is Receiver {
            renamed_item(item, name, at)
            + item.vis
            + asyncness
            + spell(seq![Word("fn")], at)
            + seq![Tok::Ident(item.sig.ident.text, item.sig.ident.span)]
            + item.sig.generics
            + spell(seq![Open(Paren)], at)
            + item.sig.input_tokens
            + spell(seq![Close], at)
            + (match item.sig.output {
            ReturnTypeView::Type(arrow, ty) => arrow + ty.tokens,
            ReturnTypeView::Default => Seq::empty(),
        })
            + item.sig.where_clause
            + spell(seq![Open(Brace)], at)
            + body
            + spell(seq![Close], at)
        } else {
            item.vis
            + asyncness
            + spell(seq![Word("fn")], at)
            + seq![Tok::Ident(item.sig.ident.text, item.sig.ident.span)]
            + item.sig.generics
            + spell(seq![Open(Paren)], at)
            + item.sig.input_tokens
            + spell(seq![Close], at)
            + (match item.sig.output {
            ReturnTypeView::Type(arrow, ty) => arrow + ty.tokens,
            ReturnTypeView::Default => Seq::empty(),
        })
            + item.sig.where_clause
            + spell(seq![Open(Brace)], at)
            + renamed_item(item, name, at)
            + body
            + spell(seq![Close], at)
        }),
{
    law_signature_of_the_wrapper(item, asyncness, at);
    law_parameters(item.sig.inputs);
}

/// What is woven is a wrapper around the function under its hidden name. Its body goes around the
/// call for a function that is not asynchronous and advises it otherwise; it is handed the aspect,
/// the function's name, its arguments and its call, and whether a `Result` is returned.
pub proof fn law_what_is_woven(aspect: AspectView, item: FnItemView, at: Span)
    ensures
        ({
            let name = Name {
                text: "__aspect_original_"@ + item.sig.ident.text,
                span: item.sig.ident.span,
            };
            let pats = item.sig.inputs.filter_map(
                |param: ParamView|
                    match param {
                        ParamView::Typed(pat) => Some(pat),
                        ParamView::Receiver => None,
                    },
            );
            let method = exists|i: int|
                0 <= i < item.sig.inputs.len() && #[trigger] item.sig.inputs[i] is Receiver;
            let is_result = (match item.sig.output {
                ReturnTypeView::Type(_, ty) => match ty.shape {
                    TyShapeView::Path(names) => names.len() > 0 && names.last().text == "Result"@,
                    _ => false,
                },
                ReturnTypeView::Default => false,
            });
            let names = param_names(item);
            let call = original_call(name, pats, method, at);
            aspect_wrapper(aspect, item, at) == (match item.sig.asyncness {
                Some(asyncness) => wrapper(
                    item,
                    asyncness,
                    name,
                    lifecycle(
                        aspect.aspect_expr,
                        captures(names, at),
                        captured_join_point(item.sig.ident.text, names.len(), false, at),
                        call,
                        is_result,
                        false,
                        at,
                    ),
                    at,
                ),
                None => wrapper(
                    item,
                    Seq::empty(),
                    name,
                    sync_around(
                        aspect.aspect_expr,
                        item.sig.ident.text,
                        args_vec(each_call_arg(pats), false, at),
                        call,
                        is_result,
                        at,
                    ),
                    at,
                ),
            })
        }),
{
    law_parameters(item.sig.inputs);
    law_return_types(item.sig.output);
}

/// What an asynchronous aspect weaves is an asynchronous wrapper around the function under its
/// hidden name, whatever the function is. Its body is handed the aspect, the statements that keep
/// the arguments, the join point and the call, whether a `Result` or `impl Trait` is returned, and
/// whether the aspect has an `around` of its own.
pub proof fn law_what_an_asynchronous_aspect_weaves(
    aspect: AspectView,
    item: FnItemView,
    at: Span,
)
    ensures
        ({
            let name = Name {
                text: "__async_aspect_original_"@ + item.sig.ident.text,
                span: item.sig.ident.span,
            };
            let pats = item.sig.inputs.filter_map(
                |param: ParamView|
                    match param {
                        ParamView::Typed(pat) => Some(pat),
                        ParamView::Receiver => None,
                    },
            );
            let method = exists|i: int|
                0 <= i < item.sig.inputs.len() && #[trigger] item.sig.inputs[i] is Receiver;
            let is_result = (match item.sig.output {
                ReturnTypeView::Type(_, ty) => match ty.shape {
                    TyShapeView::Path(names) => names.len() > 0 && names.last().text == "Result"@,
                    _ => false,
                },
                ReturnTypeView::Default => false,
            });
            let is_impl_trait = match item.sig.output {
                ReturnTypeView::Type(_, ty) => ty.shape is ImplTrait,
                ReturnTypeView::Default => false,
            };
            let names = param_names(item);
            async_aspect_wrapper(aspect, item, at) == wrapper(
                item,
                spell(seq![Word("async")], at),
                name,
                async_advice(
                    aspect.aspect_expr,
                    captures(names, at),
                    captured_join_point(item.sig.ident.text, names.len(), true, at),
                    original_call(name, pats, method, at),
                    is_result,
                    is_impl_trait,
                    aspect.has_custom_async_around,
                    at,
                ),
                at,
            )
        }),
{
    law_parameters(item.sig.inputs);
    law_return_types(item.sig.output);
}

/// The wrapper keeps the signature of the function, of a method as of any other: what is woven
/// holds the visibility, `async` if the function is asynchronous, `fn`, the name, the generics, the
/// parameters, the return type and the bounds of the function, one right after the other. Under an
/// asynchronous aspect the wrapper is always asynchronous.
pub proof fn law_signature_is_kept(aspect: AspectView, item: FnItemView, at: Span)
    ensures
        holds(
            aspect_wrapper(aspect, item, at),
            item.vis
            + (match item.sig.asyncness {
            Some(tokens) => tokens,
            None => Seq::empty(),
        })
            + spell(seq![Word("fn")], at)
            + seq![Tok::Ident(item.sig.ident.text, item.sig.ident.span)]
            + item.sig.generics
            + spell(seq![Open(Paren)], at)
            + item.sig.input_tokens
            + spell(seq![Close], at)
            + (match item.sig.output {
            ReturnTypeView::Type(arrow, ty) => arrow + ty.tokens,
            ReturnTypeView::Default => Seq::empty(),
        })
            + item.sig.where_clause,
        ),
        holds(
            async_aspect_wrapper(aspect, item, at),
            item.vis
            + spell(seq![Word("async")], at)
            + spell(seq![Word("fn")], at)
            + seq![Tok::Ident(item.sig.ident.text, item.sig.ident.span)]
            + item.sig.generics
            + spell(seq![Open(Paren)], at)
            + item.sig.input_tokens
            + spell(seq![Close], at)
            + (match item.sig.output {
            ReturnTypeView::Type(arrow, ty) => arrow + ty.tokens,
            ReturnTypeView::Default => Seq::empty(),
        })
            + item.sig.where_clause,
        ),
{
    law_what_is_woven(aspect, item, at);
    law_what_an_asynchronous_aspect_weaves(aspect, item, at);
    let asyncness = (match item.sig.asyncness {
            Some(tokens) => tokens,
            None => Seq::empty(),
        });
    law_signature_of_the_wrapper(item, asyncness, at);
    law_signature_of_the_wrapper(item, spell(seq![Word("async")], at), at);
    assert(holds(aspect_wrapper(aspect, item, at), wrapper_signature(item, asyncness, at))) by {
        broadcast use crate::laws::group_holds;

        lemma_holds_itself(wrapper_signature(item, asyncness, at));
    }
    assert(holds(
        async_aspect_wrapper(aspect, item, at),
        wrapper_signature(item, spell(seq![Word("async")], at), at),
    )) by {
        broadcast use crate::laws::group_holds;

        lemma_holds_itself(wrapper_signature(item, spell(seq![Word("async")], at), at));
    }
}

} // verus!
