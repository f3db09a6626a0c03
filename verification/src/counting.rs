//! How often a word occurs in what weaving produces.

use crate::builder::{spell, Piece};
use crate::builder::Piece::{Alone, Close, Open, Word};
use crate::numerals::digits;
use crate::syntax::{
    AspectView, AttrView, FnItemView, FnSigView, Name, PatternShapeView, PatternView,
};
use crate::templates::{
    advised_result, advised_value, after_advice, all_bound_names, args_vec, aspect_wrapper,
    async_advice, async_aspect_wrapper, async_body, async_outcome, attr_toks, before_advice,
    bound_names, boxed, boxed_clone, boxed_clones, call_arg, call_args, capture_name, capture_names,
    captured_join_point, captures, dyn_any, each_call_arg, error_advice, execution_error,
    hidden_call, hidden_name, impl_trait_error, imports, join_point, let_aspect, let_async_pjp,
    lifecycle, lifecycle_body, original_call, output_toks, param_names, part_toks, proceed,
    returns_impl_trait, returns_result, singletons, sync_around, sync_body, sync_outcome,
    take_result_fn, takes_self, typed_pats, wrapper,
};
use crate::tokens::Delim::Paren;
use crate::tokens::Tok;
use proc_macro2::Span;
use vstd::prelude::*;

verus! {

/// How many tokens are the identifier `text`.
pub open spec fn occurrences(toks: Seq<Tok>, text: Seq<char>) -> nat
    decreases toks.len(),
{
    if toks.len() == 0 {
        0
    } else {
        occurrences(toks.drop_last(), text) + one_if(is_ident(toks.last(), text))
    }
}

/// Whether a token is the identifier `text`.
pub open spec fn is_ident(tok: Tok, text: Seq<char>) -> bool {
    match tok {
        Tok::Ident(t, _) => t == text,
        _ => false,
    }
}

/// One where the condition holds, and nothing else.
pub open spec fn one_if(condition: bool) -> nat {
    if condition {
        1
    } else {
        0
    }
}

/// The words that weaving may bring in whatever the aspect does.
pub open spec fn is_stock_word(text: Seq<char>) -> bool {
    ||| text == "T"@ || text == "_"@ || text == "Ok"@ || text == "as"@ || text == "fn"@
    ||| text == "Any"@ || text == "Box"@ || text == "Err"@ || text == "any"@ || text == "dyn"@
    ||| text == "let"@ || text == "new"@ || text == "pin"@ || text == "std"@ || text == "use"@
    ||| text == "vec"@ || text == "Self"@ || text == "Send"@ || text == "Sync"@
    ||| text == "args"@ || text == "core"@ || text == "file"@ || text == "into"@
    ||| text == "line"@ || text == "move"@ || text == "self"@ || text == "__err"@
    ||| text == "__pjp"@ || text == "__val"@ || text == "async"@ || text == "await"@
    ||| text == "boxed"@ || text == "clone"@ || text == "match"@
    ||| text == "__args"@ || text == "expect"@ || text == "format"@ || text == "static"@
    ||| text == "__inner"@ || text == "__value"@ || text == "prelude"@ || text == "Location"@
    ||| text == "__result"@ || text == "downcast"@ || text == "location"@
    ||| text == "JoinPoint"@ || text == "__context"@ || text == "execution"@
    ||| text == "AspectError"@ || text == "aspect_core"@ || text == "module_path"@
    ||| text == "__aspect_err"@ || text == "compile_error"@ || text == "function_name"@
    ||| text == "AsyncJoinPoint"@ || text == "__boxed_result"@ || text == "__after_context"@
    ||| text == "__error_context"@
}

/// A name that is made up for a function: those behind its wrappers, and the variables that keep
/// its arguments.
pub open spec fn is_made_up(item: FnItemView, text: Seq<char>) -> bool {
    ||| text == "__aspect_original_"@ + item.sig.ident.text
    ||| text == "__async_aspect_original_"@ + item.sig.ident.text
    ||| exists|i: nat| text == "__aspect_arg_"@ + #[trigger] digits(i)
}

/// A pattern neither holds the identifier `text` nor binds it.
pub open spec fn pat_lacks(pat: PatternView, text: Seq<char>) -> bool {
    &&& occurrences(pat.tokens, text) == 0
    &&& forall|i: int|
        0 <= i < bound_names(pat).len() ==> #[trigger] bound_names(pat)[i].text != text
}

/// No part of a signature is or holds the identifier `text`.
pub open spec fn sig_lacks(sig: FnSigView, text: Seq<char>) -> bool {
    &&& occurrences(sig.constness, text) == 0
    &&& occurrences(part_toks(sig.asyncness), text) == 0
    &&& occurrences(sig.unsafety, text) == 0
    &&& occurrences(sig.abi, text) == 0
    &&& occurrences(sig.fn_token, text) == 0
    &&& sig.ident.text != text
    &&& occurrences(sig.generics, text) == 0
    &&& occurrences(sig.input_tokens, text) == 0
    &&& forall|i: int|
        0 <= i < typed_pats(sig.inputs).len() ==> pat_lacks(
            #[trigger] typed_pats(sig.inputs)[i],
            text,
        )
    &&& occurrences(part_toks(sig.variadic), text) == 0
    &&& occurrences(output_toks(sig.output), text) == 0
    &&& occurrences(sig.where_clause, text) == 0
}

/// Neither the aspect nor the function holds the identifier `text`.
pub open spec fn sources_lack(aspect: AspectView, item: FnItemView, text: Seq<char>) -> bool {
    &&& occurrences(aspect.aspect_expr, text) == 0
    &&& forall|i: int|
        0 <= i < item.attrs.len() ==> occurrences(#[trigger] item.attrs[i].tokens, text) == 0
    &&& occurrences(item.vis, text) == 0
    &&& sig_lacks(item.sig, text)
    &&& occurrences(item.stmts, text) == 0
}

pub broadcast proof fn lemma_occurrences_add(a: Seq<Tok>, b: Seq<Tok>, text: Seq<char>)
    ensures
        #[trigger] occurrences(a + b, text) == occurrences(a, text) + occurrences(b, text),
    decreases b.len(),
{
    if b.len() == 0 {
        assert(a + b =~= a);
    } else {
        assert((a + b).drop_last() =~= a + b.drop_last());
        lemma_occurrences_add(a, b.drop_last(), text);
    }
}

/// How many of the first `n` pieces are the word `text`.
pub open spec fn words_among(pieces: Seq<Piece>, n: nat, text: Seq<char>) -> nat
    decreases n,
{
    if n == 0 {
        0
    } else {
        words_among(pieces, (n - 1) as nat, text) + match pieces[n - 1] {
            Piece::Word(word) => one_if(word@ == text),
            _ => 0,
        }
    }
}

proof fn lemma_words_among(pieces: Seq<Piece>, n: nat, at: Span, text: Seq<char>)
    requires
        n <= pieces.len(),
    ensures
        occurrences(spell(pieces, at).take(n as int), text) == words_among(pieces, n, text),
    decreases n,
{
    reveal(spell);
    if n > 0 {
        lemma_words_among(pieces, (n - 1) as nat, at, text);
        let toks = spell(pieces, at);
        assert(toks.take(n as int).drop_last() =~= toks.take(n - 1));
    }
}

pub broadcast proof fn lemma_occurrences_spelled(pieces: Seq<Piece>, at: Span, text: Seq<char>)
    ensures
        #[trigger] occurrences(spell(pieces, at), text) == words_among(pieces, pieces.len(), text),
{
    reveal(spell);
    lemma_words_among(pieces, pieces.len(), at, text);
    assert(spell(pieces, at).take(pieces.len() as int) =~= spell(pieces, at));
}

pub broadcast proof fn lemma_occurrences_one(tok: Tok, text: Seq<char>)
    ensures
        #[trigger] occurrences(seq![tok], text) == one_if(is_ident(tok, text)),
{
    assert(seq![tok].drop_last() =~= Seq::<Tok>::empty());
    reveal_with_fuel(occurrences, 2);
}

pub broadcast group group_occurrences {
    lemma_occurrences_add,
    lemma_occurrences_spelled,
    lemma_occurrences_one,
}

proof fn count_imports(at: Span, text: Seq<char>)
    requires
        !is_stock_word(text),
    ensures
        occurrences(imports(at), text) == 0,
{
    broadcast use group_occurrences;

    reveal_with_fuel(words_among, 30);
}

proof fn count_let_aspect(expr: Seq<Tok>, at: Span, text: Seq<char>)
    requires
        !is_stock_word(text),
    ensures
        occurrences(let_aspect(expr, at), text) == occurrences(expr, text) + one_if(
            text == "__aspect"@,
        ),
{
    broadcast use group_occurrences;

    reveal_with_fuel(words_among, 6);
}

proof fn count_dyn_any(send: bool, at: Span, text: Seq<char>)
    requires
        !is_stock_word(text),
    ensures
        occurrences(dyn_any(send, at), text) == 0,
{
    broadcast use group_occurrences;

    reveal_with_fuel(words_among, 8);
}

proof fn count_boxed(value: Seq<Tok>, send: bool, at: Span, text: Seq<char>)
    requires
        !is_stock_word(text),
    ensures
        occurrences(boxed(value, send, at), text) == occurrences(value, text),
{
    broadcast use group_occurrences;

    reveal_with_fuel(words_among, 8);
    count_dyn_any(send, at, text);
}

proof fn count_boxed_clone(arg: Seq<Tok>, send: bool, at: Span, text: Seq<char>)
    requires
        !is_stock_word(text),
    ensures
        occurrences(boxed_clone(arg, send, at), text) == occurrences(arg, text),
{
    broadcast use group_occurrences;

    reveal_with_fuel(words_among, 8);
    let value = arg + spell(seq![Alone('.'), Word("clone"), Open(Paren), Close], at);
    count_boxed(value, send, at, text);
}

proof fn count_boxed_clones(args: Seq<Seq<Tok>>, send: bool, at: Span, text: Seq<char>)
    requires
        !is_stock_word(text),
        forall|i: int| 0 <= i < args.len() ==> occurrences(#[trigger] args[i], text) == 0,
    ensures
        occurrences(boxed_clones(args, send, at), text) == 0,
    decreases args.len(),
{
    broadcast use group_occurrences;

    reveal_with_fuel(words_among, 3);
    if args.len() > 0 {
        count_boxed_clones(args.drop_last(), send, at, text);
        count_boxed_clone(args.last(), send, at, text);
    }
}

proof fn count_args_vec(args: Seq<Seq<Tok>>, send: bool, at: Span, text: Seq<char>)
    requires
        !is_stock_word(text),
        forall|i: int| 0 <= i < args.len() ==> occurrences(#[trigger] args[i], text) == 0,
    ensures
        occurrences(args_vec(args, send, at), text) == 0,
{
    broadcast use group_occurrences;

    reveal_with_fuel(words_among, 5);
    count_boxed_clones(args, send, at, text);
}

/// No variable that keeps an argument is called `text`.
spec fn keeps_none(text: Seq<char>) -> bool {
    forall|i: nat| text != "__aspect_arg_"@ + #[trigger] digits(i)
}

proof fn count_captures(names: Seq<Name>, at: Span, text: Seq<char>)
    requires
        !is_stock_word(text),
        keeps_none(text),
        forall|i: int| 0 <= i < names.len() ==> #[trigger] names[i].text != text,
    ensures
        occurrences(captures(names, at), text) == 0,
    decreases names.len(),
{
    broadcast use group_occurrences;

    reveal_with_fuel(words_among, 7);
    if names.len() > 0 {
        count_captures(names.drop_last(), at, text);
    }
}

proof fn lemma_all_bound_names_lack(pats: Seq<PatternView>, text: Seq<char>)
    requires
        forall|i: int| 0 <= i < pats.len() ==> pat_lacks(#[trigger] pats[i], text),
    ensures
        forall|i: int|
            0 <= i < all_bound_names(pats).len() ==> #[trigger] all_bound_names(pats)[i].text
                != text,
    decreases pats.len(),
{
    if pats.len() > 0 {
        lemma_all_bound_names_lack(pats.drop_last(), text);
        assert(pat_lacks(pats.last(), text));
        let before = all_bound_names(pats.drop_last());
        let last = bound_names(pats.last());
        assert forall|i: int| 0 <= i < all_bound_names(pats).len() implies
            #[trigger] all_bound_names(pats)[i].text != text by {
            if i < before.len() {
                assert(all_bound_names(pats)[i] == before[i]);
            } else {
                assert(all_bound_names(pats)[i] == last[i - before.len()]);
            }
        }
    }
}

proof fn count_call_arg(pat: PatternView, text: Seq<char>)
    requires
        pat_lacks(pat, text),
    ensures
        occurrences(call_arg(pat), text) == 0,
{
    broadcast use group_occurrences;

    if let PatternShapeView::Ident(name, false) = pat.shape {
        assert(bound_names(pat)[0] == name);
    }
}

proof fn count_call_args(pats: Seq<PatternView>, follows: bool, at: Span, text: Seq<char>)
    requires
        !is_stock_word(text),
        forall|i: int| 0 <= i < pats.len() ==> pat_lacks(#[trigger] pats[i], text),
    ensures
        occurrences(call_args(pats, follows, at), text) == 0,
    decreases pats.len(),
{
    broadcast use group_occurrences;

    reveal_with_fuel(words_among, 3);
    if pats.len() > 0 {
        count_call_args(pats.drop_last(), follows, at, text);
        count_call_arg(pats.last(), text);
    }
}

proof fn count_original_call(
    name: Name,
    pats: Seq<PatternView>,
    has_receiver: bool,
    at: Span,
    text: Seq<char>,
)
    requires
        !is_stock_word(text),
        forall|i: int| 0 <= i < pats.len() ==> pat_lacks(#[trigger] pats[i], text),
    ensures
        occurrences(original_call(name, pats, has_receiver, at), text) == one_if(name.text == text),
{
    broadcast use group_occurrences;

    reveal_with_fuel(words_among, 5);
    count_call_args(pats, has_receiver, at, text);
}

proof fn count_join_point(
    send: bool,
    qualified: bool,
    fn_name: Seq<char>,
    args: Seq<Tok>,
    at: Span,
    text: Seq<char>,
)
    requires
        !is_stock_word(text),
    ensures
        occurrences(join_point(send, qualified, fn_name, args, at), text) == occurrences(
            args,
            text,
        ),
{
    broadcast use group_occurrences;

    reveal_with_fuel(words_among, 30);
}

proof fn count_execution_error(at: Span, text: Seq<char>)
    requires
        !is_stock_word(text),
    ensures
        occurrences(execution_error(at), text) == 0,
{
    broadcast use group_occurrences;

    reveal_with_fuel(words_among, 20);
}

proof fn count_proceed(call: Seq<Tok>, is_result: bool, send: bool, at: Span, text: Seq<char>)
    requires
        !is_stock_word(text),
    ensures
        occurrences(proceed(call, is_result, send, at), text) == occurrences(call, text),
{
    broadcast use group_occurrences;

    reveal_with_fuel(words_among, 16);
    count_execution_error(at, text);
    count_boxed(spell(seq![Word("__val")], at), send, at, text);
    count_boxed(spell(seq![Word("__result")], at), send, at, text);
}

#[verifier::rlimit(60)]
proof fn count_sync_outcome(is_result: bool, at: Span, text: Seq<char>)
    requires
        !is_stock_word(text),
    ensures
        occurrences(sync_outcome(is_result, at), text) == one_if(text == "around"@) + one_if(
            text == "__aspect"@,
        ) + panics(text, is_result),
{
    broadcast use group_occurrences;

    reveal_with_fuel(words_among, 34);
}

#[verifier::rlimit(60)]
proof fn count_sync_around(
    expr: Seq<Tok>,
    fn_name: Seq<char>,
    args: Seq<Tok>,
    call: Seq<Tok>,
    is_result: bool,
    at: Span,
    text: Seq<char>,
)
    requires
        !is_stock_word(text),
    ensures
        occurrences(sync_around(expr, fn_name, args, call, is_result, at), text) == occurrences(
            expr,
            text,
        ) + occurrences(args, text) + occurrences(call, text) + around_calls(
            text,
            "ProceedingJoinPoint"@,
        ) + panics(text, is_result),
{
    broadcast use group_occurrences;

    reveal_with_fuel(words_among, 16);
    count_imports(at, text);
    count_let_aspect(expr, at, text);
    count_join_point(false, false, fn_name, spell(seq![Word("__args")], at), at, text);
    count_proceed(call, is_result, false, at, text);
    count_sync_outcome(is_result, at, text);
}

proof fn count_before_advice(join_point: Seq<Tok>, send: bool, at: Span, text: Seq<char>)
    requires
        !is_stock_word(text),
    ensures
        occurrences(before_advice(join_point, send, at), text) == occurrences(join_point, text)
            + one_if(text == "before"@) + one_if(text == "__aspect"@),
{
    broadcast use group_occurrences;

    reveal_with_fuel(words_among, 8);
}

proof fn count_after_advice(
    join_point: Seq<Tok>,
    value: Seq<Tok>,
    send: bool,
    at: Span,
    text: Seq<char>,
)
    requires
        !is_stock_word(text),
    ensures
        occurrences(after_advice(join_point, value, send, at), text) == occurrences(
            join_point,
            text,
        ) + occurrences(value, text) + one_if(text == "after"@) + one_if(text == "__aspect"@),
{
    broadcast use group_occurrences;

    reveal_with_fuel(words_among, 12);
}

proof fn count_error_advice(join_point: Seq<Tok>, send: bool, at: Span, text: Seq<char>)
    requires
        !is_stock_word(text),
    ensures
        occurrences(error_advice(join_point, send, at), text) == occurrences(join_point, text)
            + one_if(text == "after_error"@) + one_if(text == "__aspect"@),
{
    broadcast use group_occurrences;

    reveal_with_fuel(words_among, 14);
    count_execution_error(at, text);
}

/// How often a body that advises a call before and after it holds `text`, where nothing else in it
/// does: each advice once, and the variable that has the aspect where it is bound and where it is
/// called.
pub open spec fn advice_calls(text: Seq<char>, is_result: bool) -> nat {
    one_if(text == "before"@) + one_if(text == "after"@) + one_if(
        is_result && text == "after_error"@,
    ) + (if is_result {
        4nat
    } else {
        3nat
    }) * one_if(text == "__aspect"@)
}

/// How often a body that hands a call to `around` holds `text`, where nothing else in it does and
/// `pjp` is the type of what it hands over.
pub open spec fn around_calls(text: Seq<char>, pjp: Seq<char>) -> nat {
    one_if(text == "around"@) + one_if(text == pjp) + 2 * one_if(text == "__aspect"@)
}

/// How often a body that hands a call to `around` panics, in words: once for anything but a
/// `Result`, where an error cannot be returned.
pub open spec fn panics(text: Seq<char>, is_result: bool) -> nat {
    one_if(!is_result && text == "panic"@)
}

/// How often a body that hands an asynchronous call to `around` names the function that takes its
/// value out of the box: for anything but a `Result` once where it is defined and once where it is
/// called.
pub open spec fn takings(text: Seq<char>, is_result: bool) -> nat {
    2 * one_if(!is_result && text == "__async_aspect_take_result"@)
}

proof fn count_advised_result(
    call: Seq<Tok>,
    join_point: Seq<Tok>,
    send: bool,
    at: Span,
    text: Seq<char>,
)
    requires
        !is_stock_word(text),
        occurrences(join_point, text) == 0,
    ensures
        occurrences(advised_result(call, join_point, send, at), text) == occurrences(call, text)
            + one_if(text == "after"@) + one_if(text == "after_error"@) + 2 * one_if(
            text == "__aspect"@,
        ),
{
    broadcast use group_occurrences;

    reveal_with_fuel(words_among, 13);
    count_after_advice(join_point, spell(seq![Word("__value")], at), send, at, text);
    count_error_advice(join_point, send, at, text);
}

proof fn count_advised_value(
    call: Seq<Tok>,
    join_point: Seq<Tok>,
    send: bool,
    at: Span,
    text: Seq<char>,
)
    requires
        !is_stock_word(text),
        occurrences(join_point, text) == 0,
    ensures
        occurrences(advised_value(call, join_point, send, at), text) == occurrences(call, text)
            + one_if(text == "after"@) + one_if(text == "__aspect"@),
{
    broadcast use group_occurrences;

    reveal_with_fuel(words_among, 4);
    count_after_advice(join_point, spell(seq![Word("__result")], at), send, at, text);
}

proof fn count_lifecycle(
    expr: Seq<Tok>,
    captures: Seq<Tok>,
    join_point: Seq<Tok>,
    call: Seq<Tok>,
    is_result: bool,
    send: bool,
    at: Span,
    text: Seq<char>,
)
    requires
        !is_stock_word(text),
        occurrences(expr, text) == 0,
        occurrences(captures, text) == 0,
        occurrences(join_point, text) == 0,
    ensures
        occurrences(lifecycle(expr, captures, join_point, call, is_result, send, at), text)
            == advice_calls(text, is_result) + occurrences(call, text),
{
    broadcast use lemma_occurrences_add;

    count_imports(at, text);
    count_let_aspect(expr, at, text);
    count_before_advice(join_point, send, at, text);
    count_advised_result(call, join_point, send, at, text);
    count_advised_value(call, join_point, send, at, text);
}

proof fn count_take_result_fn(at: Span, text: Seq<char>)
    requires
        !is_stock_word(text),
    ensures
        occurrences(take_result_fn(at), text) == one_if(text == "__async_aspect_take_result"@),
{
    broadcast use group_occurrences;

    reveal_with_fuel(words_among, 60);
}

proof fn count_let_async_pjp(
    join_point: Seq<Tok>,
    call: Seq<Tok>,
    is_result: bool,
    at: Span,
    text: Seq<char>,
)
    requires
        !is_stock_word(text),
    ensures
        occurrences(let_async_pjp(join_point, call, is_result, at), text) == occurrences(
            join_point,
            text,
        ) + occurrences(call, text) + one_if(text == "AsyncProceedingJoinPoint"@),
{
    broadcast use group_occurrences;

    reveal_with_fuel(words_among, 25);
    let awaited = call + spell(seq![Alone('.'), Word("await")], at);
    count_proceed(awaited, is_result, true, at, text);
}

#[verifier::rlimit(60)]
proof fn count_async_outcome(is_result: bool, at: Span, text: Seq<char>)
    requires
        !is_stock_word(text),
    ensures
        occurrences(async_outcome(is_result, at), text) == one_if(text == "around"@) + one_if(
            text == "__aspect"@,
        ) + panics(text, is_result) + one_if(
            !is_result && text == "__async_aspect_take_result"@,
        ),
{
    broadcast use group_occurrences;

    reveal_with_fuel(words_among, 34);
}

proof fn count_impl_trait_error(at: Span, text: Seq<char>)
    requires
        !is_stock_word(text),
    ensures
        occurrences(impl_trait_error(at), text) == 0,
{
    broadcast use group_occurrences;

    reveal_with_fuel(words_among, 10);
}

proof fn count_async_advice(
    expr: Seq<Tok>,
    captures: Seq<Tok>,
    join_point: Seq<Tok>,
    call: Seq<Tok>,
    is_result: bool,
    returns_impl_trait: bool,
    has_custom_async_around: bool,
    at: Span,
    text: Seq<char>,
)
    requires
        !is_stock_word(text),
        occurrences(expr, text) == 0,
        occurrences(captures, text) == 0,
        occurrences(join_point, text) == 0,
    ensures
        occurrences(
            async_advice(
                expr,
                captures,
                join_point,
                call,
                is_result,
                returns_impl_trait,
                has_custom_async_around,
                at,
            ),
            text,
        ) == (if !has_custom_async_around {
            advice_calls(text, is_result) + occurrences(call, text)
        } else if !is_result && returns_impl_trait {
            0
        } else {
            around_calls(text, "AsyncProceedingJoinPoint"@) + panics(text, is_result) + takings(
                text,
                is_result,
            ) + occurrences(call, text)
        }),
{
    broadcast use lemma_occurrences_add;

    count_lifecycle(expr, captures, join_point, call, is_result, true, at, text);
    count_impl_trait_error(at, text);
    count_imports(at, text);
    count_take_result_fn(at, text);
    count_let_aspect(expr, at, text);
    count_let_async_pjp(join_point, call, is_result, at, text);
    count_async_outcome(is_result, at, text);
}

proof fn count_attrs(attrs: Seq<AttrView>, inner: bool, text: Seq<char>)
    requires
        forall|i: int| 0 <= i < attrs.len() ==> occurrences(#[trigger] attrs[i].tokens, text) == 0,
    ensures
        occurrences(attr_toks(attrs, inner), text) == 0,
    decreases attrs.len(),
{
    broadcast use group_occurrences;

    if attrs.len() > 0 {
        assert(attrs.last() == attrs[attrs.len() - 1]);
        assert forall|i: int| 0 <= i < attrs.drop_last().len() implies occurrences(
            #[trigger] attrs.drop_last()[i].tokens,
            text,
        ) == 0 by {
            assert(attrs.drop_last()[i] == attrs[i]);
        }
        count_attrs(attrs.drop_last(), inner, text);
    }
}

proof fn count_wrapper(
    aspect: AspectView,
    item: FnItemView,
    asyncness: Seq<Tok>,
    name: Name,
    body: Seq<Tok>,
    at: Span,
    text: Seq<char>,
)
    requires
        !is_stock_word(text),
        sources_lack(aspect, item, text),
        occurrences(asyncness, text) == 0,
    ensures
        occurrences(wrapper(item, asyncness, name, body, at), text) == occurrences(body, text)
            + one_if(name.text == text),
{
    broadcast use group_occurrences;

    reveal_with_fuel(words_among, 3);
    count_attrs(item.attrs, false, text);
    count_attrs(item.attrs, true, text);
}

/// The compiler reports an error in place of the expansion: the aspect has an `around` of its own,
/// and the function returns a value of an unnamed type.
pub open spec fn is_refused(aspect: AspectView, item: FnItemView) -> bool {
    &&& aspect.has_custom_async_around
    &&& !returns_result(item.sig.output)
    &&& returns_impl_trait(item.sig.output)
}

proof fn count_captured(item: FnItemView, send: bool, text: Seq<char>, at: Span)
    requires
        !is_stock_word(text),
        sig_lacks(item.sig, text),
        keeps_none(text),
    ensures
        occurrences(captures(param_names(item), at), text) == 0,
        occurrences(
            captured_join_point(item.sig.ident.text, param_names(item).len(), send, at),
            text,
        ) == 0,
{
    broadcast use group_occurrences;

    let names = param_names(item);
    lemma_all_bound_names_lack(typed_pats(item.sig.inputs), text);
    count_captures(names, at, text);
    let kept = singletons(capture_names(names.len(), at));
    assert forall|i: int| 0 <= i < kept.len() implies occurrences(#[trigger] kept[i], text)
        == 0 by {
        assert(kept[i] == seq![capture_name(i, at).tok()]);
        assert(text != "__aspect_arg_"@ + digits(i as nat));
    }
    count_args_vec(kept, send, at, text);
    count_join_point(send, true, item.sig.ident.text, args_vec(kept, send, at), at, text);
}

/// Where neither the aspect nor the function holds the word `text`, how often it occurs in what
/// weaving an aspect makes of the function: twice where it is the name of the function behind the
/// wrapper, once where that is defined and once where it is called, and as often as the advice is
/// called.
proof fn count_aspect_wrapper(aspect: AspectView, item: FnItemView, text: Seq<char>, at: Span)
    requires
        sources_lack(aspect, item, text),
        !is_stock_word(text),
        keeps_none(text),
    ensures
        occurrences(aspect_wrapper(aspect, item, at), text) == 2 * one_if(
            text == "__aspect_original_"@ + item.sig.ident.text,
        ) + (if item.sig.asyncness is Some {
            advice_calls(text, returns_result(item.sig.output))
        } else {
            around_calls(text, "ProceedingJoinPoint"@) + panics(
                text,
                returns_result(item.sig.output),
            )
        }),
{
    broadcast use group_occurrences;

    let name = hidden_name("__aspect_original_"@, item.sig.ident);
    let call = hidden_call(item, name, at);
    let is_result = returns_result(item.sig.output);
    let pats = typed_pats(item.sig.inputs);
    let fn_name = item.sig.ident.text;
    count_original_call(name, pats, takes_self(item.sig.inputs), at, text);
    if item.sig.asyncness is Some {
        count_captured(item, false, text, at);
        count_lifecycle(
            aspect.aspect_expr,
            captures(param_names(item), at),
            captured_join_point(fn_name, param_names(item).len(), false, at),
            call,
            is_result,
            false,
            at,
            text,
        );
        let body = lifecycle_body(aspect, item, name, at);
        count_wrapper(aspect, item, part_toks(item.sig.asyncness), name, body, at, text);
    } else {
        assert forall|i: int| 0 <= i < each_call_arg(pats).len() implies occurrences(
            #[trigger] each_call_arg(pats)[i],
            text,
        ) == 0 by {
            assert(pat_lacks(pats[i], text));
            count_call_arg(pats[i], text);
        }
        count_args_vec(each_call_arg(pats), false, at, text);
        let args = args_vec(each_call_arg(pats), false, at);
        count_sync_around(aspect.aspect_expr, fn_name, args, call, is_result, at, text);
        let body = sync_body(aspect, item, name, at);
        count_wrapper(aspect, item, part_toks(item.sig.asyncness), name, body, at, text);
    }
}

/// The same for an asynchronous aspect: the function behind the wrapper is not called where the
/// compiler reports an error in place of the expansion.
proof fn count_async_aspect_wrapper(aspect: AspectView, item: FnItemView, text: Seq<char>, at: Span)
    requires
        sources_lack(aspect, item, text),
        !is_stock_word(text),
        keeps_none(text),
    ensures
        occurrences(async_aspect_wrapper(aspect, item, at), text) == one_if(
            text == "__async_aspect_original_"@ + item.sig.ident.text,
        ) + (if is_refused(aspect, item) {
            0
        } else {
            one_if(text == "__async_aspect_original_"@ + item.sig.ident.text) + (
            if aspect.has_custom_async_around {
                around_calls(text, "AsyncProceedingJoinPoint"@) + panics(
                    text,
                    returns_result(item.sig.output),
                ) + takings(text, returns_result(item.sig.output))
            } else {
                advice_calls(text, returns_result(item.sig.output))
            })
        }),
{
    broadcast use group_occurrences;

    reveal_with_fuel(words_among, 3);
    let name = hidden_name("__async_aspect_original_"@, item.sig.ident);
    let pats = typed_pats(item.sig.inputs);
    count_original_call(name, pats, takes_self(item.sig.inputs), at, text);
    count_captured(item, true, text, at);
    count_async_advice(
        aspect.aspect_expr,
        captures(param_names(item), at),
        captured_join_point(item.sig.ident.text, param_names(item).len(), true, at),
        hidden_call(item, name, at),
        returns_result(item.sig.output),
        returns_impl_trait(item.sig.output),
        aspect.has_custom_async_around,
        at,
        text,
    );
    let body = async_body(aspect, item, name, at);
    count_wrapper(aspect, item, spell(seq![Word("async")], at), name, body, at, text);
}

/// Where neither the aspect nor the function holds a word, weaving brings it in only if it is a
/// stock word or a made-up name, or as often as the advice is called: once for each of the two or
/// three calls before and after the function, or once for `around` and for what is handed to it.
/// The variable that has the aspect comes with each of these calls, and once more.
pub proof fn law_words_that_weaving_brings_in(
    aspect: AspectView,
    item: FnItemView,
    text: Seq<char>,
    at: Span,
)
    requires
        sources_lack(aspect, item, text),
        !is_stock_word(text),
        !is_made_up(item, text),
    ensures
        occurrences(aspect_wrapper(aspect, item, at), text) == (if item.sig.asyncness is Some {
            advice_calls(text, returns_result(item.sig.output))
        } else {
            around_calls(text, "ProceedingJoinPoint"@) + panics(
                text,
                returns_result(item.sig.output),
            )
        }),
        occurrences(async_aspect_wrapper(aspect, item, at), text) == (if is_refused(aspect, item) {
            0
        } else if aspect.has_custom_async_around {
            around_calls(text, "AsyncProceedingJoinPoint"@) + panics(
                text,
                returns_result(item.sig.output),
            ) + takings(text, returns_result(item.sig.output))
        } else {
            advice_calls(text, returns_result(item.sig.output))
        }),
{
    count_aspect_wrapper(aspect, item, text, at);
    count_async_aspect_wrapper(aspect, item, text, at);
}

/// What tells the stock words from the advice, from the names that hide functions, and from words
/// that other libraries go by.
proof fn lemma_stock_word(text: Seq<char>)
    requires
        is_stock_word(text),
    ensures
        text.len() > 0,
        text[0] == 'a' ==> text.len() != 6 && text[1] != 'f' && text[1] != 'x',
        text[0] == 'b' ==> text.len() == 5,
        text[0] == '_' && text[2] == 'a' ==> text.len() != 8,
        text[0] == 'i' ==> text.len() == 4,
        text[0] != 't',
        text[0] == 'p' ==> text.len() != 5,
        text.len() <= 15,
{
    reveal_strlit("T");
    reveal_strlit("_");
    reveal_strlit("Ok");
    reveal_strlit("as");
    reveal_strlit("fn");
    reveal_strlit("Any");
    reveal_strlit("Box");
    reveal_strlit("Err");
    reveal_strlit("any");
    reveal_strlit("dyn");
    reveal_strlit("let");
    reveal_strlit("new");
    reveal_strlit("pin");
    reveal_strlit("std");
    reveal_strlit("use");
    reveal_strlit("vec");
    reveal_strlit("Self");
    reveal_strlit("Send");
    reveal_strlit("Sync");
    reveal_strlit("args");
    reveal_strlit("core");
    reveal_strlit("file");
    reveal_strlit("into");
    reveal_strlit("line");
    reveal_strlit("move");
    reveal_strlit("self");
    reveal_strlit("__err");
    reveal_strlit("__pjp");
    reveal_strlit("__val");
    reveal_strlit("async");
    reveal_strlit("await");
    reveal_strlit("boxed");
    reveal_strlit("clone");
    reveal_strlit("match");
    reveal_strlit("__args");
    reveal_strlit("expect");
    reveal_strlit("format");
    reveal_strlit("static");
    reveal_strlit("__inner");
    reveal_strlit("__value");
    reveal_strlit("prelude");
    reveal_strlit("Location");
    reveal_strlit("__result");
    reveal_strlit("downcast");
    reveal_strlit("location");
    reveal_strlit("JoinPoint");
    reveal_strlit("__context");
    reveal_strlit("execution");
    reveal_strlit("AspectError");
    reveal_strlit("aspect_core");
    reveal_strlit("module_path");
    reveal_strlit("__aspect_err");
    reveal_strlit("compile_error");
    reveal_strlit("function_name");
    reveal_strlit("AsyncJoinPoint");
    reveal_strlit("__boxed_result");
    reveal_strlit("__after_context");
    reveal_strlit("__error_context");
    reveal_strlit("__async_aspect_take_result");
}

/// The advice, what is handed to `around`, the variable that has the aspect, and the words for
/// values that are no `Result`: nine different words, none of them a stock word.
pub(crate) proof fn lemma_advice_words()
    ensures
        !is_stock_word("before"@),
        !is_stock_word("after"@),
        !is_stock_word("after_error"@),
        !is_stock_word("around"@),
        !is_stock_word("ProceedingJoinPoint"@),
        !is_stock_word("AsyncProceedingJoinPoint"@),
        "before"@.len() == 6 && "before"@[0] == 'b',
        "after"@.len() == 5 && "after"@[0] == 'a',
        "after_error"@.len() == 11 && "after_error"@[0] == 'a',
        "around"@.len() == 6 && "around"@[0] == 'a',
        "ProceedingJoinPoint"@.len() == 19 && "ProceedingJoinPoint"@[0] == 'P',
        "AsyncProceedingJoinPoint"@.len() == 24 && "AsyncProceedingJoinPoint"@[0] == 'A',
        !is_stock_word("__aspect"@),
        "__aspect"@.len() == 8 && "__aspect"@[0] == '_',
        !is_stock_word("panic"@),
        "panic"@.len() == 5 && "panic"@[0] == 'p',
        !is_stock_word("__async_aspect_take_result"@),
        "__async_aspect_take_result"@.len() == 26,
        "__async_aspect_take_result"@[0] == '_' && "__async_aspect_take_result"@[4] == 'y',
        "__async_aspect_take_result"@[15] == 't',
{
    reveal_strlit("before");
    reveal_strlit("after");
    reveal_strlit("after_error");
    reveal_strlit("around");
    reveal_strlit("ProceedingJoinPoint");
    reveal_strlit("AsyncProceedingJoinPoint");
    reveal_strlit("__aspect");
    reveal_strlit("__async_aspect_take_result");
    assert("after"@[1] == 'f');
    assert("after_error"@[1] == 'f');
    reveal_strlit("panic");
    if is_stock_word("panic"@) {
        lemma_stock_word("panic"@);
    }
    if is_stock_word("__async_aspect_take_result"@) {
        lemma_stock_word("__async_aspect_take_result"@);
    }
    if is_stock_word("before"@) {
        lemma_stock_word("before"@);
    }
    if is_stock_word("after"@) {
        lemma_stock_word("after"@);
    }
    if is_stock_word("after_error"@) {
        lemma_stock_word("after_error"@);
    }
    if is_stock_word("around"@) {
        lemma_stock_word("around"@);
    }
    if is_stock_word("ProceedingJoinPoint"@) {
        lemma_stock_word("ProceedingJoinPoint"@);
    }
    if is_stock_word("AsyncProceedingJoinPoint"@) {
        lemma_stock_word("AsyncProceedingJoinPoint"@);
    }
    assert("__aspect"@[2] == 'a');
    if is_stock_word("__aspect"@) {
        lemma_stock_word("__aspect"@);
    }
}

/// A word that does not begin with an underscore is not made up for any function.
proof fn lemma_not_made_up(item: FnItemView, text: Seq<char>)
    requires
        text.len() > 0,
        text[0] != '_',
    ensures
        !is_made_up(item, text),
{
    reveal_strlit("__aspect_original_");
    reveal_strlit("__async_aspect_original_");
    reveal_strlit("__aspect_arg_");
    assert(("__aspect_original_"@ + item.sig.ident.text)[0] == '_');
    assert(("__async_aspect_original_"@ + item.sig.ident.text)[0] == '_');
    assert forall|i: nat| text != "__aspect_arg_"@ + #[trigger] digits(i) by {
        assert(("__aspect_arg_"@ + digits(i))[0] == '_');
    }
}

/// The name of a function behind its wrapper is no stock word and no advice, and it is none of the
/// variables that keep arguments.
proof fn lemma_hidden_name_is_fresh(text: Seq<char>, ident: Seq<char>)
    requires
        text == "__aspect_original_"@ + ident || text == "__async_aspect_original_"@ + ident,
    ensures
        !is_stock_word(text),
        keeps_none(text),
        text[0] == '_',
        text.len() > 8,
        text != "__async_aspect_take_result"@,
{
    reveal_strlit("__aspect_original_");
    reveal_strlit("__async_aspect_original_");
    reveal_strlit("__aspect_arg_");
    reveal_strlit("__async_aspect_take_result");
    assert(text.len() >= 18);
    assert(text[0] == '_');
    assert(text[4] == 'p' || (text[4] == 'y' && text[15] == 'o'));
    assert(text[4] == 'p' ==> text[9] == 'o');
    assert("__async_aspect_take_result"@[4] == 'y');
    assert("__async_aspect_take_result"@[15] == 't');
    if is_stock_word(text) {
        lemma_stock_word(text);
    }
    assert forall|i: nat| text != "__aspect_arg_"@ + #[trigger] digits(i) by {
        assert(("__aspect_arg_"@ + digits(i))[4] == 'p');
        assert(("__aspect_arg_"@ + digits(i))[9] == 'a');
    }
}

/// Neither the aspect nor the function names advice, nor what is handed to `around`.
pub open spec fn names_no_advice(aspect: AspectView, item: FnItemView) -> bool {
    &&& sources_lack(aspect, item, "before"@)
    &&& sources_lack(aspect, item, "after"@)
    &&& sources_lack(aspect, item, "after_error"@)
    &&& sources_lack(aspect, item, "around"@)
    &&& sources_lack(aspect, item, "ProceedingJoinPoint"@)
    &&& sources_lack(aspect, item, "AsyncProceedingJoinPoint"@)
}

/// The advice before and after a call is named once, `after_error` only for a `Result`, and neither
/// `around` nor what is handed to it is named.
pub open spec fn names_advice_once(toks: Seq<Tok>, is_result: bool) -> bool {
    &&& occurrences(toks, "before"@) == 1
    &&& occurrences(toks, "after"@) == 1
    &&& occurrences(toks, "after_error"@) == one_if(is_result)
    &&& occurrences(toks, "around"@) == 0
    &&& occurrences(toks, "ProceedingJoinPoint"@) == 0
    &&& occurrences(toks, "AsyncProceedingJoinPoint"@) == 0
}

/// `around` is named once, and so is what is handed to it, of the kind that is asked for. No other
/// advice is named.
pub open spec fn names_around_once(toks: Seq<Tok>, asynchronous: bool) -> bool {
    &&& occurrences(toks, "before"@) == 0
    &&& occurrences(toks, "after"@) == 0
    &&& occurrences(toks, "after_error"@) == 0
    &&& occurrences(toks, "around"@) == 1
    &&& occurrences(toks, "ProceedingJoinPoint"@) == one_if(!asynchronous)
    &&& occurrences(toks, "AsyncProceedingJoinPoint"@) == one_if(asynchronous)
}

/// No advice is named at all.
pub open spec fn names_advice_never(toks: Seq<Tok>) -> bool {
    &&& occurrences(toks, "before"@) == 0
    &&& occurrences(toks, "after"@) == 0
    &&& occurrences(toks, "after_error"@) == 0
    &&& occurrences(toks, "around"@) == 0
    &&& occurrences(toks, "ProceedingJoinPoint"@) == 0
    &&& occurrences(toks, "AsyncProceedingJoinPoint"@) == 0
}

/// Weaving never names advice twice: for an asynchronous function, and for one under an
/// asynchronous aspect that has no `around` of its own, it names the advice before and after the
/// call once each; for any other it names `around` once. Where the compiler reports an error
/// instead, it names none.
pub proof fn law_advice_words_are_never_duplicated(aspect: AspectView, item: FnItemView, at: Span)
    requires
        names_no_advice(aspect, item),
    ensures
        item.sig.asyncness is Some ==> names_advice_once(
            aspect_wrapper(aspect, item, at),
            returns_result(item.sig.output),
        ),
        item.sig.asyncness is None ==> names_around_once(aspect_wrapper(aspect, item, at), false),
        !aspect.has_custom_async_around ==> names_advice_once(
            async_aspect_wrapper(aspect, item, at),
            returns_result(item.sig.output),
        ),
        aspect.has_custom_async_around && !is_refused(aspect, item) ==> names_around_once(
            async_aspect_wrapper(aspect, item, at),
            true,
        ),
        is_refused(aspect, item) ==> names_advice_never(async_aspect_wrapper(aspect, item, at)),
{
    lemma_advice_words();
    lemma_not_made_up(item, "before"@);
    lemma_not_made_up(item, "after"@);
    lemma_not_made_up(item, "after_error"@);
    lemma_not_made_up(item, "around"@);
    lemma_not_made_up(item, "ProceedingJoinPoint"@);
    lemma_not_made_up(item, "AsyncProceedingJoinPoint"@);
    law_words_that_weaving_brings_in(aspect, item, "before"@, at);
    law_words_that_weaving_brings_in(aspect, item, "after"@, at);
    law_words_that_weaving_brings_in(aspect, item, "after_error"@, at);
    law_words_that_weaving_brings_in(aspect, item, "around"@, at);
    law_words_that_weaving_brings_in(aspect, item, "ProceedingJoinPoint"@, at);
    law_words_that_weaving_brings_in(aspect, item, "AsyncProceedingJoinPoint"@, at);
}

/// Where the function and the aspect do not hold the name that hides the function, that name stands
/// twice in what is woven: where the function is defined and where it is called. So the function is
/// called at one place, and at none where the compiler reports an error instead.
pub proof fn law_function_is_called_once(aspect: AspectView, item: FnItemView, at: Span)
    ensures
        sources_lack(aspect, item, "__aspect_original_"@ + item.sig.ident.text) ==> occurrences(
            aspect_wrapper(aspect, item, at),
            "__aspect_original_"@ + item.sig.ident.text,
        ) == 2,
        sources_lack(aspect, item, "__async_aspect_original_"@ + item.sig.ident.text)
            ==> occurrences(
            async_aspect_wrapper(aspect, item, at),
            "__async_aspect_original_"@ + item.sig.ident.text,
        ) == (if is_refused(aspect, item) {
            1nat
        } else {
            2nat
        }),
{
    let name = "__aspect_original_"@ + item.sig.ident.text;
    let async_name = "__async_aspect_original_"@ + item.sig.ident.text;
    lemma_advice_words();
    lemma_hidden_name_is_fresh(name, item.sig.ident.text);
    lemma_hidden_name_is_fresh(async_name, item.sig.ident.text);
    if sources_lack(aspect, item, name) {
        count_aspect_wrapper(aspect, item, name, at);
    }
    if sources_lack(aspect, item, async_name) {
        count_async_aspect_wrapper(aspect, item, async_name, at);
    }
}

/// What is woven ties the program to no runtime and to no web framework: it neither blocks in place
/// nor makes responses, unless the function or the aspect does.
pub proof fn law_weaving_brings_in_no_runtime(aspect: AspectView, item: FnItemView, at: Span)
    ensures
        sources_lack(aspect, item, "tokio"@) ==> {
            &&& occurrences(aspect_wrapper(aspect, item, at), "tokio"@) == 0
            &&& occurrences(async_aspect_wrapper(aspect, item, at), "tokio"@) == 0
        },
        sources_lack(aspect, item, "block_in_place"@) ==> {
            &&& occurrences(aspect_wrapper(aspect, item, at), "block_in_place"@) == 0
            &&& occurrences(async_aspect_wrapper(aspect, item, at), "block_in_place"@) == 0
        },
        sources_lack(aspect, item, "axum"@) ==> {
            &&& occurrences(aspect_wrapper(aspect, item, at), "axum"@) == 0
            &&& occurrences(async_aspect_wrapper(aspect, item, at), "axum"@) == 0
        },
        sources_lack(aspect, item, "into_response"@) ==> {
            &&& occurrences(aspect_wrapper(aspect, item, at), "into_response"@) == 0
            &&& occurrences(async_aspect_wrapper(aspect, item, at), "into_response"@) == 0
        },
{
    reveal_strlit("tokio");
    reveal_strlit("block_in_place");
    reveal_strlit("axum");
    reveal_strlit("into_response");
    assert("tokio"@[0] == 't' && "tokio"@.len() == 5);
    assert("block_in_place"@[0] == 'b' && "block_in_place"@.len() == 14);
    assert("axum"@[0] == 'a' && "axum"@[1] == 'x' && "axum"@.len() == 4);
    assert("into_response"@[0] == 'i' && "into_response"@.len() == 13);
    lemma_advice_words();
    lemma_foreign_word(aspect, item, "tokio"@, at);
    lemma_foreign_word(aspect, item, "block_in_place"@, at);
    lemma_foreign_word(aspect, item, "axum"@, at);
    lemma_foreign_word(aspect, item, "into_response"@, at);
}

proof fn lemma_foreign_word(aspect: AspectView, item: FnItemView, text: Seq<char>, at: Span)
    requires
        text.len() > 0,
        text[0] == 't' || (text[0] == 'b' && text.len() == 14) || (text[0] == 'a' && text[1] == 'x'
            && text.len() == 4) || (text[0] == 'i' && text.len() == 13),
    ensures
        sources_lack(aspect, item, text) ==> {
            &&& occurrences(aspect_wrapper(aspect, item, at), text) == 0
            &&& occurrences(async_aspect_wrapper(aspect, item, at), text) == 0
        },
{
    lemma_advice_words();
    lemma_not_made_up(item, text);
    if is_stock_word(text) {
        lemma_stock_word(text);
    }
    if sources_lack(aspect, item, text) {
        law_words_that_weaving_brings_in(aspect, item, text, at);
    }
}

/// How often the variable that has the aspect stands in what is woven, where neither the aspect nor
/// the function holds it: once where it is bound, and once for each call of advice.
pub proof fn law_occurrences_of_the_aspect(aspect: AspectView, item: FnItemView, at: Span)
    requires
        sources_lack(aspect, item, "__aspect"@),
    ensures
        occurrences(aspect_wrapper(aspect, item, at), "__aspect"@) == (
        if item.sig.asyncness is None {
            2nat
        } else if returns_result(item.sig.output) {
            4nat
        } else {
            3nat
        }),
        occurrences(async_aspect_wrapper(aspect, item, at), "__aspect"@) == (
        if is_refused(aspect, item) {
            0nat
        } else if aspect.has_custom_async_around {
            2nat
        } else if returns_result(item.sig.output) {
            4nat
        } else {
            3nat
        }),
{
    lemma_advice_words();
    let text = "__aspect"@;
    assert(!is_made_up(item, text)) by {
        reveal_strlit("__aspect_original_");
        reveal_strlit("__async_aspect_original_");
        reveal_strlit("__aspect_arg_");
        assert(("__aspect_original_"@ + item.sig.ident.text).len() > 8);
        assert(("__async_aspect_original_"@ + item.sig.ident.text).len() > 8);
        assert forall|i: nat| text != "__aspect_arg_"@ + #[trigger] digits(i) by {
            assert(("__aspect_arg_"@ + digits(i)).len() > 8);
        }
    }
    law_words_that_weaving_brings_in(aspect, item, text, at);
}

/// An error is never fatal to a function that returns a `Result`: where neither the function nor
/// the aspect panics, what is woven does not panic either, and takes no value out of a box by its
/// type.
pub proof fn law_errors_of_a_result_are_never_fatal(aspect: AspectView, item: FnItemView, at: Span)
    requires
        returns_result(item.sig.output),
    ensures
        sources_lack(aspect, item, "panic"@) ==> {
            &&& occurrences(aspect_wrapper(aspect, item, at), "panic"@) == 0
            &&& occurrences(async_aspect_wrapper(aspect, item, at), "panic"@) == 0
        },
        sources_lack(aspect, item, "__async_aspect_take_result"@) ==> {
            &&& occurrences(aspect_wrapper(aspect, item, at), "__async_aspect_take_result"@) == 0
            &&& occurrences(async_aspect_wrapper(aspect, item, at), "__async_aspect_take_result"@)
                == 0
        },
{
    lemma_advice_words();
    lemma_not_made_up(item, "panic"@);
    if sources_lack(aspect, item, "panic"@) {
        law_words_that_weaving_brings_in(aspect, item, "panic"@, at);
    }
    let text = "__async_aspect_take_result"@;
    let ident = item.sig.ident.text;
    lemma_hidden_name_is_fresh("__aspect_original_"@ + ident, ident);
    lemma_hidden_name_is_fresh("__async_aspect_original_"@ + ident, ident);
    assert(!is_made_up(item, text)) by {
        reveal_strlit("__aspect_arg_");
        assert forall|i: nat| text != "__aspect_arg_"@ + #[trigger] digits(i) by {
            assert(("__aspect_arg_"@ + digits(i))[4] == 'p');
        }
    }
    if sources_lack(aspect, item, text) {
        law_words_that_weaving_brings_in(aspect, item, text, at);
    }
}

} // verus!
