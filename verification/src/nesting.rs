//! How groups nest in what weaving produces.

use crate::builder::{depth_after, spell, Piece};
use crate::builder::Piece::{Alone, Close, Joint, Open, Word};
use crate::syntax::{AspectView, AttrView, FnItemView, FnSigView, Name, PatternView};
use crate::templates::{
    after_advice, args_vec, aspect_wrapper, async_advice, async_aspect_wrapper, async_body,
    async_outcome, attr_toks, before_advice, boxed, boxed_clone, boxed_clones, call_arg, call_args,
    capture_name, capture_names, captured_join_point, captures, dyn_any, each_call_arg,
    error_advice, execution_error, hidden_call, hidden_name, impl_trait_error, imports, join_point,
    let_aspect, let_async_pjp, lifecycle, lifecycle_body, original_call, output_toks, param_names,
    param_toks, part_toks, proceed, qualifiers, renamed_item, renamed_signature, returns_impl_trait,
    returns_result, singletons, sync_around, sync_body, sync_outcome, take_result_fn, takes_self,
    typed_pats, wrapper, wrapper_signature,
};
use crate::tokens::Delim::{Brace, Paren};
use crate::tokens::Tok;
use proc_macro2::Span;
use vstd::prelude::*;

verus! {

/// How many groups are open after some tokens, where `depth` were before them; negative from the
/// token on that ends a group where none is open.
pub open spec fn level(toks: Seq<Tok>, depth: int) -> int
    decreases toks.len(),
{
    if toks.len() == 0 {
        depth
    } else {
        let before = level(toks.drop_last(), depth);
        if before < 0 {
            before
        } else {
            match toks.last() {
                Tok::Open(_, _) => before + 1,
                Tok::Close => before - 1,
                _ => before,
            }
        }
    }
}

/// Every group that the tokens open ends among them, and none ends that they did not open.
pub open spec fn balanced(toks: Seq<Tok>) -> bool {
    level(toks, 0) == 0
}

/// Every part of a signature is balanced.
pub open spec fn sig_is_balanced(sig: FnSigView) -> bool {
    &&& balanced(sig.constness)
    &&& balanced(part_toks(sig.asyncness))
    &&& balanced(sig.unsafety)
    &&& balanced(sig.abi)
    &&& balanced(sig.fn_token)
    &&& balanced(sig.generics)
    &&& balanced(sig.input_tokens)
    &&& forall|i: int|
        0 <= i < typed_pats(sig.inputs).len() ==> balanced(
            #[trigger] typed_pats(sig.inputs)[i].tokens,
        )
    &&& balanced(part_toks(sig.variadic))
    &&& balanced(output_toks(sig.output))
    &&& balanced(sig.where_clause)
}

/// Every part of a function item is balanced.
pub open spec fn item_is_balanced(item: FnItemView) -> bool {
    &&& forall|i: int| 0 <= i < item.attrs.len() ==> balanced(#[trigger] item.attrs[i].tokens)
    &&& balanced(item.vis)
    &&& sig_is_balanced(item.sig)
    &&& balanced(item.stmts)
}

pub(crate) broadcast proof fn lemma_level_add(a: Seq<Tok>, b: Seq<Tok>, depth: int)
    ensures
        #[trigger] level(a + b, depth) == (if level(a, depth) < 0 {
            level(a, depth)
        } else {
            level(b, level(a, depth))
        }),
    decreases b.len(),
{
    if b.len() == 0 {
        assert(a + b =~= a);
    } else {
        assert((a + b).drop_last() =~= a + b.drop_last());
        lemma_level_add(a, b.drop_last(), depth);
        if level(a, depth) < 0 {
            lemma_level_stays_negative(b.drop_last(), level(a, depth));
        }
    }
}

proof fn lemma_level_stays_negative(toks: Seq<Tok>, depth: int)
    requires
        depth < 0,
    ensures
        level(toks, depth) == depth,
    decreases toks.len(),
{
    if toks.len() > 0 {
        lemma_level_stays_negative(toks.drop_last(), depth);
    }
}

proof fn lemma_level_shifts(toks: Seq<Tok>, depth: int)
    requires
        level(toks, 0) >= 0,
        depth >= 0,
    ensures
        level(toks, depth) == level(toks, 0) + depth,
    decreases toks.len(),
{
    if toks.len() > 0 {
        lemma_level_shifts(toks.drop_last(), depth);
    }
}

pub(crate) broadcast proof fn lemma_level_balanced(toks: Seq<Tok>, depth: int)
    requires
        balanced(toks),
        depth >= 0,
    ensures
        #[trigger] level(toks, depth) == depth,
{
    lemma_level_shifts(toks, depth);
}

proof fn lemma_level_of_pieces(pieces: Seq<Piece>, n: nat, at: Span, depth: int)
    requires
        n <= pieces.len(),
    ensures
        level(spell(pieces, at).take(n as int), depth) == depth_after(pieces, n, depth),
    decreases n,
{
    reveal(spell);
    if n > 0 {
        lemma_level_of_pieces(pieces, (n - 1) as nat, at, depth);
        let toks = spell(pieces, at);
        assert(toks.take(n as int).drop_last() =~= toks.take(n - 1));
    }
}

pub(crate) broadcast proof fn lemma_level_spelled(pieces: Seq<Piece>, at: Span, depth: int)
    ensures
        #[trigger] level(spell(pieces, at), depth) == depth_after(pieces, pieces.len(), depth),
{
    reveal(spell);
    lemma_level_of_pieces(pieces, pieces.len(), at, depth);
    assert(spell(pieces, at).take(pieces.len() as int) =~= spell(pieces, at));
}

pub(crate) broadcast proof fn lemma_level_one(tok: Tok, depth: int)
    ensures
        #[trigger] level(seq![tok], depth) == (if depth < 0 {
            depth
        } else {
            match tok {
                Tok::Open(_, _) => depth + 1,
                Tok::Close => depth - 1,
                _ => depth,
            }
        }),
{
    assert(seq![tok].drop_last() =~= Seq::<Tok>::empty());
    reveal_with_fuel(level, 2);
}

broadcast proof fn lemma_balanced_add(a: Seq<Tok>, b: Seq<Tok>)
    requires
        balanced(a),
        balanced(b),
    ensures
        #[trigger] balanced(a + b),
{
    lemma_level_add(a, b, 0);
}

pub(crate) broadcast group group_level {
    lemma_level_add,
    lemma_level_balanced,
    lemma_level_spelled,
    lemma_level_one,
}

proof fn nest_imports(at: Span)
    ensures
        balanced(imports(at)),
{
    broadcast use {lemma_level_add, lemma_level_spelled};

    reveal_with_fuel(depth_after, 23);
}

proof fn nest_let_aspect(expr: Seq<Tok>, at: Span)
    requires
        balanced(expr),
    ensures
        balanced(let_aspect(expr, at)),
{
    broadcast use group_level;

    reveal_with_fuel(depth_after, 4);
}

proof fn nest_dyn_any(send: bool, at: Span)
    ensures
        balanced(dyn_any(send, at)),
{
    broadcast use {lemma_level_add, lemma_level_spelled};

    reveal_with_fuel(depth_after, 7);
}

proof fn nest_boxed(value: Seq<Tok>, send: bool, at: Span)
    requires
        balanced(value),
    ensures
        balanced(boxed(value, send, at)),
{
    broadcast use group_level;

    reveal_with_fuel(depth_after, 6);
    nest_dyn_any(send, at);
}

proof fn nest_boxed_clone(arg: Seq<Tok>, send: bool, at: Span)
    requires
        balanced(arg),
    ensures
        balanced(boxed_clone(arg, send, at)),
{
    broadcast use group_level;

    reveal_with_fuel(depth_after, 5);
    nest_boxed(arg + spell(seq![Alone('.'), Word("clone"), Open(Paren), Close], at), send, at);
}

proof fn nest_boxed_clones(args: Seq<Seq<Tok>>, send: bool, at: Span)
    requires
        forall|i: int| 0 <= i < args.len() ==> balanced(#[trigger] args[i]),
    ensures
        balanced(boxed_clones(args, send, at)),
    decreases args.len(),
{
    broadcast use group_level;

    reveal_with_fuel(depth_after, 2);
    if args.len() > 0 {
        nest_boxed_clones(args.drop_last(), send, at);
        nest_boxed_clone(args.last(), send, at);
    }
}

proof fn nest_args_vec(args: Seq<Seq<Tok>>, send: bool, at: Span)
    requires
        forall|i: int| 0 <= i < args.len() ==> balanced(#[trigger] args[i]),
    ensures
        balanced(args_vec(args, send, at)),
{
    broadcast use group_level;

    reveal_with_fuel(depth_after, 4);
    nest_boxed_clones(args, send, at);
}

proof fn nest_captures(names: Seq<Name>, at: Span)
    ensures
        balanced(captures(names, at)),
    decreases names.len(),
{
    broadcast use group_level;

    reveal_with_fuel(depth_after, 6);
    if names.len() > 0 {
        nest_captures(names.drop_last(), at);
    }
}

proof fn nest_call_args(pats: Seq<PatternView>, follows: bool, at: Span)
    requires
        forall|i: int| 0 <= i < pats.len() ==> balanced(#[trigger] pats[i].tokens),
    ensures
        balanced(call_args(pats, follows, at)),
    decreases pats.len(),
{
    broadcast use group_level;

    reveal_with_fuel(depth_after, 2);
    if pats.len() > 0 {
        assert(balanced(pats[pats.len() - 1].tokens));
        assert forall|i: int| 0 <= i < pats.drop_last().len() implies balanced(
            #[trigger] pats.drop_last()[i].tokens,
        ) by {
            assert(pats.drop_last()[i] == pats[i]);
        }
        nest_call_args(pats.drop_last(), follows, at);
    }
}

proof fn nest_original_call(name: Name, pats: Seq<PatternView>, has_receiver: bool, at: Span)
    requires
        forall|i: int| 0 <= i < pats.len() ==> balanced(#[trigger] pats[i].tokens),
    ensures
        balanced(original_call(name, pats, has_receiver, at)),
{
    broadcast use group_level;

    reveal_with_fuel(depth_after, 4);
    nest_call_args(pats, has_receiver, at);
}

proof fn nest_join_point(send: bool, qualified: bool, fn_name: Seq<char>, args: Seq<Tok>, at: Span)
    requires
        balanced(args),
    ensures
        balanced(join_point(send, qualified, fn_name, args, at)),
{
    broadcast use group_level;

    reveal_with_fuel(depth_after, 22);
}

proof fn nest_execution_error(at: Span)
    ensures
        balanced(execution_error(at)),
{
    broadcast use {lemma_level_add, lemma_level_spelled};

    reveal_with_fuel(depth_after, 14);
}

/// The parts of a match on a call that boxes its value, each of them balanced.
proof fn nest_proceed_frame(call: Seq<Tok>, value: Seq<Tok>, error: Seq<Tok>, at: Span)
    requires
        balanced(call),
        balanced(value),
        balanced(error),
    ensures
        balanced(
            spell(seq![Word("match")], at) + call + spell(
                seq![
                    Open(Brace), Word("Ok"), Open(Paren), Word("__val"), Close, Joint('='),
                    Alone('>'), Word("Ok"), Open(Paren),
                ],
                at,
            ) + value + spell(
                seq![
                    Close, Alone(','), Word("Err"), Open(Paren), Word("__err"), Close, Joint('='),
                    Alone('>'), Word("Err"), Open(Paren),
                ],
                at,
            ) + error + spell(seq![Close, Alone(','), Close], at),
        ),
{
    broadcast use group_level;

    reveal_with_fuel(depth_after, 11);
}

proof fn nest_proceed(call: Seq<Tok>, is_result: bool, send: bool, at: Span)
    requires
        balanced(call),
    ensures
        balanced(proceed(call, is_result, send, at)),
{
    nest_execution_error(at);
    nest_word("__val", at);
    nest_word("__result", at);
    let value = spell(seq![Word("__val")], at);
    let result = spell(seq![Word("__result")], at);
    nest_boxed(value, send, at);
    nest_boxed(result, send, at);
    nest_proceed_frame(call, boxed(value, send, at), execution_error(at), at);
    nest_kept_frame(call, boxed(result, send, at), at);
}

/// The parts of a body that keeps the value of a call and boxes it, each of them balanced.
proof fn nest_kept_frame(call: Seq<Tok>, value: Seq<Tok>, at: Span)
    requires
        balanced(call),
        balanced(value),
    ensures
        balanced(
            spell(seq![Word("let"), Word("__result"), Alone('=')], at) + call + spell(
                seq![Alone(';'), Word("Ok"), Open(Paren)],
                at,
            ) + value + spell(seq![Close], at),
        ),
{
    broadcast use group_level;

    reveal_with_fuel(depth_after, 4);
}

#[verifier::rlimit(60)]
proof fn nest_sync_outcome(is_result: bool, at: Span)
    ensures
        balanced(sync_outcome(is_result, at)),
{
    broadcast use {lemma_level_add, lemma_level_spelled};

    reveal_with_fuel(depth_after, 34);
}

/// The parts of a body around a call, each of them balanced.
proof fn nest_around_frame(
    start: Seq<Tok>,
    args: Seq<Tok>,
    join_point: Seq<Tok>,
    proceed: Seq<Tok>,
    outcome: Seq<Tok>,
    at: Span,
)
    requires
        balanced(start),
        balanced(args),
        balanced(join_point),
        balanced(proceed),
        balanced(outcome),
    ensures
        balanced(
            start + spell(seq![Word("let"), Word("__args"), Alone('=')], at) + args + spell(
                seq![Alone(';'), Word("let"), Word("__context"), Alone('=')],
                at,
            ) + join_point + spell(
                seq![
                    Alone(';'), Word("let"), Word("__pjp"), Alone('='), Word("ProceedingJoinPoint"),
                    Joint(':'), Alone(':'), Word("new"), Open(Paren), Joint('|'), Alone('|'),
                    Open(Brace),
                ],
                at,
            ) + proceed + spell(
                seq![Close, Alone(','), Word("__context"), Alone(','), Close, Alone(';')],
                at,
            ) + outcome,
        ),
{
    broadcast use group_level;

    reveal_with_fuel(depth_after, 13);
}

proof fn nest_sync_around(
    expr: Seq<Tok>,
    fn_name: Seq<char>,
    args: Seq<Tok>,
    call: Seq<Tok>,
    is_result: bool,
    at: Span,
)
    requires
        balanced(expr),
        balanced(args),
        balanced(call),
    ensures
        balanced(sync_around(expr, fn_name, args, call, is_result, at)),
{
    broadcast use lemma_balanced_add;

    nest_imports(at);
    nest_let_aspect(expr, at);
    nest_word("__args", at);
    let jp = join_point(false, false, fn_name, spell(seq![Word("__args")], at), at);
    nest_join_point(false, false, fn_name, spell(seq![Word("__args")], at), at);
    nest_proceed(call, is_result, false, at);
    nest_sync_outcome(is_result, at);
    nest_around_frame(
        imports(at) + let_aspect(expr, at),
        args,
        jp,
        proceed(call, is_result, false, at),
        sync_outcome(is_result, at),
        at,
    );
}

/// One word opens no group and ends none.
proof fn nest_word(word: &'static str, at: Span)
    ensures
        balanced(spell(seq![Word(word)], at)),
{
    broadcast use group_level;

    reveal_with_fuel(depth_after, 2);
}

proof fn nest_before_advice(join_point: Seq<Tok>, send: bool, at: Span)
    requires
        balanced(join_point),
    ensures
        balanced(before_advice(join_point, send, at)),
{
    broadcast use group_level;

    reveal_with_fuel(depth_after, 6);
}

proof fn nest_after_advice(join_point: Seq<Tok>, value: Seq<Tok>, send: bool, at: Span)
    requires
        balanced(join_point),
        balanced(value),
    ensures
        balanced(after_advice(join_point, value, send, at)),
{
    broadcast use group_level;

    reveal_with_fuel(depth_after, 10);
}

proof fn nest_error_advice(join_point: Seq<Tok>, send: bool, at: Span)
    requires
        balanced(join_point),
    ensures
        balanced(error_advice(join_point, send, at)),
{
    broadcast use group_level;

    reveal_with_fuel(depth_after, 12);
    nest_execution_error(at);
}

/// The parts of a match on an awaited call, each of them balanced.
proof fn nest_result_frame(call: Seq<Tok>, after: Seq<Tok>, error: Seq<Tok>, at: Span)
    requires
        balanced(call),
        balanced(after),
        balanced(error),
    ensures
        balanced(
            spell(seq![Word("match")], at) + call + spell(
                seq![
                    Alone('.'), Word("await"), Open(Brace), Word("Ok"), Open(Paren),
                    Word("__value"), Close, Joint('='), Alone('>'), Open(Brace),
                ],
                at,
            ) + after + spell(
                seq![
                    Word("Ok"), Open(Paren), Word("__value"), Close, Close, Word("Err"),
                    Open(Paren), Word("__err"), Close, Joint('='), Alone('>'), Open(Brace),
                ],
                at,
            ) + error + spell(
                seq![Word("Err"), Open(Paren), Word("__err"), Close, Close, Close],
                at,
            ),
        ),
{
    broadcast use group_level;

    reveal_with_fuel(depth_after, 13);
}

/// The parts of a body that awaits a call and keeps its value, each of them balanced.
proof fn nest_value_frame(call: Seq<Tok>, after: Seq<Tok>, at: Span)
    requires
        balanced(call),
        balanced(after),
    ensures
        balanced(
            spell(seq![Word("let"), Word("__result"), Alone('=')], at) + call + spell(
                seq![Alone('.'), Word("await"), Alone(';')],
                at,
            ) + after + spell(seq![Word("__result")], at),
        ),
{
    broadcast use group_level;

    reveal_with_fuel(depth_after, 4);
}

proof fn nest_lifecycle(
    expr: Seq<Tok>,
    captures: Seq<Tok>,
    join_point: Seq<Tok>,
    call: Seq<Tok>,
    is_result: bool,
    send: bool,
    at: Span,
)
    requires
        balanced(expr),
        balanced(captures),
        balanced(join_point),
        balanced(call),
    ensures
        balanced(lifecycle(expr, captures, join_point, call, is_result, send, at)),
{
    broadcast use lemma_balanced_add;

    nest_imports(at);
    nest_let_aspect(expr, at);
    nest_before_advice(join_point, send, at);
    let value = spell(seq![Word("__value")], at);
    let result = spell(seq![Word("__result")], at);
    nest_word("__value", at);
    nest_word("__result", at);
    nest_after_advice(join_point, value, send, at);
    nest_after_advice(join_point, result, send, at);
    nest_error_advice(join_point, send, at);
    nest_result_frame(
        call,
        after_advice(join_point, value, send, at),
        error_advice(join_point, send, at),
        at,
    );
    nest_value_frame(call, after_advice(join_point, result, send, at), at);
    assert(balanced(imports(at) + let_aspect(expr, at) + captures));
    assert(balanced(
        imports(at) + let_aspect(expr, at) + captures + before_advice(join_point, send, at),
    ));
}

proof fn nest_take_result_fn(at: Span)
    ensures
        balanced(take_result_fn(at)),
{
    broadcast use {lemma_level_add, lemma_level_spelled};

    reveal_with_fuel(depth_after, 50);
}

/// The parts of a join point for an asynchronous `around`, each of them balanced.
proof fn nest_async_pjp_frame(join_point: Seq<Tok>, proceed: Seq<Tok>, at: Span)
    requires
        balanced(join_point),
        balanced(proceed),
    ensures
        balanced(
            spell(seq![Word("let"), Word("__context"), Alone('=')], at) + join_point + spell(
                seq![
                    Alone(';'), Word("let"), Word("__pjp"), Alone('='),
                    Word("AsyncProceedingJoinPoint"), Joint(':'), Alone(':'), Word("new"),
                    Open(Paren), Word("move"), Joint('|'), Alone('|'), Open(Brace), Word("Box"),
                    Joint(':'), Alone(':'), Word("pin"), Open(Paren), Word("async"), Word("move"),
                    Open(Brace),
                ],
                at,
            ) + proceed + spell(
                seq![
                    Close, Close, Close, Alone(','), Word("__context"), Alone(','), Close,
                    Alone(';'),
                ],
                at,
            ),
        ),
{
    broadcast use group_level;

    reveal_with_fuel(depth_after, 22);
}

proof fn nest_let_async_pjp(join_point: Seq<Tok>, call: Seq<Tok>, is_result: bool, at: Span)
    requires
        balanced(join_point),
        balanced(call),
    ensures
        balanced(let_async_pjp(join_point, call, is_result, at)),
{
    let dot_await = spell(seq![Alone('.'), Word("await")], at);
    assert(balanced(call + dot_await)) by {
        broadcast use group_level;

        reveal_with_fuel(depth_after, 3);
    }
    nest_proceed(call + dot_await, is_result, true, at);
    nest_async_pjp_frame(join_point, proceed(call + dot_await, is_result, true, at), at);
}

#[verifier::rlimit(60)]
proof fn nest_async_outcome(is_result: bool, at: Span)
    ensures
        balanced(async_outcome(is_result, at)),
{
    broadcast use {lemma_level_add, lemma_level_spelled};

    reveal_with_fuel(depth_after, 34);
}

proof fn nest_impl_trait_error(at: Span)
    ensures
        balanced(impl_trait_error(at)),
{
    broadcast use {lemma_level_add, lemma_level_spelled};

    reveal_with_fuel(depth_after, 7);
}

proof fn nest_async_advice(
    expr: Seq<Tok>,
    captures: Seq<Tok>,
    join_point: Seq<Tok>,
    call: Seq<Tok>,
    is_result: bool,
    returns_impl_trait: bool,
    has_custom_async_around: bool,
    at: Span,
)
    requires
        balanced(expr),
        balanced(captures),
        balanced(join_point),
        balanced(call),
    ensures
        balanced(
            async_advice(
                expr,
                captures,
                join_point,
                call,
                is_result,
                returns_impl_trait,
                has_custom_async_around,
                at,
            ),
        ),
{
    broadcast use lemma_balanced_add;

    nest_lifecycle(expr, captures, join_point, call, is_result, true, at);
    nest_impl_trait_error(at);
    nest_imports(at);
    nest_take_result_fn(at);
    nest_let_aspect(expr, at);
    nest_let_async_pjp(join_point, call, is_result, at);
    nest_async_outcome(is_result, at);
}

proof fn nest_attrs(attrs: Seq<AttrView>, inner: bool)
    requires
        forall|i: int| 0 <= i < attrs.len() ==> balanced(#[trigger] attrs[i].tokens),
    ensures
        balanced(attr_toks(attrs, inner)),
    decreases attrs.len(),
{
    broadcast use group_level;

    if attrs.len() > 0 {
        assert(balanced(attrs[attrs.len() - 1].tokens));
        assert forall|i: int| 0 <= i < attrs.drop_last().len() implies balanced(
            #[trigger] attrs.drop_last()[i].tokens,
        ) by {
            assert(attrs.drop_last()[i] == attrs[i]);
        }
        nest_attrs(attrs.drop_last(), inner);
    }
}

proof fn nest_wrapper(
    item: FnItemView,
    asyncness: Seq<Tok>,
    name: Name,
    body: Seq<Tok>,
    at: Span,
)
    requires
        item_is_balanced(item),
        balanced(asyncness),
        balanced(body),
    ensures
        balanced(wrapper(item, asyncness, name, body, at)),
{
    broadcast use group_level;

    reveal_with_fuel(depth_after, 2);
    nest_attrs(item.attrs, false);
    nest_attrs(item.attrs, true);
    assert(balanced(qualifiers(item.sig)));
    assert(balanced(param_toks(item.sig, at)));
    assert(balanced(renamed_signature(item.sig, name, at)));
    assert(balanced(renamed_item(item, name, at)));
    assert(balanced(wrapper_signature(item, asyncness, at)));
}

proof fn nest_captured(item: FnItemView, send: bool, at: Span)
    ensures
        balanced(captures(param_names(item), at)),
        balanced(captured_join_point(item.sig.ident.text, param_names(item).len(), send, at)),
{
    broadcast use group_level;

    let names = param_names(item);
    nest_captures(names, at);
    let kept = singletons(capture_names(names.len(), at));
    assert forall|i: int| 0 <= i < kept.len() implies balanced(#[trigger] kept[i]) by {
        assert(kept[i] == seq![capture_name(i, at).tok()]);
    }
    nest_args_vec(kept, send, at);
    nest_join_point(send, true, item.sig.ident.text, args_vec(kept, send, at), at);
}

/// What is woven is well nested where its sources are: every group that weaving opens it also ends,
/// and none ends that is not open.
pub proof fn law_groups_are_balanced(aspect: AspectView, item: FnItemView, at: Span)
    requires
        balanced(aspect.aspect_expr),
        item_is_balanced(item),
    ensures
        balanced(aspect_wrapper(aspect, item, at)),
        balanced(async_aspect_wrapper(aspect, item, at)),
{
    broadcast use group_level;

    reveal_with_fuel(depth_after, 2);
    let expr = aspect.aspect_expr;
    let pats = typed_pats(item.sig.inputs);
    let receiver = takes_self(item.sig.inputs);
    let is_result = returns_result(item.sig.output);
    let fn_name = item.sig.ident.text;
    let names = param_names(item);
    let kept = captures(names, at);

    let name = hidden_name("__aspect_original_"@, item.sig.ident);
    nest_original_call(name, pats, receiver, at);
    if item.sig.asyncness is Some {
        nest_captured(item, false, at);
        let jp = captured_join_point(fn_name, names.len(), false, at);
        nest_lifecycle(expr, kept, jp, hidden_call(item, name, at), is_result, false, at);
        let body = lifecycle_body(aspect, item, name, at);
        nest_wrapper(item, part_toks(item.sig.asyncness), name, body, at);
    } else {
        assert forall|i: int| 0 <= i < each_call_arg(pats).len() implies balanced(
            #[trigger] each_call_arg(pats)[i],
        ) by {
            assert(balanced(pats[i].tokens));
            assert(each_call_arg(pats)[i] == call_arg(pats[i]));
        }
        nest_args_vec(each_call_arg(pats), false, at);
        let args = args_vec(each_call_arg(pats), false, at);
        nest_sync_around(expr, fn_name, args, hidden_call(item, name, at), is_result, at);
        let body = sync_body(aspect, item, name, at);
        nest_wrapper(item, part_toks(item.sig.asyncness), name, body, at);
    }

    let async_name = hidden_name("__async_aspect_original_"@, item.sig.ident);
    nest_original_call(async_name, pats, receiver, at);
    nest_captured(item, true, at);
    let jp = captured_join_point(fn_name, names.len(), true, at);
    nest_async_advice(
        expr,
        kept,
        jp,
        hidden_call(item, async_name, at),
        is_result,
        returns_impl_trait(item.sig.output),
        aspect.has_custom_async_around,
        at,
    );
    let body = async_body(aspect, item, async_name, at);
    nest_wrapper(item, spell(seq![Word("async")], at), async_name, body, at);
}

} // verus!
