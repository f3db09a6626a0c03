//! What holds of everything that weaving produces.

use crate::builder::{spell, Piece};
use crate::builder::Piece::{Alone, Close, Joint, Open, Word};
use crate::counting::{
    is_ident, is_refused, law_occurrences_of_the_aspect, lemma_advice_words, lemma_occurrences_add,
    lemma_occurrences_one, occurrences, one_if, sources_lack,
};
use crate::numerals::{digits, lemma_digits_injective};
use crate::syntax::{AspectView, FnItemView, Name, PatternShapeView, PatternView};
use crate::templates::{
    advice_end, advised_result, advised_value, after_advice, args_vec, aspect_wrapper, async_around,
    async_aspect_wrapper, async_body, async_outcome, before_advice, boxed, call_arg, call_args,
    capture_name, capture_names, captured_join_point, captures, dyn_any, each_call_arg,
    error_advice, hidden_call, hidden_name, impl_trait_error, imports, join_point, join_point_type,
    let_aspect, lifecycle, lifecycle_body, original_call, param_names, part_toks, proceed,
    renamed_item, returns_result, singletons, sync_around, sync_body, sync_outcome, take_result_fn,
    takes_self, typed_pats, wrapper, wrapper_signature,
};
use crate::tokens::Delim::{Brace, Paren};
use crate::tokens::Tok;
use proc_macro2::Span;
use vstd::prelude::*;

verus! {

/// The tokens `run` stand somewhere in `toks`, one right after the other.
pub open spec fn holds(toks: Seq<Tok>, run: Seq<Tok>) -> bool {
    exists|i: int|
        0 <= i && i + run.len() <= toks.len() && #[trigger] toks.subrange(i, i + run.len()) == run
}

pub(crate) broadcast proof fn lemma_holds_left(a: Seq<Tok>, b: Seq<Tok>, run: Seq<Tok>)
    requires
        holds(a, run),
    ensures
        #[trigger] holds(a + b, run),
{
    let i = choose|i: int|
        0 <= i && i + run.len() <= a.len() && #[trigger] a.subrange(i, i + run.len()) == run;
    assert((a + b).subrange(i, i + run.len()) =~= a.subrange(i, i + run.len()));
}

pub(crate) broadcast proof fn lemma_holds_right(a: Seq<Tok>, b: Seq<Tok>, run: Seq<Tok>)
    requires
        holds(b, run),
    ensures
        #[trigger] holds(a + b, run),
{
    let i = choose|i: int|
        0 <= i && i + run.len() <= b.len() && #[trigger] b.subrange(i, i + run.len()) == run;
    let j = a.len() + i;
    assert((a + b).subrange(j, j + run.len()) =~= b.subrange(i, i + run.len()));
}

pub(crate) broadcast group group_holds {
    lemma_holds_left,
    lemma_holds_right,
}

pub(crate) proof fn lemma_holds_itself(run: Seq<Tok>)
    ensures
        holds(run, run),
{
    assert(run.subrange(0, 0int + run.len()) =~= run);
}

/// The pieces from `i` on spell a part of what all of them spell.
proof fn lemma_spelled_part(pieces: Seq<Piece>, i: int, part: Seq<Piece>, at: Span)
    requires
        0 <= i,
        i + part.len() <= pieces.len(),
        pieces.subrange(i, i + part.len()) =~= part,
    ensures
        holds(spell(pieces, at), spell(part, at)),
{
    reveal(spell);
    let n = part.len();
    assert forall|j: int| 0 <= j < n implies part[j] == #[trigger] pieces[i + j] by {
        assert(pieces.subrange(i, i + n)[j] == pieces[i + j]);
    }
    assert(spell(pieces, at).subrange(i, i + spell(part, at).len()) =~= spell(part, at));
}

/// `__aspect.before(&JoinPoint`, or `__aspect.before(&AsyncJoinPoint` for asynchronous advice.
pub open spec fn before_call(send: bool, at: Span) -> Seq<Tok> {
    spell(seq![Word("__aspect"), Alone('.'), Word("before"), Open(Paren), Alone('&')], at)
        + join_point_type(send, at)
}

/// `__aspect.after(&__after_context`
pub open spec fn after_call(at: Span) -> Seq<Tok> {
    spell(
        seq![
            Word("__aspect"), Alone('.'), Word("after"), Open(Paren), Alone('&'),
            Word("__after_context"),
        ],
        at,
    )
}

/// `__aspect.after_error(&__error_context, &__aspect_err)`
pub open spec fn after_error_call(at: Span) -> Seq<Tok> {
    spell(
        seq![
            Word("__aspect"), Alone('.'), Word("after_error"), Open(Paren), Alone('&'),
            Word("__error_context"), Alone(','), Alone('&'), Word("__aspect_err"), Close,
        ],
        at,
    )
}

/// `__aspect.around(__pjp)`
pub open spec fn around_call(at: Span) -> Seq<Tok> {
    spell(
        seq![Word("__aspect"), Alone('.'), Word("around"), Open(Paren), Word("__pjp"), Close],
        at,
    )
}

/// `__aspect.around(__pjp).await`
pub open spec fn awaited_around_call(at: Span) -> Seq<Tok> {
    spell(
        seq![
            Word("__aspect"), Alone('.'), Word("around"), Open(Paren), Word("__pjp"), Close,
            Alone('.'), Word("await"),
        ],
        at,
    )
}

/// `ProceedingJoinPoint::new`
pub open spec fn new_pjp(at: Span) -> Seq<Tok> {
    spell(seq![Word("ProceedingJoinPoint"), Joint(':'), Alone(':'), Word("new")], at)
}

/// `AsyncProceedingJoinPoint::new`
pub open spec fn new_async_pjp(at: Span) -> Seq<Tok> {
    spell(seq![Word("AsyncProceedingJoinPoint"), Joint(':'), Alone(':'), Word("new")], at)
}

/// `Box<dyn Any + Send + Sync>`
pub open spec fn boxed_any_type(at: Span) -> Seq<Tok> {
    spell(seq![Word("Box"), Alone('<')], at) + dyn_any(true, at) + spell(seq![Alone('>')], at)
}

/// A call that is awaited: `CALL.await`
pub open spec fn awaited(call: Seq<Tok>, at: Span) -> Seq<Tok> {
    call + spell(seq![Alone('.'), Word("await")], at)
}

/// The body of a wrapper stands in it.
pub(crate) proof fn lemma_wrapper_holds(
    item: FnItemView,
    asyncness: Seq<Tok>,
    name: Name,
    body: Seq<Tok>,
    run: Seq<Tok>,
    at: Span,
)
    requires
        holds(body, run),
    ensures
        holds(wrapper(item, asyncness, name, body, at), run),
{
    broadcast use group_holds;

}

proof fn lemma_before_advice_holds(fn_name: Seq<char>, args: Seq<Tok>, send: bool, at: Span)
    ensures
        holds(
            before_advice(join_point(send, true, fn_name, args, at), send, at),
            before_call(send, at),
        ),
{
    broadcast use group_holds;

    reveal(spell);
    let jp = join_point(send, true, fn_name, args, at);
    let start = spell(
        seq![Word("__aspect"), Alone('.'), Word("before"), Open(Paren), Alone('&')],
        at,
    );
    assert((start + jp).subrange(0, 0int + before_call(send, at).len()) =~= before_call(send, at));
    assert(holds(start + jp, before_call(send, at)));
}

proof fn lemma_after_advice_holds(
    jp: Seq<Tok>,
    value: Seq<Tok>,
    send: bool,
    at: Span,
)
    ensures
        holds(after_advice(jp, value, send, at), after_call(at)),
{
    broadcast use group_holds;

    lemma_spelled_part(
        seq![
            Alone(';'), Word("__aspect"), Alone('.'), Word("after"), Open(Paren), Alone('&'),
            Word("__after_context"), Alone(','), Alone('&'),
        ],
        1,
        seq![
            Word("__aspect"), Alone('.'), Word("after"), Open(Paren), Alone('&'),
            Word("__after_context"),
        ],
        at,
    );
}

proof fn lemma_error_advice_holds(jp: Seq<Tok>, send: bool, at: Span)
    ensures
        holds(error_advice(jp, send, at), after_error_call(at)),
{
    broadcast use group_holds;

    lemma_spelled_part(
        seq![
            Alone(';'), Word("__aspect"), Alone('.'), Word("after_error"), Open(Paren), Alone('&'),
            Word("__error_context"), Alone(','), Alone('&'), Word("__aspect_err"), Close,
        ],
        1,
        seq![
            Word("__aspect"), Alone('.'), Word("after_error"), Open(Paren), Alone('&'),
            Word("__error_context"), Alone(','), Alone('&'), Word("__aspect_err"), Close,
        ],
        at,
    );
}

/// The calls of the advice before and after a call stand in the body that makes it.
pub open spec fn holds_advice(toks: Seq<Tok>, is_result: bool, send: bool, at: Span) -> bool {
    &&& holds(toks, before_call(send, at))
    &&& holds(toks, after_call(at))
    &&& is_result ==> holds(toks, after_error_call(at))
}

proof fn lemma_lifecycle_holds(
    expr: Seq<Tok>,
    captures: Seq<Tok>,
    fn_name: Seq<char>,
    args: Seq<Tok>,
    call: Seq<Tok>,
    is_result: bool,
    send: bool,
    at: Span,
)
    ensures
        holds_advice(
            lifecycle(
                expr,
                captures,
                join_point(send, true, fn_name, args, at),
                call,
                is_result,
                send,
                at,
            ),
            is_result,
            send,
            at,
        ),
{
    broadcast use group_holds;

    let jp = join_point(send, true, fn_name, args, at);
    lemma_before_advice_holds(fn_name, args, send, at);
    lemma_after_advice_holds(jp, spell(seq![Word("__value")], at), send, at);
    lemma_after_advice_holds(jp, spell(seq![Word("__result")], at), send, at);
    lemma_error_advice_holds(jp, send, at);
}

/// The advice is called by its names: an asynchronous function is advised with a `JoinPoint`, and
/// any function under an asynchronous aspect that has no `around` of its own, one that returns
/// `impl Trait` too, with an `AsyncJoinPoint`. A function that returns a `Result` is advised of its
/// error as well.
pub proof fn law_advice_before_and_after(aspect: AspectView, item: FnItemView, at: Span)
    ensures
        item.sig.asyncness is Some ==> holds_advice(
            aspect_wrapper(aspect, item, at),
            returns_result(item.sig.output),
            false,
            at,
        ),
        !aspect.has_custom_async_around ==> holds_advice(
            async_aspect_wrapper(aspect, item, at),
            returns_result(item.sig.output),
            true,
            at,
        ),
{
    let is_result = returns_result(item.sig.output);
    let names = param_names(item);
    let count = names.len();
    if item.sig.asyncness is Some {
        let name = hidden_name("__aspect_original_"@, item.sig.ident);
        let body = lifecycle_body(aspect, item, name, at);
        let args = args_vec(singletons(capture_names(count, at)), false, at);
        lemma_lifecycle_holds(
            aspect.aspect_expr,
            captures(names, at),
            item.sig.ident.text,
            args,
            hidden_call(item, name, at),
            is_result,
            false,
            at,
        );
        lemma_wrapper_holds_advice(
            item,
            part_toks(item.sig.asyncness),
            name,
            body,
            is_result,
            false,
            at,
        );
    }
    if !aspect.has_custom_async_around {
        let name = hidden_name("__async_aspect_original_"@, item.sig.ident);
        let body = async_body(aspect, item, name, at);
        let args = args_vec(singletons(capture_names(count, at)), true, at);
        lemma_lifecycle_holds(
            aspect.aspect_expr,
            captures(names, at),
            item.sig.ident.text,
            args,
            hidden_call(item, name, at),
            is_result,
            true,
            at,
        );
        lemma_wrapper_holds_advice(
            item,
            spell(seq![Word("async")], at),
            name,
            body,
            is_result,
            true,
            at,
        );
    }
}

proof fn lemma_wrapper_holds_advice(
    item: FnItemView,
    asyncness: Seq<Tok>,
    name: Name,
    body: Seq<Tok>,
    is_result: bool,
    send: bool,
    at: Span,
)
    requires
        holds_advice(body, is_result, send, at),
    ensures
        holds_advice(wrapper(item, asyncness, name, body, at), is_result, send, at),
{
    lemma_wrapper_holds(item, asyncness, name, body, before_call(send, at), at);
    lemma_wrapper_holds(item, asyncness, name, body, after_call(at), at);
    if is_result {
        lemma_wrapper_holds(item, asyncness, name, body, after_error_call(at), at);
    }
}

proof fn lemma_sync_around_holds(
    expr: Seq<Tok>,
    fn_name: Seq<char>,
    args: Seq<Tok>,
    call: Seq<Tok>,
    is_result: bool,
    at: Span,
)
    ensures
        holds(sync_around(expr, fn_name, args, call, is_result, at), new_pjp(at)),
        holds(sync_around(expr, fn_name, args, call, is_result, at), around_call(at)),
{
    broadcast use group_holds;

    lemma_spelled_part(
        seq![
            Alone(';'), Word("let"), Word("__pjp"), Alone('='), Word("ProceedingJoinPoint"),
            Joint(':'), Alone(':'), Word("new"), Open(Paren), Joint('|'), Alone('|'), Open(Brace),
        ],
        4,
        seq![Word("ProceedingJoinPoint"), Joint(':'), Alone(':'), Word("new")],
        at,
    );
    lemma_sync_outcome_holds(is_result, at);
}

proof fn lemma_sync_outcome_holds(is_result: bool, at: Span)
    ensures
        holds(sync_outcome(is_result, at), around_call(at)),
{
    reveal(spell);
    let run = around_call(at);
    assert(sync_outcome(is_result, at).subrange(1, 1int + run.len()) =~= run);
}

proof fn lemma_async_outcome_holds(is_result: bool, at: Span)
    ensures
        holds(async_outcome(is_result, at), awaited_around_call(at)),
{
    reveal(spell);
    let run = awaited_around_call(at);
    assert(async_outcome(is_result, at).subrange(1, 1int + run.len()) =~= run);
}

proof fn lemma_boxed_holds(value: Seq<Tok>, at: Span)
    ensures
        holds(boxed(value, true, at), boxed_any_type(at)),
{
    reveal(spell);
    let run = boxed_any_type(at);
    let i: int = 7int + value.len();
    assert(boxed(value, true, at).subrange(i, i + run.len()) =~= run);
}

proof fn lemma_async_around_holds(
    expr: Seq<Tok>,
    captures: Seq<Tok>,
    join_point: Seq<Tok>,
    call: Seq<Tok>,
    is_result: bool,
    at: Span,
)
    ensures
        ({
            let toks = async_around(expr, captures, join_point, call, is_result, at);
            &&& holds(toks, new_async_pjp(at))
            &&& holds(toks, awaited_around_call(at))
            &&& holds(toks, boxed_any_type(at))
        }),
{
    broadcast use group_holds;

    lemma_spelled_part(
        seq![
            Alone(';'), Word("let"), Word("__pjp"), Alone('='), Word("AsyncProceedingJoinPoint"),
            Joint(':'), Alone(':'), Word("new"), Open(Paren), Word("move"), Joint('|'), Alone('|'),
            Open(Brace), Word("Box"), Joint(':'), Alone(':'), Word("pin"), Open(Paren),
            Word("async"), Word("move"), Open(Brace),
        ],
        4,
        seq![Word("AsyncProceedingJoinPoint"), Joint(':'), Alone(':'), Word("new")],
        at,
    );
    lemma_async_outcome_holds(is_result, at);
    lemma_boxed_holds(spell(seq![Word("__val")], at), at);
    lemma_boxed_holds(spell(seq![Word("__result")], at), at);
}

/// A function that is not asynchronous goes through `around`, and so does any function under an
/// asynchronous aspect that has an `around` of its own. Values that cross threads are boxed so that
/// they can.
pub proof fn law_around(aspect: AspectView, item: FnItemView, at: Span)
    ensures
        item.sig.asyncness is None ==> {
            let toks = aspect_wrapper(aspect, item, at);
            &&& holds(toks, new_pjp(at))
            &&& holds(toks, around_call(at))
        },
        aspect.has_custom_async_around && !is_refused(aspect, item) ==> {
            let toks = async_aspect_wrapper(aspect, item, at);
            &&& holds(toks, new_async_pjp(at))
            &&& holds(toks, awaited_around_call(at))
            &&& holds(toks, boxed_any_type(at))
        },
{
    let is_result = returns_result(item.sig.output);
    if item.sig.asyncness is None {
        let name = hidden_name("__aspect_original_"@, item.sig.ident);
        let body = sync_body(aspect, item, name, at);
        let asyncness = part_toks(item.sig.asyncness);
        lemma_sync_around_holds(
            aspect.aspect_expr,
            item.sig.ident.text,
            args_vec(each_call_arg(typed_pats(item.sig.inputs)), false, at),
            hidden_call(item, name, at),
            is_result,
            at,
        );
        lemma_wrapper_holds(item, asyncness, name, body, new_pjp(at), at);
        lemma_wrapper_holds(item, asyncness, name, body, around_call(at), at);
    }
    if aspect.has_custom_async_around && !is_refused(aspect, item) {
        let name = hidden_name("__async_aspect_original_"@, item.sig.ident);
        let body = async_body(aspect, item, name, at);
        let asyncness = spell(seq![Word("async")], at);
        lemma_async_around_holds(
            aspect.aspect_expr,
            captures(param_names(item), at),
            captured_join_point(item.sig.ident.text, param_names(item).len(), true, at),
            hidden_call(item, name, at),
            is_result,
            at,
        );
        lemma_wrapper_holds(item, asyncness, name, body, new_async_pjp(at), at);
        lemma_wrapper_holds(item, asyncness, name, body, awaited_around_call(at), at);
        lemma_wrapper_holds(item, asyncness, name, body, boxed_any_type(at), at);
    }
}

/// An `around` of the aspect's own cannot be woven around a function that returns `impl Trait`: the
/// wrapper holds nothing but the function and the error for the compiler.
pub proof fn law_impl_trait_is_refused(aspect: AspectView, item: FnItemView, at: Span)
    requires
        is_refused(aspect, item),
    ensures
        async_aspect_wrapper(aspect, item, at) == wrapper(
            item,
            spell(seq![Word("async")], at),
            hidden_name("__async_aspect_original_"@, item.sig.ident),
            impl_trait_error(at),
            at,
        ),
        holds(async_aspect_wrapper(aspect, item, at), impl_trait_error(at)),
{
    let name = hidden_name("__async_aspect_original_"@, item.sig.ident);
    let body = async_body(aspect, item, name, at);
    lemma_holds_itself(body);
    lemma_wrapper_holds(item, spell(seq![Word("async")], at), name, body, body, at);
}

/// `toks` is made of three runs, in that order, and of what stands before, between and behind them.
pub open spec fn is_made_of(
    toks: Seq<Tok>,
    p: Seq<Tok>,
    a: Seq<Tok>,
    q: Seq<Tok>,
    b: Seq<Tok>,
    r: Seq<Tok>,
    c: Seq<Tok>,
    s: Seq<Tok>,
) -> bool {
    toks == p + a + q + b + r + c + s
}

/// The three runs stand in `toks` in that order.
pub open spec fn in_order(toks: Seq<Tok>, a: Seq<Tok>, b: Seq<Tok>, c: Seq<Tok>) -> bool {
    exists|p: Seq<Tok>, q: Seq<Tok>, r: Seq<Tok>, s: Seq<Tok>|
        #[trigger] is_made_of(toks, p, a, q, b, r, c, s)
}

proof fn lemma_in_order_within(
    before: Seq<Tok>,
    part: Seq<Tok>,
    after: Seq<Tok>,
    a: Seq<Tok>,
    b: Seq<Tok>,
    c: Seq<Tok>,
)
    requires
        in_order(part, a, b, c),
    ensures
        in_order(before + part + after, a, b, c),
{
    let (p, q, r, s) = choose|p: Seq<Tok>, q: Seq<Tok>, r: Seq<Tok>, s: Seq<Tok>|
        #[trigger] is_made_of(part, p, a, q, b, r, c, s);
    assert(before + part + after =~= (before + p) + a + q + b + r + c + (s + after));
    assert(is_made_of(before + part + after, before + p, a, q, b, r, c, s + after));
}

proof fn lemma_wrapper_keeps_order(
    item: FnItemView,
    asyncness: Seq<Tok>,
    name: Name,
    body: Seq<Tok>,
    a: Seq<Tok>,
    b: Seq<Tok>,
    c: Seq<Tok>,
    at: Span,
)
    requires
        in_order(body, a, b, c),
    ensures
        in_order(wrapper(item, asyncness, name, body, at), a, b, c),
{
    let open = spell(seq![Open(Brace)], at);
    let close = spell(seq![Close], at);
    let signature = wrapper_signature(item, asyncness, at);
    let hidden = renamed_item(item, name, at);
    if takes_self(item.sig.inputs) {
        lemma_in_order_within(hidden + signature + open, body, close, a, b, c);
    } else {
        lemma_in_order_within(signature + open + hidden, body, close, a, b, c);
    }
}

/// `.await` and what stands behind it.
proof fn lemma_await_first(pieces: Seq<Piece>, at: Span)
    requires
        pieces.len() >= 2,
        pieces[0] == Alone('.'),
        pieces[1] == Word("await"),
    ensures
        spell(pieces, at) == spell(seq![Alone('.'), Word("await")], at) + spell(pieces.skip(2), at),
{
    reveal(spell);
}

#[verifier::rlimit(60)]
proof fn lemma_lifecycle_order(
    expr: Seq<Tok>,
    captures: Seq<Tok>,
    jp: Seq<Tok>,
    call: Seq<Tok>,
    is_result: bool,
    send: bool,
    at: Span,
)
    ensures
        in_order(
            lifecycle(expr, captures, jp, call, is_result, send, at),
            before_advice(jp, send, at),
            awaited(call, at),
            after_advice(jp, outcome(is_result, at), send, at),
        ),
        is_result ==> in_order(
            lifecycle(expr, captures, jp, call, is_result, send, at),
            before_advice(jp, send, at),
            awaited(call, at),
            error_advice(jp, send, at),
        ),
{
    let toks = lifecycle(expr, captures, jp, call, is_result, send, at);
    let p = imports(at) + let_aspect(expr, at) + captures;
    let a = before_advice(jp, send, at);
    let b = awaited(call, at);
    let c = after_advice(jp, outcome(is_result, at), send, at);
    let e = error_advice(jp, send, at);
    if is_result {
        let q = spell(seq![Word("match")], at);
        let arm = seq![
            Alone('.'), Word("await"), Open(Brace), Word("Ok"), Open(Paren), Word("__value"), Close,
            Joint('='), Alone('>'), Open(Brace),
        ];
        let r = spell(arm.skip(2), at);
        lemma_await_first(arm, at);
        let t = spell(
            seq![
                Word("Ok"), Open(Paren), Word("__value"), Close, Close, Word("Err"), Open(Paren),
                Word("__err"), Close, Joint('='), Alone('>'), Open(Brace),
            ],
            at,
        );
        let u = spell(
            seq![Word("Err"), Open(Paren), Word("__err"), Close, Close, Close],
            at,
        );
        assert(toks =~= p + a + q + b + r + c + (t + e + u));
        assert(is_made_of(toks, p, a, q, b, r, c, t + e + u));
        assert(toks =~= p + a + q + b + (r + c + t) + e + u);
        assert(is_made_of(toks, p, a, q, b, r + c + t, e, u));
    } else {
        let q = spell(seq![Word("let"), Word("__result"), Alone('=')], at);
        let end = seq![Alone('.'), Word("await"), Alone(';')];
        let r = spell(end.skip(2), at);
        lemma_await_first(end, at);
        let u = spell(seq![Word("__result")], at);
        assert(toks =~= p + a + q + b + r + c + u);
        assert(is_made_of(toks, p, a, q, b, r, c, u));
    }
}

/// The variable that holds the value when `after` is called.
pub open spec fn outcome(is_result: bool, at: Span) -> Seq<Tok> {
    if is_result {
        spell(seq![Word("__value")], at)
    } else {
        spell(seq![Word("__result")], at)
    }
}

/// The advice keeps its order: `before`, then the function is called and awaited, then `after` with
/// its value or, for a `Result`, `after_error`. All of them see the same join point.
pub open spec fn advises_in_order(
    toks: Seq<Tok>,
    jp: Seq<Tok>,
    call: Seq<Tok>,
    is_result: bool,
    send: bool,
    at: Span,
) -> bool {
    &&& in_order(
        toks,
        before_advice(jp, send, at),
        awaited(call, at),
        after_advice(jp, outcome(is_result, at), send, at),
    )
    &&& is_result ==> in_order(
        toks,
        before_advice(jp, send, at),
        awaited(call, at),
        error_advice(jp, send, at),
    )
}

proof fn lemma_wrapper_advises_in_order(
    item: FnItemView,
    asyncness: Seq<Tok>,
    name: Name,
    body: Seq<Tok>,
    jp: Seq<Tok>,
    is_result: bool,
    send: bool,
    at: Span,
)
    requires
        advises_in_order(body, jp, hidden_call(item, name, at), is_result, send, at),
    ensures
        advises_in_order(
            wrapper(item, asyncness, name, body, at),
            jp,
            hidden_call(item, name, at),
            is_result,
            send,
            at,
        ),
{
    let a = before_advice(jp, send, at);
    let b = awaited(hidden_call(item, name, at), at);
    let c = after_advice(jp, outcome(is_result, at), send, at);
    lemma_wrapper_keeps_order(item, asyncness, name, body, a, b, c, at);
    if is_result {
        let e = error_advice(jp, send, at);
        lemma_wrapper_keeps_order(item, asyncness, name, body, a, b, e, at);
    }
}

/// Wherever a function is advised before and after the call, `before` comes first, then the
/// function behind the wrapper is called and awaited, and then comes `after` or `after_error`, all
/// with a join point that has the same name, place and arguments.
pub proof fn law_advice_keeps_its_order(aspect: AspectView, item: FnItemView, at: Span)
    ensures
        item.sig.asyncness is Some ==> advises_in_order(
            aspect_wrapper(aspect, item, at),
            captured_join_point(item.sig.ident.text, param_names(item).len(), false, at),
            hidden_call(item, hidden_name("__aspect_original_"@, item.sig.ident), at),
            returns_result(item.sig.output),
            false,
            at,
        ),
        !aspect.has_custom_async_around ==> advises_in_order(
            async_aspect_wrapper(aspect, item, at),
            captured_join_point(item.sig.ident.text, param_names(item).len(), true, at),
            hidden_call(item, hidden_name("__async_aspect_original_"@, item.sig.ident), at),
            returns_result(item.sig.output),
            true,
            at,
        ),
{
    let is_result = returns_result(item.sig.output);
    let names = param_names(item);
    let expr = aspect.aspect_expr;
    if item.sig.asyncness is Some {
        let name = hidden_name("__aspect_original_"@, item.sig.ident);
        let jp = captured_join_point(item.sig.ident.text, names.len(), false, at);
        let call = hidden_call(item, name, at);
        let body = lifecycle_body(aspect, item, name, at);
        let asyncness = part_toks(item.sig.asyncness);
        lemma_lifecycle_order(expr, captures(names, at), jp, call, is_result, false, at);
        lemma_wrapper_advises_in_order(item, asyncness, name, body, jp, is_result, false, at);
    }
    if !aspect.has_custom_async_around {
        let name = hidden_name("__async_aspect_original_"@, item.sig.ident);
        let jp = captured_join_point(item.sig.ident.text, names.len(), true, at);
        let call = hidden_call(item, name, at);
        let body = async_body(aspect, item, name, at);
        let asyncness = spell(seq![Word("async")], at);
        lemma_lifecycle_order(expr, captures(names, at), jp, call, is_result, true, at);
        lemma_wrapper_advises_in_order(item, asyncness, name, body, jp, is_result, true, at);
    }
}

/// `Self::NAME(self`, with which a method behind its wrapper is called, or `NAME(` for a function
/// that has no `self`.
pub open spec fn call_start(item: FnItemView, name: Name, at: Span) -> Seq<Tok> {
    if takes_self(item.sig.inputs) {
        spell(seq![Word("Self"), Joint(':'), Alone(':')], at) + seq![name.tok()] + spell(
            seq![Open(Paren), Word("self")],
            at,
        )
    } else {
        seq![name.tok()] + spell(seq![Open(Paren)], at)
    }
}

/// The call of the function behind the wrapper has no other shape than this: its start, the
/// arguments, and a closing parenthesis.
proof fn lemma_call_shape(item: FnItemView, name: Name, at: Span)
    ensures
        hidden_call(item, name, at) == call_start(item, name, at) + call_args(
            typed_pats(item.sig.inputs),
            takes_self(item.sig.inputs),
            at,
        ) + spell(seq![Close], at),
{
}

proof fn lemma_proceed_holds(call: Seq<Tok>, is_result: bool, send: bool, at: Span)
    ensures
        holds(proceed(call, is_result, send, at), call),
{
    broadcast use group_holds;

    lemma_holds_itself(call);
}

/// The function behind the wrapper is called with its own parameters, through `Self` and with
/// `self` first if it is a method and by its bare name if it is not, and the call is awaited where
/// the function is asynchronous.
pub proof fn law_wrapper_calls_the_function(aspect: AspectView, item: FnItemView, at: Span)
    ensures
        ({
            let name = hidden_name("__aspect_original_"@, item.sig.ident);
            let call = call_start(item, name, at) + call_args(
                typed_pats(item.sig.inputs),
                takes_self(item.sig.inputs),
                at,
            ) + spell(seq![Close], at);
            if item.sig.asyncness is Some {
                holds(aspect_wrapper(aspect, item, at), awaited(call, at))
            } else {
                holds(aspect_wrapper(aspect, item, at), call)
            }
        }),
        !is_refused(aspect, item) ==> {
            let name = hidden_name("__async_aspect_original_"@, item.sig.ident);
            let call = call_start(item, name, at) + call_args(
                typed_pats(item.sig.inputs),
                takes_self(item.sig.inputs),
                at,
            ) + spell(seq![Close], at);
            holds(async_aspect_wrapper(aspect, item, at), awaited(call, at))
        },
{
    let name = hidden_name("__aspect_original_"@, item.sig.ident);
    let call = hidden_call(item, name, at);
    lemma_call_shape(item, name, at);
    law_advice_keeps_its_order(aspect, item, at);
    if item.sig.asyncness is Some {
        let jp = captured_join_point(item.sig.ident.text, param_names(item).len(), false, at);
        let value = outcome(returns_result(item.sig.output), at);
        lemma_in_order_holds(
            aspect_wrapper(aspect, item, at),
            before_advice(jp, false, at),
            awaited(call, at),
            after_advice(jp, value, false, at),
        );
    } else {
        let body = sync_body(aspect, item, name, at);
        assert(holds(body, call)) by {
            broadcast use group_holds;

            lemma_proceed_holds(call, returns_result(item.sig.output), false, at);
        }
        lemma_wrapper_holds(item, part_toks(item.sig.asyncness), name, body, call, at);
    }
    let async_name = hidden_name("__async_aspect_original_"@, item.sig.ident);
    let async_call = hidden_call(item, async_name, at);
    lemma_call_shape(item, async_name, at);
    if !aspect.has_custom_async_around {
        let jp = captured_join_point(item.sig.ident.text, param_names(item).len(), true, at);
        let value = outcome(returns_result(item.sig.output), at);
        lemma_in_order_holds(
            async_aspect_wrapper(aspect, item, at),
            before_advice(jp, true, at),
            awaited(async_call, at),
            after_advice(jp, value, true, at),
        );
    } else if !is_refused(aspect, item) {
        let body = async_body(aspect, item, async_name, at);
        let run = awaited(async_call, at);
        assert(holds(body, run)) by {
            broadcast use group_holds;

            lemma_proceed_holds(run, returns_result(item.sig.output), true, at);
        }
        lemma_wrapper_holds(item, spell(seq![Word("async")], at), async_name, body, run, at);
    }
}

proof fn lemma_in_order_holds(toks: Seq<Tok>, a: Seq<Tok>, b: Seq<Tok>, c: Seq<Tok>)
    requires
        in_order(toks, a, b, c),
    ensures
        holds(toks, a),
        holds(toks, b),
        holds(toks, c),
{
    broadcast use group_holds;

    let (p, q, r, s) = choose|p: Seq<Tok>, q: Seq<Tok>, r: Seq<Tok>, s: Seq<Tok>|
        #[trigger] is_made_of(toks, p, a, q, b, r, c, s);
    lemma_holds_itself(a);
    lemma_holds_itself(b);
    lemma_holds_itself(c);
}

/// Two parameters hand on the same argument: they are the same pattern, or both bind the same
/// variable, whatever `mut` or `ref` stands before it.
pub open spec fn binds_alike(a: PatternView, b: PatternView) -> bool {
    a == b || (a.shape == b.shape && a.shape matches PatternShapeView::Ident(_, false))
}

/// How a variable is bound reaches neither the call nor the join point: functions whose parameters
/// bind the same variables are called with the same arguments, and show the same arguments.
pub proof fn law_binding_mode_does_not_reach_the_call(
    a: Seq<PatternView>,
    b: Seq<PatternView>,
    name: Name,
    has_receiver: bool,
    at: Span,
)
    requires
        a.len() == b.len(),
        forall|i: int| 0 <= i < a.len() ==> #[trigger] binds_alike(a[i], b[i]),
    ensures
        original_call(name, a, has_receiver, at) == original_call(name, b, has_receiver, at),
        args_vec(each_call_arg(a), false, at) == args_vec(each_call_arg(b), false, at),
{
    lemma_call_args_alike(a, b, has_receiver, at);
    assert forall|i: int| 0 <= i < a.len() implies call_arg(a[i]) == call_arg(b[i]) by {
        assert(binds_alike(a[i], b[i]));
    }
    assert(each_call_arg(a) =~= each_call_arg(b));
}

proof fn lemma_call_args_alike(
    a: Seq<PatternView>,
    b: Seq<PatternView>,
    follows: bool,
    at: Span,
)
    requires
        a.len() == b.len(),
        forall|i: int| 0 <= i < a.len() ==> #[trigger] binds_alike(a[i], b[i]),
    ensures
        call_args(a, follows, at) == call_args(b, follows, at),
    decreases a.len(),
{
    if a.len() > 0 {
        let last = a.len() - 1;
        assert(binds_alike(a[last], b[last]));
        assert(call_arg(a[last]) == call_arg(b[last]));
        assert forall|i: int| 0 <= i < last implies #[trigger] binds_alike(
            a.drop_last()[i],
            b.drop_last()[i],
        ) by {
            assert(binds_alike(a[i], b[i]));
        }
        lemma_call_args_alike(a.drop_last(), b.drop_last(), follows, at);
    }
}

/// The name behind a wrapper differs from the function's own, the two kinds of wrapper use
/// different names, and different functions have different names behind their wrappers. None of
/// these names is a variable that keeps an argument.
pub proof fn law_hidden_names_are_distinct(f: Name, g: Name, i: int, at: Span)
    requires
        i >= 0,
    ensures
        hidden_name("__aspect_original_"@, f).text != f.text,
        hidden_name("__async_aspect_original_"@, f).text != f.text,
        hidden_name("__aspect_original_"@, f).text != hidden_name(
            "__async_aspect_original_"@,
            g,
        ).text,
        f.text != g.text ==> hidden_name("__aspect_original_"@, f).text != hidden_name(
            "__aspect_original_"@,
            g,
        ).text,
        f.text != g.text ==> hidden_name("__async_aspect_original_"@, f).text != hidden_name(
            "__async_aspect_original_"@,
            g,
        ).text,
        capture_name(i, at).text != hidden_name("__aspect_original_"@, f).text,
        capture_name(i, at).text != hidden_name("__async_aspect_original_"@, f).text,
{
    reveal_strlit("__aspect_original_");
    reveal_strlit("__async_aspect_original_");
    reveal_strlit("__aspect_arg_");
    let a = "__aspect_original_"@;
    let b = "__async_aspect_original_"@;
    assert(a.len() == 18 && a[4] == 'p' && a[9] == 'o');
    assert(b.len() == 24 && b[4] == 'y');
    assert((a + f.text)[4] == 'p');
    assert((a + f.text)[9] == 'o');
    assert((b + f.text)[4] == 'y');
    assert((b + g.text)[4] == 'y');
    assert((a + f.text).skip(18) =~= f.text);
    assert((a + g.text).skip(18) =~= g.text);
    assert((b + f.text).skip(24) =~= f.text);
    assert((b + g.text).skip(24) =~= g.text);
    assert(capture_name(i, at).text[4] == 'p');
    assert(capture_name(i, at).text[9] == 'a');
}

/// Each argument is kept in a variable of its own.
pub proof fn law_kept_arguments_have_their_own_variables(count: nat, i: int, j: int, at: Span)
    requires
        0 <= i < j < count,
    ensures
        capture_names(count, at)[i].text != capture_names(count, at)[j].text,
{
    let prefix = "__aspect_arg_"@;
    assert((prefix + digits(i as nat)).skip(prefix.len() as int) =~= digits(i as nat));
    assert((prefix + digits(j as nat)).skip(prefix.len() as int) =~= digits(j as nat));
    if digits(i as nat) == digits(j as nat) {
        lemma_digits_injective(i as nat, j as nat);
    }
}

/// The function behind the wrapper stands beside it for a method, where `Self` finds it, and is the
/// first item in its body for any other function, where the bare name finds it. Either way the
/// wrapper has the visibility, name, generics, parameters, return type and bounds of the function.
pub proof fn law_placement_of_the_function(
    item: FnItemView,
    asyncness: Seq<Tok>,
    name: Name,
    body: Seq<Tok>,
    at: Span,
)
    ensures
        holds(wrapper(item, asyncness, name, body, at), wrapper_signature(item, asyncness, at)),
        takes_self(item.sig.inputs) ==> renamed_item(item, name, at).is_prefix_of(
            wrapper(item, asyncness, name, body, at),
        ),
        !takes_self(item.sig.inputs) ==> (wrapper_signature(item, asyncness, at) + spell(
            seq![Open(Brace)],
            at,
        ) + renamed_item(item, name, at)).is_prefix_of(wrapper(item, asyncness, name, body, at)),
{
    broadcast use group_holds;

    lemma_holds_itself(wrapper_signature(item, asyncness, at));
    let toks = wrapper(item, asyncness, name, body, at);
    let hidden = renamed_item(item, name, at);
    if takes_self(item.sig.inputs) {
        assert(toks.take(hidden.len() as int) =~= hidden);
    } else {
        let start = wrapper_signature(item, asyncness, at) + spell(seq![Open(Brace)], at) + hidden;
        assert(toks.take(start.len() as int) =~= start);
    }
}

/// Where one run stands in the first of two parts and another in the second, both stand behind what
/// stands before the parts.
proof fn lemma_order_of_parts(
    p: Seq<Tok>,
    a: Seq<Tok>,
    q: Seq<Tok>,
    b: Seq<Tok>,
    r: Seq<Tok>,
    t: Seq<Tok>,
    c: Seq<Tok>,
    s: Seq<Tok>,
)
    ensures
        in_order(p + a + (q + b + r) + (t + c + s), a, b, c),
{
    let toks = p + a + (q + b + r) + (t + c + s);
    assert(toks =~= p + a + q + b + (r + t) + c + s);
    assert(is_made_of(toks, p, a, q, b, r + t, c, s));
}

/// What stands before and behind the awaited call in a body that advises a function which returns a
/// `Result`.
proof fn lemma_advised_result_awaits(call: Seq<Tok>, jp: Seq<Tok>, send: bool, at: Span) -> (s: Seq<
    Tok,
>)
    ensures
        advised_result(call, jp, send, at) == spell(seq![Word("match")], at) + awaited(call, at)
            + s,
{
    let arm = seq![
        Alone('.'), Word("await"), Open(Brace), Word("Ok"), Open(Paren), Word("__value"), Close,
        Joint('='), Alone('>'), Open(Brace),
    ];
    lemma_await_first(arm, at);
    let s = spell(arm.skip(2), at) + after_advice(jp, outcome(true, at), send, at) + spell(
        seq![
            Word("Ok"), Open(Paren), Word("__value"), Close, Close, Word("Err"), Open(Paren),
            Word("__err"), Close, Joint('='), Alone('>'), Open(Brace),
        ],
        at,
    ) + error_advice(jp, send, at) + spell(
        seq![Word("Err"), Open(Paren), Word("__err"), Close, Close, Close],
        at,
    );
    assert(advised_result(call, jp, send, at) =~= spell(seq![Word("match")], at) + awaited(call, at)
        + s);
    s
}

/// The same for a function that returns anything else.
proof fn lemma_advised_value_awaits(call: Seq<Tok>, jp: Seq<Tok>, send: bool, at: Span) -> (s: Seq<
    Tok,
>)
    ensures
        advised_value(call, jp, send, at) == spell(
            seq![Word("let"), Word("__result"), Alone('=')],
            at,
        ) + awaited(call, at) + s,
{
    let end = seq![Alone('.'), Word("await"), Alone(';')];
    lemma_await_first(end, at);
    let s = spell(end.skip(2), at) + after_advice(jp, outcome(false, at), send, at) + outcome(
        false,
        at,
    );
    assert(advised_value(call, jp, send, at) =~= spell(
        seq![Word("let"), Word("__result"), Alone('=')],
        at,
    ) + awaited(call, at) + s);
    s
}

proof fn lemma_lifecycle_keeps_arguments(
    expr: Seq<Tok>,
    kept: Seq<Tok>,
    jp: Seq<Tok>,
    call: Seq<Tok>,
    is_result: bool,
    send: bool,
    at: Span,
)
    ensures
        in_order(
            lifecycle(expr, kept, jp, call, is_result, send, at),
            kept,
            jp,
            awaited(call, at),
        ),
{
    let p = imports(at) + let_aspect(expr, at);
    let q = spell(
        seq![Word("__aspect"), Alone('.'), Word("before"), Open(Paren), Alone('&')],
        at,
    );
    let r = spell(seq![Close], at) + advice_end(send, at);
    assert(before_advice(jp, send, at) =~= q + jp + r);
    if is_result {
        let t = spell(seq![Word("match")], at);
        let s = lemma_advised_result_awaits(call, jp, send, at);
        lemma_order_of_parts(p, kept, q, jp, r, t, awaited(call, at), s);
    } else {
        let t = spell(seq![Word("let"), Word("__result"), Alone('=')], at);
        let s = lemma_advised_value_awaits(call, jp, send, at);
        lemma_order_of_parts(p, kept, q, jp, r, t, awaited(call, at), s);
    }
}

proof fn lemma_async_around_keeps_arguments(
    expr: Seq<Tok>,
    kept: Seq<Tok>,
    jp: Seq<Tok>,
    call: Seq<Tok>,
    is_result: bool,
    at: Span,
)
    ensures
        in_order(
            async_around(expr, kept, jp, call, is_result, at),
            kept,
            jp,
            awaited(call, at),
        ),
{
    let toks = async_around(expr, kept, jp, call, is_result, at);
    let p = (if is_result {
        imports(at)
    } else {
        imports(at) + take_result_fn(at)
    }) + let_aspect(expr, at);
    let q = spell(seq![Word("let"), Word("__context"), Alone('=')], at);
    let start = spell(
        seq![
            Alone(';'), Word("let"), Word("__pjp"), Alone('='), Word("AsyncProceedingJoinPoint"),
            Joint(':'), Alone(':'), Word("new"), Open(Paren), Word("move"), Joint('|'), Alone('|'),
            Open(Brace), Word("Box"), Joint(':'), Alone(':'), Word("pin"), Open(Paren),
            Word("async"), Word("move"), Open(Brace),
        ],
        at,
    );
    let b = awaited(call, at);
    let whole = proceed(b, is_result, true, at);
    let first = if is_result {
        spell(seq![Word("match")], at)
    } else {
        spell(seq![Word("let"), Word("__result"), Alone('=')], at)
    };
    let rest = whole.skip((first.len() + b.len()) as int);
    assert(whole =~= first + b + rest);
    let s = rest + spell(
        seq![
            Close, Close, Close, Alone(','), Word("__context"), Alone(','), Close, Alone(';'),
        ],
        at,
    ) + async_outcome(is_result, at);
    assert(toks =~= p + kept + q + jp + (start + first) + b + s);
    assert(is_made_of(toks, p, kept, q, jp, start + first, b, s));
}

/// The arguments of an asynchronous call are kept, and the join point that shows them is made,
/// before the function is called with them.
pub proof fn law_arguments_are_kept_before_the_call(aspect: AspectView, item: FnItemView, at: Span)
    ensures
        item.sig.asyncness is Some ==> in_order(
            aspect_wrapper(aspect, item, at),
            captures(param_names(item), at),
            captured_join_point(item.sig.ident.text, param_names(item).len(), false, at),
            awaited(
                hidden_call(item, hidden_name("__aspect_original_"@, item.sig.ident), at),
                at,
            ),
        ),
        !is_refused(aspect, item) ==> in_order(
            async_aspect_wrapper(aspect, item, at),
            captures(param_names(item), at),
            captured_join_point(item.sig.ident.text, param_names(item).len(), true, at),
            awaited(
                hidden_call(item, hidden_name("__async_aspect_original_"@, item.sig.ident), at),
                at,
            ),
        ),
{
    let is_result = returns_result(item.sig.output);
    let expr = aspect.aspect_expr;
    let kept = captures(param_names(item), at);
    if item.sig.asyncness is Some {
        let name = hidden_name("__aspect_original_"@, item.sig.ident);
        let jp = captured_join_point(item.sig.ident.text, param_names(item).len(), false, at);
        let call = hidden_call(item, name, at);
        let body = lifecycle_body(aspect, item, name, at);
        let asyncness = part_toks(item.sig.asyncness);
        lemma_lifecycle_keeps_arguments(expr, kept, jp, call, is_result, false, at);
        lemma_wrapper_keeps_order(item, asyncness, name, body, kept, jp, awaited(call, at), at);
    }
    if !is_refused(aspect, item) {
        let name = hidden_name("__async_aspect_original_"@, item.sig.ident);
        let jp = captured_join_point(item.sig.ident.text, param_names(item).len(), true, at);
        let call = hidden_call(item, name, at);
        let body = async_body(aspect, item, name, at);
        let asyncness = spell(seq![Word("async")], at);
        if aspect.has_custom_async_around {
            lemma_async_around_keeps_arguments(expr, kept, jp, call, is_result, at);
        } else {
            lemma_lifecycle_keeps_arguments(expr, kept, jp, call, is_result, true, at);
        }
        lemma_wrapper_keeps_order(item, asyncness, name, body, kept, jp, awaited(call, at), at);
    }
}

/// The tokens begin with a call of a method of the aspect: `__aspect.METHOD(`
pub open spec fn is_call(toks: Seq<Tok>, method: Seq<char>) -> bool {
    &&& toks.len() >= 4
    &&& is_ident(toks[0], "__aspect"@)
    &&& toks[1] matches Tok::Punct(c, _, _) && c == '.'
    &&& is_ident(toks[2], method)
    &&& toks[3] matches Tok::Open(delim, _) && delim == Paren
}

/// At how many places a method of the aspect is called.
pub open spec fn calls(toks: Seq<Tok>, method: Seq<char>) -> nat
    decreases toks.len(),
{
    if toks.len() == 0 {
        0
    } else {
        one_if(is_call(toks, method)) + calls(toks.drop_first(), method)
    }
}

/// The tokens begin with the variable that has the aspect being bound: `__aspect =`
spec fn is_binding(toks: Seq<Tok>) -> bool {
    &&& toks.len() >= 2
    &&& is_ident(toks[0], "__aspect"@)
    &&& toks[1] matches Tok::Punct(c, _, _) && c == '='
}

spec fn bindings(toks: Seq<Tok>) -> nat
    decreases toks.len(),
{
    if toks.len() == 0 {
        0
    } else {
        one_if(is_binding(toks)) + bindings(toks.drop_first())
    }
}

proof fn lemma_calls_add(a: Seq<Tok>, b: Seq<Tok>, method: Seq<char>)
    ensures
        calls(a + b, method) >= calls(a, method) + calls(b, method),
        bindings(a + b) >= bindings(a) + bindings(b),
    decreases a.len(),
{
    if a.len() == 0 {
        assert(a + b =~= b);
    } else {
        assert((a + b).drop_first() =~= a.drop_first() + b);
        lemma_calls_add(a.drop_first(), b, method);
    }
}

proof fn lemma_calls_of_run(toks: Seq<Tok>, run: Seq<Tok>, method: Seq<char>)
    requires
        holds(toks, run),
    ensures
        calls(toks, method) >= calls(run, method),
        bindings(toks) >= bindings(run),
{
    let i = choose|i: int|
        0 <= i && i + run.len() <= toks.len() && #[trigger] toks.subrange(i, i + run.len()) == run;
    let before = toks.take(i);
    let after = toks.skip(i + run.len());
    assert(toks =~= before + run + after);
    lemma_calls_add(before + run, after, method);
    lemma_calls_add(before, run, method);
}

/// Each place where the aspect is bound or one of its methods is called takes an occurrence of the
/// variable that has it.
proof fn lemma_calls_are_occurrences(
    toks: Seq<Tok>,
    a: Seq<char>,
    b: Seq<char>,
    c: Seq<char>,
    d: Seq<char>,
)
    requires
        a != b && a != c && a != d && b != c && b != d && c != d,
    ensures
        bindings(toks) + calls(toks, a) + calls(toks, b) + calls(toks, c) + calls(toks, d)
            <= occurrences(toks, "__aspect"@),
    decreases toks.len(),
{
    if toks.len() > 0 {
        lemma_calls_are_occurrences(toks.drop_first(), a, b, c, d);
        assert(toks =~= seq![toks[0]] + toks.drop_first());
        lemma_occurrences_add(seq![toks[0]], toks.drop_first(), "__aspect"@);
        lemma_occurrences_one(toks[0], "__aspect"@);
    }
}

/// A method of the aspect is called at one place, which is in the run `advice`.
pub open spec fn is_called_once(toks: Seq<Tok>, method: Seq<char>, advice: Seq<Tok>) -> bool {
    &&& calls(toks, method) == 1
    &&& calls(advice, method) == 1
    &&& holds(toks, advice)
}

/// `before` and `after` are called once, as the advice on the given join point, `after_error` once
/// for a `Result`, and no other method of the aspect is called.
pub open spec fn advises_once(
    toks: Seq<Tok>,
    jp: Seq<Tok>,
    is_result: bool,
    send: bool,
    at: Span,
) -> bool {
    &&& is_called_once(toks, "before"@, before_advice(jp, send, at))
    &&& is_called_once(toks, "after"@, after_advice(jp, outcome(is_result, at), send, at))
    &&& is_result ==> is_called_once(toks, "after_error"@, error_advice(jp, send, at))
    &&& forall|method: Seq<char>|
        method != "before"@ && method != "after"@ && !(is_result && method == "after_error"@)
            ==> #[trigger] calls(toks, method) == 0
}

/// `around` is called once, as `call`, and no other method of the aspect is called.
pub open spec fn goes_around_once(toks: Seq<Tok>, call: Seq<Tok>) -> bool {
    &&& is_called_once(toks, "around"@, call)
    &&& forall|method: Seq<char>| method != "around"@ ==> #[trigger] calls(toks, method) == 0
}

/// Where the variable that has the aspect stands no more often than it is bound and the advice is
/// called, nothing else is called.
proof fn lemma_no_other_call(toks: Seq<Tok>, is_result: bool, method: Seq<char>)
    requires
        bindings(toks) >= 1,
        calls(toks, "before"@) >= 1,
        calls(toks, "after"@) >= 1,
        is_result ==> calls(toks, "after_error"@) >= 1,
        occurrences(toks, "__aspect"@) == (if is_result {
            4nat
        } else {
            3nat
        }),
    ensures
        calls(toks, "before"@) == 1,
        calls(toks, "after"@) == 1,
        is_result ==> calls(toks, "after_error"@) == 1,
        method != "before"@ && method != "after"@ && !(is_result && method == "after_error"@)
            ==> calls(toks, method) == 0,
{
    lemma_advice_words();
    lemma_calls_are_occurrences(toks, "before"@, "after"@, "after_error"@, "around"@);
    if method != "before"@ && method != "after"@ && method != "after_error"@ {
        lemma_calls_are_occurrences(toks, "before"@, "after"@, "after_error"@, method);
    }
}

proof fn lemma_first_calls(at: Span, send: bool)
    ensures
        calls(before_call(send, at), "before"@) >= 1,
        calls(after_call(at), "after"@) >= 1,
        calls(after_error_call(at), "after_error"@) >= 1,
        calls(around_call(at), "around"@) >= 1,
        calls(awaited_around_call(at), "around"@) >= 1,
        bindings(spell(seq![Word("__aspect"), Alone('=')], at)) >= 1,
{
    reveal(spell);
    assert(is_call(before_call(send, at), "before"@));
    assert(is_call(after_call(at), "after"@));
    assert(is_call(after_error_call(at), "after_error"@));
    assert(is_call(around_call(at), "around"@));
    assert(is_call(awaited_around_call(at), "around"@));
    assert(is_binding(spell(seq![Word("__aspect"), Alone('=')], at)));
}

/// The variable that has the aspect is bound in every wrapper that is not refused.
proof fn lemma_wrapper_binds(aspect: AspectView, item: FnItemView, at: Span)
    ensures
        bindings(aspect_wrapper(aspect, item, at)) >= 1,
        !is_refused(aspect, item) ==> bindings(async_aspect_wrapper(aspect, item, at)) >= 1,
{
    let run = spell(seq![Word("__aspect"), Alone('=')], at);
    lemma_first_calls(at, false);
    lemma_spelled_part(
        seq![Word("let"), Word("__aspect"), Alone('=')],
        1,
        seq![Word("__aspect"), Alone('=')],
        at,
    );
    assert(holds(let_aspect(aspect.aspect_expr, at), run)) by {
        broadcast use group_holds;

    }
    let name = hidden_name("__aspect_original_"@, item.sig.ident);
    let asyncness = part_toks(item.sig.asyncness);
    let body = if item.sig.asyncness is Some {
        lifecycle_body(aspect, item, name, at)
    } else {
        sync_body(aspect, item, name, at)
    };
    assert(holds(body, run)) by {
        broadcast use group_holds;

    }
    lemma_wrapper_holds(item, asyncness, name, body, run, at);
    lemma_calls_of_run(aspect_wrapper(aspect, item, at), run, "around"@);
    if !is_refused(aspect, item) {
        let name = hidden_name("__async_aspect_original_"@, item.sig.ident);
        let body = async_body(aspect, item, name, at);
        assert(holds(body, run)) by {
            broadcast use group_holds;

        }
        lemma_wrapper_holds(item, spell(seq![Word("async")], at), name, body, run, at);
        lemma_calls_of_run(async_aspect_wrapper(aspect, item, at), run, "around"@);
    }
}

proof fn lemma_advises_once(
    toks: Seq<Tok>,
    fn_name: Seq<char>,
    count: nat,
    call: Seq<Tok>,
    is_result: bool,
    send: bool,
    at: Span,
)
    requires
        bindings(toks) >= 1,
        advises_in_order(
            toks,
            captured_join_point(fn_name, count, send, at),
            call,
            is_result,
            send,
            at,
        ),
        occurrences(toks, "__aspect"@) == (if is_result {
            4nat
        } else {
            3nat
        }),
    ensures
        advises_once(toks, captured_join_point(fn_name, count, send, at), is_result, send, at),
{
    let args = args_vec(singletons(capture_names(count, at)), send, at);
    let jp = captured_join_point(fn_name, count, send, at);
    let before = before_advice(jp, send, at);
    let after = after_advice(jp, outcome(is_result, at), send, at);
    let error = error_advice(jp, send, at);
    lemma_first_calls(at, send);
    lemma_before_advice_holds(fn_name, args, send, at);
    lemma_after_advice_holds(jp, outcome(is_result, at), send, at);
    lemma_error_advice_holds(jp, send, at);
    lemma_calls_of_run(before, before_call(send, at), "before"@);
    lemma_calls_of_run(after, after_call(at), "after"@);
    lemma_calls_of_run(error, after_error_call(at), "after_error"@);
    lemma_in_order_holds(toks, before, awaited(call, at), after);
    lemma_calls_of_run(toks, before, "before"@);
    lemma_calls_of_run(toks, after, "after"@);
    if is_result {
        lemma_in_order_holds(toks, before, awaited(call, at), error);
        lemma_calls_of_run(toks, error, "after_error"@);
    }
    lemma_no_other_call(toks, is_result, "around"@);
    assert forall|method: Seq<char>|
        method != "before"@ && method != "after"@ && !(is_result && method
            == "after_error"@) implies #[trigger] calls(toks, method) == 0 by {
        lemma_no_other_call(toks, is_result, method);
    }
}

proof fn lemma_goes_around_once(toks: Seq<Tok>, call: Seq<Tok>)
    requires
        bindings(toks) >= 1,
        holds(toks, call),
        calls(call, "around"@) >= 1,
        occurrences(toks, "__aspect"@) == 2,
    ensures
        goes_around_once(toks, call),
{
    lemma_advice_words();
    lemma_calls_of_run(toks, call, "around"@);
    assert forall|method: Seq<char>| method != "around"@ implies #[trigger] calls(toks, method)
        == 0 by {
        if method == "before"@ || method == "after"@ || method == "after_error"@ {
            lemma_calls_are_occurrences(toks, "around"@, "before"@, "after"@, "after_error"@);
        } else {
            lemma_calls_are_occurrences(toks, "around"@, "before"@, "after"@, method);
        }
    }
    lemma_calls_are_occurrences(toks, "around"@, "before"@, "after"@, "after_error"@);
}

/// Advice is never duplicated. Where neither the function nor the aspect uses the variable that has
/// the aspect: an asynchronous function, and one under an asynchronous aspect that has no `around`
/// of its own, has `before` and `after` called once each, and `after_error` once if it returns a
/// `Result`; any other has `around` called once. No other method of the aspect is called, and none
/// at all where the compiler reports an error instead. Every call of an asynchronous aspect is
/// awaited.
pub proof fn law_advice_is_never_duplicated(aspect: AspectView, item: FnItemView, at: Span)
    requires
        sources_lack(aspect, item, "__aspect"@),
    ensures
        item.sig.asyncness is Some ==> advises_once(
            aspect_wrapper(aspect, item, at),
            captured_join_point(item.sig.ident.text, param_names(item).len(), false, at),
            returns_result(item.sig.output),
            false,
            at,
        ),
        item.sig.asyncness is None ==> goes_around_once(
            aspect_wrapper(aspect, item, at),
            around_call(at),
        ),
        !aspect.has_custom_async_around ==> advises_once(
            async_aspect_wrapper(aspect, item, at),
            captured_join_point(item.sig.ident.text, param_names(item).len(), true, at),
            returns_result(item.sig.output),
            true,
            at,
        ),
        aspect.has_custom_async_around && !is_refused(aspect, item) ==> goes_around_once(
            async_aspect_wrapper(aspect, item, at),
            awaited_around_call(at),
        ),
        is_refused(aspect, item) ==> forall|method: Seq<char>| #[trigger]
            calls(async_aspect_wrapper(aspect, item, at), method) == 0,
{
    law_occurrences_of_the_aspect(aspect, item, at);
    law_advice_keeps_its_order(aspect, item, at);
    law_around(aspect, item, at);
    lemma_wrapper_binds(aspect, item, at);
    lemma_first_calls(at, false);
    let is_result = returns_result(item.sig.output);
    let count = param_names(item).len();
    let toks = aspect_wrapper(aspect, item, at);
    if item.sig.asyncness is Some {
        let name = hidden_name("__aspect_original_"@, item.sig.ident);
        let call = hidden_call(item, name, at);
        lemma_advises_once(toks, item.sig.ident.text, count, call, is_result, false, at);
    } else {
        lemma_goes_around_once(toks, around_call(at));
    }
    let toks = async_aspect_wrapper(aspect, item, at);
    if !aspect.has_custom_async_around {
        let name = hidden_name("__async_aspect_original_"@, item.sig.ident);
        let call = hidden_call(item, name, at);
        lemma_advises_once(toks, item.sig.ident.text, count, call, is_result, true, at);
    } else if !is_refused(aspect, item) {
        lemma_goes_around_once(toks, awaited_around_call(at));
    } else {
        lemma_advice_words();
        assert forall|method: Seq<char>| #[trigger] calls(toks, method) == 0 by {
            if method == "before"@ || method == "after"@ || method == "after_error"@ {
                lemma_calls_are_occurrences(toks, "before"@, "after"@, "after_error"@, "around"@);
            } else {
                lemma_calls_are_occurrences(toks, "before"@, "after"@, "after_error"@, method);
            }
        }
    }
}

} // verus!
