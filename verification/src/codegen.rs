//! Weaving an aspect into a function.
//!
//! Each function writes the tokens that `templates` states: `put_imports` those of `imports`,
//! `generate_original_call` those of `original_call`, and so on.

use crate::builder::{depth_after, spell, wrote, Builder};
use crate::builder::Piece::{Alone, Close, Joint, Open, Quoted, Word};
use crate::numerals::{decimal, digits, lemma_digits_are_word_chars};
use crate::syntax::{
    attr_views, name_of, names_of, pat_view, pat_views, AspectInfo, Attr, FnItem, FnSig, Param,
    Pattern, PatternShape, PatternView, ReturnType, Ty, TyShape,
};
use crate::templates::{
    advice_end, advised_result, advised_value, after_advice, all_bound_names, any_ref, args_vec,
    aspect_wrapper, async_advice, async_around, async_aspect_wrapper, async_outcome, attr_toks,
    before_advice, bound_names, boxed, boxed_clone, boxed_clones, call_arg, call_args, capture_name,
    capture_names, captured_join_point, captures, dyn_any, each_call_arg, error_advice,
    execution_error, hidden_name, impl_trait_error, imports, join_point, join_point_type,
    let_aspect, let_async_pjp, lifecycle, line_of_call, names_result, original_call, output_toks,
    param_names, param_toks, proceed, proceed_with_result, proceed_with_value, qualifiers,
    renamed_item, renamed_signature, returns_impl_trait, returns_result, singletons, sync_around,
    sync_outcome, take_result_fn, takes_self, typed_pats, wrapper, wrapper_signature,
};
use crate::tokens::{
    copy_ident, copy_stream, empty_stream, ident_is, ident_text, is_call_site, is_plain, is_word,
    new_ident, place_of_call, span_of, stream_toks, text_of, Tok,
};
use crate::tokens::Delim::{Brace, Bracket, Paren};
use crate::vocabulary::lemma_words;
use proc_macro2::{Ident, Span, TokenStream};
use vstd::prelude::*;
use vstd::string::*;

verus! {

/// A stream of one word.
fn word(text: &'static str, at: Span) -> (stream: TokenStream)
    requires
        is_word(text@),
    ensures
        stream_toks(stream) == spell(seq![Word(text)], at),
{
    let mut out = Builder::new();
    out.piece(Word(text), at);
    assert(out@ =~= spell(seq![Word(text)], at));
    out.finish()
}

fn put_imports(out: &mut Builder, at: Span)
    requires
        old(out).wf(),
    ensures
        wrote(*old(out), *final(out), imports(at)),
{
    proof {
        lemma_words();
        reveal_with_fuel(depth_after, 23);
    }
    out.pieces(
        &[
            Word("use"), Joint(':'), Alone(':'), Word("aspect_core"), Joint(':'), Alone(':'),
            Word("prelude"), Joint(':'), Alone(':'), Alone('*'), Alone(';'), Word("use"),
            Joint(':'), Alone(':'), Word("std"), Joint(':'), Alone(':'), Word("any"), Joint(':'),
            Alone(':'), Word("Any"), Alone(';'),
        ],
        at,
    );
}

fn put_let_aspect(out: &mut Builder, expr: &TokenStream, at: Span)
    requires
        old(out).wf(),
    ensures
        wrote(*old(out), *final(out), let_aspect(stream_toks(*expr), at)),
{
    proof {
        lemma_words();
        reveal_with_fuel(depth_after, 4);
    }
    out.pieces(&[Word("let"), Word("__aspect"), Alone('=')], at);
    out.stream(expr);
    out.piece(Alone(';'), at);
}

fn put_dyn_any(out: &mut Builder, send: bool, at: Span)
    requires
        old(out).wf(),
    ensures
        wrote(*old(out), *final(out), dyn_any(send, at)),
{
    proof {
        lemma_words();
        reveal_with_fuel(depth_after, 7);
    }
    if send {
        out.pieces(
            &[
                Word("dyn"), Word("Any"), Alone('+'), Word("Send"), Alone('+'), Word("Sync"),
            ],
            at,
        );
    } else {
        out.pieces(&[Word("dyn"), Word("Any")], at);
    }
}

fn put_boxed(out: &mut Builder, value: &TokenStream, send: bool, at: Span)
    requires
        old(out).wf(),
    ensures
        wrote(*old(out), *final(out), boxed(stream_toks(*value), send, at)),
{
    proof {
        lemma_words();
        reveal_with_fuel(depth_after, 6);
    }
    out.pieces(&[Word("Box"), Joint(':'), Alone(':'), Word("new"), Open(Paren)], at);
    out.stream(value);
    out.pieces(&[Close, Word("as"), Word("Box"), Alone('<')], at);
    put_dyn_any(out, send, at);
    out.piece(Alone('>'), at);
}

fn put_boxed_clone(out: &mut Builder, arg: &TokenStream, send: bool, at: Span)
    requires
        old(out).wf(),
    ensures
        wrote(*old(out), *final(out), boxed_clone(stream_toks(*arg), send, at)),
{
    let value = clone_of(arg, at);
    put_boxed(out, &value, send, at);
}

/// `ARG.clone()`
fn clone_of(arg: &TokenStream, at: Span) -> (stream: TokenStream)
    ensures
        stream_toks(stream) == stream_toks(*arg) + spell(
            seq![Alone('.'), Word("clone"), Open(Paren), Close],
            at,
        ),
{
    let mut out = Builder::new();
    proof {
        lemma_words();
        reveal_with_fuel(depth_after, 5);
    }
    out.stream(arg);
    out.pieces(&[Alone('.'), Word("clone"), Open(Paren), Close], at);
    assert(out@ =~= stream_toks(*arg) + spell(
        seq![Alone('.'), Word("clone"), Open(Paren), Close],
        at,
    ));
    out.finish()
}

/// Clones of the arguments in a vector, each boxed.
fn boxed_args(args: &Vec<TokenStream>, send: bool, at: Span) -> (stream: TokenStream)
    ensures
        stream_toks(stream) == args_vec(streams_toks(args@), send, at),
{
    let mut out = Builder::new();
    let ghost all = streams_toks(args@);
    proof {
        lemma_words();
        reveal_with_fuel(depth_after, 4);
    }
    out.pieces(&[Word("vec"), Alone('!'), Open(Bracket)], at);
    let ghost opened = out;
    assert(opened@ =~= opened@ + boxed_clones(all.take(0), send, at));
    let mut i: usize = 0;
    while i < args.len()
        invariant
            i <= args@.len(),
            all == streams_toks(args@),
            opened.wf(),
            wrote(opened, out, boxed_clones(all.take(i as int), send, at)),
        decreases args@.len() - i,
    {
        proof {
            lemma_words();
            reveal_with_fuel(depth_after, 4);
            assert(all.take(i + 1).drop_last() =~= all.take(i as int));
        }
        if i > 0 {
            out.piece(Alone(','), at);
        }
        put_boxed_clone(&mut out, &args[i], send, at);
        i = i + 1;
    }
    assert(all.take(i as int) =~= all);
    proof {
        lemma_words();
        reveal_with_fuel(depth_after, 4);
    }
    out.piece(Close, at);
    assert(out@ =~= args_vec(all, send, at));
    out.finish()
}

/// The tokens of streams, in their order.
pub open spec fn streams_toks(streams: Seq<TokenStream>) -> Seq<Seq<Tok>> {
    Seq::new(streams.len(), |i: int| stream_toks(streams[i]))
}

/// What patterns hold, in their order.
pub open spec fn ref_views(pats: Seq<&Pattern>) -> Seq<PatternView> {
    Seq::new(pats.len(), |i: int| pats[i]@)
}

/// The arguments of a call that is not asynchronous, for its join point: clones of what hands the
/// parameters on.
pub fn generate_sync_args(param_names: &Vec<&Pattern>, at: Span) -> (tokens: TokenStream)
    ensures
        stream_toks(tokens) == args_vec(each_call_arg(ref_views(param_names@)), false, at),
{
    let mut args: Vec<TokenStream> = Vec::new();
    let mut i: usize = 0;
    while i < param_names.len()
        invariant
            i <= param_names@.len(),
            args@.len() == i,
            forall|j: int|
                0 <= j < i ==> stream_toks(#[trigger] args@[j]) == call_arg(param_names@[j]@),
        decreases param_names@.len() - i,
    {
        args.push(pat_to_call_arg(param_names[i]));
        i = i + 1;
    }
    assert(streams_toks(args@) =~= each_call_arg(ref_views(param_names@)));
    boxed_args(&args, false, at)
}

/// Clones of variables in a vector, each boxed.
fn boxed_idents(idents: &Vec<Ident>, send: bool, at: Span) -> (tokens: TokenStream)
    ensures
        stream_toks(tokens) == args_vec(singletons(names_of(idents@)), send, at),
{
    let mut args: Vec<TokenStream> = Vec::new();
    let mut i: usize = 0;
    while i < idents.len()
        invariant
            i <= idents@.len(),
            args@.len() == i,
            forall|j: int|
                0 <= j < i ==> stream_toks(#[trigger] args@[j]) == seq![name_of(idents@[j]).tok()],
        decreases idents@.len() - i,
    {
        let mut arg = Builder::new();
        arg.ident(&idents[i]);
        assert(arg@ =~= seq![name_of(idents@[i as int]).tok()]);
        args.push(arg.finish());
        i = i + 1;
    }
    assert(streams_toks(args@) =~= singletons(names_of(idents@)));
    boxed_args(&args, send, at)
}

/// The variable that keeps the argument at `index`.
fn capture_ident(index: usize, at: Span) -> (ident: Ident)
    ensures
        name_of(ident) == capture_name(index as int, at),
{
    let mut text = String::new();
    text.append("__aspect_arg_");
    text.append(decimal(index).as_str());
    proof {
        lemma_words();
        lemma_digits_are_word_chars(index as nat);
        assert(text@ =~= "__aspect_arg_"@ + digits(index as nat));
    }
    new_ident(text.as_str(), at)
}

/// Variables that keep the arguments of an asynchronous call, and the statements that fill them.
pub fn generate_async_arg_captures(debug_arg_idents: &Vec<Ident>, at: Span) -> (r: (
    Vec<Ident>,
    TokenStream,
))
    ensures
        names_of(r.0@) == capture_names(debug_arg_idents@.len(), at),
        stream_toks(r.1) == captures(names_of(debug_arg_idents@), at),
{
    let mut capture_idents: Vec<Ident> = Vec::new();
    let mut out = Builder::new();
    let ghost all = names_of(debug_arg_idents@);
    let mut i: usize = 0;
    while i < debug_arg_idents.len()
        invariant
            i <= debug_arg_idents@.len(),
            all == names_of(debug_arg_idents@),
            capture_idents@.len() == i,
            forall|j: int|
                0 <= j < i ==> name_of(#[trigger] capture_idents@[j]) == capture_name(j, at),
            out.wf(),
            out.depth() == 0,
            out@ == captures(all.take(i as int), at),
        decreases debug_arg_idents@.len() - i,
    {
        proof {
            lemma_words();
            reveal_with_fuel(depth_after, 6);
            assert(all.take(i + 1).drop_last() =~= all.take(i as int));
        }
        let capture = capture_ident(i, at);
        out.piece(Word("let"), at);
        out.ident(&capture);
        out.piece(Alone('='), at);
        out.ident(&debug_arg_idents[i]);
        out.pieces(&[Alone('.'), Word("clone"), Open(Paren), Close, Alone(';')], at);
        capture_idents.push(capture);
        i = i + 1;
        assert(out@ =~= captures(all.take(i as int), at));
    }
    assert(all.take(i as int) =~= all);
    assert(names_of(capture_idents@) =~= capture_names(debug_arg_idents@.len(), at));
    (capture_idents, out.finish())
}

/// The arguments of an asynchronous call, for its join point.
pub fn generate_async_args(capture_idents: &Vec<Ident>, at: Span) -> (tokens: TokenStream)
    ensures
        stream_toks(tokens) == args_vec(singletons(names_of(capture_idents@)), false, at),
{
    boxed_idents(capture_idents, false, at)
}

/// The arguments of an asynchronous call, for a join point that crosses threads.
pub fn generate_async_send_args(capture_idents: &Vec<Ident>, at: Span) -> (tokens: TokenStream)
    ensures
        stream_toks(tokens) == args_vec(singletons(names_of(capture_idents@)), true, at),
{
    boxed_idents(capture_idents, true, at)
}

/// Whether a function takes `self`.
pub fn has_receiver(func: &FnItem) -> (has: bool)
    ensures
        has == takes_self(func@.sig.inputs),
{
    let mut i: usize = 0;
    while i < func.sig.inputs.len()
        invariant
            i <= func.sig.inputs@.len(),
            forall|j: int| 0 <= j < i ==> !(#[trigger] func@.sig.inputs[j] is Receiver),
        decreases func.sig.inputs@.len() - i,
    {
        assert(func@.sig.inputs[i as int] == func.sig.inputs@[i as int]@);
        if let Param::Receiver = &func.sig.inputs[i] {
            return true;
        }
        i = i + 1;
    }
    false
}

/// The argument that hands a parameter on to the function behind the wrapper.
///
/// `mut item` and `ref item` bind a name but are no expressions, so of a binding only the name is
/// handed on. A pattern such as `Query(params)` is an expression too, and is handed on as it is.
pub fn pat_to_call_arg(pat: &Pattern) -> (tokens: TokenStream)
    ensures
        stream_toks(tokens) == call_arg(pat@),
{
    match &pat.shape {
        PatternShape::Ident(ident, false) => {
            let mut out = Builder::new();
            out.ident(ident);
            assert(out@ =~= seq![name_of(*ident).tok()]);
            out.finish()
        },
        _ => copy_stream(&pat.tokens),
    }
}

fn put_call_args(out: &mut Builder, param_names: &Vec<&Pattern>, follows: bool, at: Span)
    requires
        old(out).wf(),
    ensures
        wrote(*old(out), *final(out), call_args(ref_views(param_names@), follows, at)),
{
    let ghost all = ref_views(param_names@);
    let mut i: usize = 0;
    assert(out@ =~= out@ + call_args(all.take(0), follows, at));
    while i < param_names.len()
        invariant
            i <= param_names@.len(),
            all == ref_views(param_names@),
            wrote(*old(out), *out, call_args(all.take(i as int), follows, at)),
        decreases param_names@.len() - i,
    {
        proof {
            assert(all.take(i + 1).drop_last() =~= all.take(i as int));
        }
        if i > 0 || follows {
            out.piece(Alone(','), at);
        }
        let arg = pat_to_call_arg(param_names[i]);
        out.stream(&arg);
        i = i + 1;
    }
    assert(all.take(i as int) =~= all);
}

/// The call of the function behind the wrapper.
pub fn generate_original_call(
    original_fn_name: &Ident,
    param_names: &Vec<&Pattern>,
    has_receiver: bool,
    at: Span,
) -> (tokens: TokenStream)
    ensures
        stream_toks(tokens) == original_call(
            name_of(*original_fn_name),
            ref_views(param_names@),
            has_receiver,
            at,
        ),
{
    let mut out = Builder::new();
    proof {
        lemma_words();
        reveal_with_fuel(depth_after, 4);
    }
    if has_receiver {
        out.pieces(&[Word("Self"), Joint(':'), Alone(':')], at);
        out.ident(original_fn_name);
        out.pieces(&[Open(Paren), Word("self")], at);
        put_call_args(&mut out, param_names, true, at);
        out.piece(Close, at);
    } else {
        out.ident(original_fn_name);
        out.piece(Open(Paren), at);
        put_call_args(&mut out, param_names, false, at);
        out.piece(Close, at);
    }
    assert(out@ =~= original_call(
        name_of(*original_fn_name),
        ref_views(param_names@),
        has_receiver,
        at,
    ));
    out.finish()
}

fn put_line_of_call(out: &mut Builder, qualified: bool, at: Span)
    requires
        old(out).wf(),
    ensures
        wrote(*old(out), *final(out), line_of_call(qualified, at)),
{
    proof {
        lemma_words();
        reveal_with_fuel(depth_after, 10);
    }
    if qualified {
        out.pieces(
            &[
                Joint(':'), Alone(':'), Word("core"), Joint(':'), Alone(':'), Word("line"),
                Alone('!'), Open(Paren), Close,
            ],
            at,
        );
    } else {
        out.pieces(&[Word("line"), Alone('!'), Open(Paren), Close], at);
    }
}

fn put_join_point_type(out: &mut Builder, send: bool, at: Span)
    requires
        old(out).wf(),
    ensures
        wrote(*old(out), *final(out), join_point_type(send, at)),
{
    proof {
        lemma_words();
    }
    if send {
        out.piece(Word("AsyncJoinPoint"), at);
    } else {
        out.piece(Word("JoinPoint"), at);
    }
}

/// The join point of a call.
fn generate_join_point(
    send: bool,
    qualified: bool,
    fn_name: &str,
    args: &TokenStream,
    at: Span,
) -> (tokens: TokenStream)
    ensures
        stream_toks(tokens) == join_point(send, qualified, fn_name@, stream_toks(*args), at),
{
    let mut out = Builder::new();
    proof {
        lemma_words();
        reveal_with_fuel(depth_after, 22);
    }
    put_join_point_type(&mut out, send, at);
    out.pieces(&[Open(Brace), Word("function_name"), Alone(':')], at);
    out.text(fn_name, at);
    out.pieces(
        &[
            Alone(','), Word("module_path"), Alone(':'), Word("module_path"), Alone('!'),
            Open(Paren), Close, Alone(','), Word("location"), Alone(':'), Word("Location"),
            Open(Brace), Word("file"), Alone(':'), Word("file"), Alone('!'), Open(Paren), Close,
            Alone(','), Word("line"), Alone(':'),
        ],
        at,
    );
    put_line_of_call(&mut out, qualified, at);
    out.pieces(&[Alone(','), Close, Alone(','), Word("args"), Alone(':')], at);
    out.stream(args);
    out.pieces(&[Alone(','), Close], at);
    assert(out@ =~= join_point(send, qualified, fn_name@, stream_toks(*args), at));
    out.finish()
}

fn put_execution_error(out: &mut Builder, at: Span)
    requires
        old(out).wf(),
    ensures
        wrote(*old(out), *final(out), execution_error(at)),
{
    proof {
        lemma_words();
        reveal_with_fuel(depth_after, 14);
    }
    out.pieces(
        &[
            Word("AspectError"), Joint(':'), Alone(':'), Word("execution"), Open(Paren),
            Word("format"), Alone('!'), Open(Paren), Quoted("{:?}"), Alone(','), Word("__err"),
            Close, Close,
        ],
        at,
    );
}

fn put_proceed_with_result(out: &mut Builder, call: &TokenStream, send: bool, at: Span)
    requires
        old(out).wf(),
    ensures
        wrote(*old(out), *final(out), proceed_with_result(stream_toks(*call), send, at)),
{
    proof {
        lemma_words();
        reveal_with_fuel(depth_after, 11);
    }
    let value = word("__val", at);
    out.piece(Word("match"), at);
    out.stream(call);
    out.pieces(
        &[
            Open(Brace), Word("Ok"), Open(Paren), Word("__val"), Close, Joint('='), Alone('>'),
            Word("Ok"), Open(Paren),
        ],
        at,
    );
    put_boxed(out, &value, send, at);
    out.pieces(
        &[
            Close, Alone(','), Word("Err"), Open(Paren), Word("__err"), Close, Joint('='),
            Alone('>'), Word("Err"), Open(Paren),
        ],
        at,
    );
    put_execution_error(out, at);
    out.pieces(&[Close, Alone(','), Close], at);
}

fn put_proceed_with_value(out: &mut Builder, call: &TokenStream, send: bool, at: Span)
    requires
        old(out).wf(),
    ensures
        wrote(*old(out), *final(out), proceed_with_value(stream_toks(*call), send, at)),
{
    proof {
        lemma_words();
        reveal_with_fuel(depth_after, 4);
    }
    let value = word("__result", at);
    out.pieces(&[Word("let"), Word("__result"), Alone('=')], at);
    out.stream(call);
    out.pieces(&[Alone(';'), Word("Ok"), Open(Paren)], at);
    put_boxed(out, &value, send, at);
    out.piece(Close, at);
}

fn put_proceed(out: &mut Builder, call: &TokenStream, is_result: bool, send: bool, at: Span)
    requires
        old(out).wf(),
    ensures
        wrote(*old(out), *final(out), proceed(stream_toks(*call), is_result, send, at)),
{
    if is_result {
        put_proceed_with_result(out, call, send, at);
    } else {
        put_proceed_with_value(out, call, send, at);
    }
}

#[verifier::rlimit(60)]
fn put_sync_outcome(out: &mut Builder, is_result: bool, at: Span)
    requires
        old(out).wf(),
    ensures
        wrote(*old(out), *final(out), sync_outcome(is_result, at)),
{
    proof {
        lemma_words();
        reveal_with_fuel(depth_after, 33);
    }
    if is_result {
        out.pieces(
            &[
                Word("match"), Word("__aspect"), Alone('.'), Word("around"), Open(Paren),
                Word("__pjp"), Close, Open(Brace),
            ],
            at,
        );
        out.pieces(
            &[
                Word("Ok"), Open(Paren), Word("__boxed_result"), Close, Joint('='), Alone('>'),
                Open(Brace), Word("let"), Word("__inner"), Alone('='), Alone('*'),
                Word("__boxed_result"), Alone('.'), Word("downcast"), Joint(':'), Alone(':'),
                Alone('<'), Word("_"), Alone('>'), Open(Paren), Close, Alone('.'), Word("expect"),
                Open(Paren), Quoted("aspect around() returned wrong type"), Close, Alone(';'),
                Word("Ok"), Open(Paren), Word("__inner"), Close, Close,
            ],
            at,
        );
        out.pieces(
            &[
                Word("Err"), Open(Paren), Word("__err"), Close, Joint('='), Alone('>'), Open(Brace),
                Word("Err"), Open(Paren), Word("format"), Alone('!'), Open(Paren), Quoted("{:?}"),
                Alone(','), Word("__err"), Close, Alone('.'), Word("into"), Open(Paren), Close,
                Close, Close, Close,
            ],
            at,
        );
    } else {
        out.pieces(
            &[
                Word("match"), Word("__aspect"), Alone('.'), Word("around"), Open(Paren),
                Word("__pjp"), Close, Open(Brace),
            ],
            at,
        );
        out.pieces(
            &[
                Word("Ok"), Open(Paren), Word("__boxed_result"), Close, Joint('='), Alone('>'),
                Open(Brace), Alone('*'), Word("__boxed_result"), Alone('.'), Word("downcast"),
                Joint(':'), Alone(':'), Alone('<'), Word("_"), Alone('>'), Open(Paren), Close,
                Alone('.'), Word("expect"), Open(Paren),
                Quoted("aspect around() returned wrong type"), Close, Close,
            ],
            at,
        );
        out.pieces(
            &[
                Word("Err"), Open(Paren), Word("__err"), Close, Joint('='), Alone('>'), Open(Brace),
                Word("panic"), Alone('!'), Open(Paren), Quoted("aspect around() failed: {:?}"),
                Alone(','), Word("__err"), Close, Alone(';'), Close, Close,
            ],
            at,
        );
    }
}

/// The body of a wrapper around a function that is not asynchronous.
pub fn generate_sync_around_call(
    aspect_expr: &TokenStream,
    original_fn_name: &Ident,
    fn_name: &Ident,
    param_names: &Vec<&Pattern>,
    is_result: bool,
    has_receiver: bool,
    at: Span,
) -> (tokens: TokenStream)
    ensures
        stream_toks(tokens) == sync_around(
            stream_toks(*aspect_expr),
            ident_text(*fn_name),
            args_vec(each_call_arg(ref_views(param_names@)), false, at),
            original_call(
                name_of(*original_fn_name),
                ref_views(param_names@),
                has_receiver,
                at,
            ),
            is_result,
            at,
        ),
{
    let fn_name_str = text_of(fn_name);
    let args_expr = generate_sync_args(param_names, at);
    let original_call = generate_original_call(original_fn_name, param_names, has_receiver, at);
    let mut out = Builder::new();
    proof {
        lemma_words();
        reveal_with_fuel(depth_after, 13);
    }
    let args_var = word("__args", at);
    let context = generate_join_point(false, false, fn_name_str.as_str(), &args_var, at);
    put_imports(&mut out, at);
    put_let_aspect(&mut out, aspect_expr, at);
    out.pieces(&[Word("let"), Word("__args"), Alone('=')], at);
    out.stream(&args_expr);
    out.pieces(&[Alone(';'), Word("let"), Word("__context"), Alone('=')], at);
    out.stream(&context);
    out.pieces(
        &[
            Alone(';'), Word("let"), Word("__pjp"), Alone('='), Word("ProceedingJoinPoint"),
            Joint(':'), Alone(':'), Word("new"), Open(Paren), Joint('|'), Alone('|'), Open(Brace),
        ],
        at,
    );
    put_proceed(&mut out, &original_call, is_result, false, at);
    out.pieces(&[Close, Alone(','), Word("__context"), Alone(','), Close, Alone(';')], at);
    put_sync_outcome(&mut out, is_result, at);
    assert(out@ =~= sync_around(
        stream_toks(*aspect_expr),
        fn_name_str@,
        stream_toks(args_expr),
        stream_toks(original_call),
        is_result,
        at,
    ));
    out.finish()
}

fn put_advice_end(out: &mut Builder, send: bool, at: Span)
    requires
        old(out).wf(),
    ensures
        wrote(*old(out), *final(out), advice_end(send, at)),
{
    proof {
        lemma_words();
        reveal_with_fuel(depth_after, 4);
    }
    if send {
        out.pieces(&[Alone('.'), Word("await"), Alone(';')], at);
    } else {
        out.piece(Alone(';'), at);
    }
}

fn put_any_ref(out: &mut Builder, send: bool, at: Span)
    requires
        old(out).wf(),
    ensures
        wrote(*old(out), *final(out), any_ref(send, at)),
{
    proof {
        lemma_words();
        reveal_with_fuel(depth_after, 10);
    }
    if send {
        out.pieces(
            &[
                Alone('&'), Open(Paren), Word("dyn"), Word("Any"), Alone('+'), Word("Send"),
                Alone('+'), Word("Sync"), Close,
            ],
            at,
        );
    } else {
        out.pieces(&[Alone('&'), Word("dyn"), Word("Any")], at);
    }
}

fn put_before_advice(out: &mut Builder, join_point: &TokenStream, send: bool, at: Span)
    requires
        old(out).wf(),
    ensures
        wrote(*old(out), *final(out), before_advice(stream_toks(*join_point), send, at)),
{
    proof {
        lemma_words();
        reveal_with_fuel(depth_after, 6);
    }
    out.pieces(&[Word("__aspect"), Alone('.'), Word("before"), Open(Paren), Alone('&')], at);
    out.stream(join_point);
    out.piece(Close, at);
    put_advice_end(out, send, at);
}

fn put_after_advice(
    out: &mut Builder,
    join_point: &TokenStream,
    value: &'static str,
    send: bool,
    at: Span,
)
    requires
        old(out).wf(),
        is_word(value@),
    ensures
        wrote(
            *old(out),
            *final(out),
            after_advice(stream_toks(*join_point), spell(seq![Word(value)], at), send, at),
        ),
{
    proof {
        lemma_words();
        reveal_with_fuel(depth_after, 10);
    }
    out.pieces(&[Word("let"), Word("__after_context"), Alone('=')], at);
    out.stream(join_point);
    out.pieces(
        &[
            Alone(';'), Word("__aspect"), Alone('.'), Word("after"), Open(Paren), Alone('&'),
            Word("__after_context"), Alone(','), Alone('&'),
        ],
        at,
    );
    out.piece(Word(value), at);
    out.piece(Word("as"), at);
    put_any_ref(out, send, at);
    out.piece(Close, at);
    put_advice_end(out, send, at);
}

fn put_error_advice(out: &mut Builder, join_point: &TokenStream, send: bool, at: Span)
    requires
        old(out).wf(),
    ensures
        wrote(*old(out), *final(out), error_advice(stream_toks(*join_point), send, at)),
{
    proof {
        lemma_words();
        reveal_with_fuel(depth_after, 12);
    }
    out.pieces(&[Word("let"), Word("__error_context"), Alone('=')], at);
    out.stream(join_point);
    out.pieces(&[Alone(';'), Word("let"), Word("__aspect_err"), Alone('=')], at);
    put_execution_error(out, at);
    out.pieces(
        &[
            Alone(';'), Word("__aspect"), Alone('.'), Word("after_error"), Open(Paren), Alone('&'),
            Word("__error_context"), Alone(','), Alone('&'), Word("__aspect_err"), Close,
        ],
        at,
    );
    put_advice_end(out, send, at);
}

fn put_advised_result(
    out: &mut Builder,
    call: &TokenStream,
    join_point: &TokenStream,
    send: bool,
    at: Span,
)
    requires
        old(out).wf(),
    ensures
        wrote(
            *old(out),
            *final(out),
            advised_result(stream_toks(*call), stream_toks(*join_point), send, at),
        ),
{
    proof {
        lemma_words();
        reveal_with_fuel(depth_after, 13);
    }
    out.piece(Word("match"), at);
    out.stream(call);
    out.pieces(
        &[
            Alone('.'), Word("await"), Open(Brace), Word("Ok"), Open(Paren), Word("__value"), Close,
            Joint('='), Alone('>'), Open(Brace),
        ],
        at,
    );
    put_after_advice(out, join_point, "__value", send, at);
    out.pieces(
        &[
            Word("Ok"), Open(Paren), Word("__value"), Close, Close, Word("Err"), Open(Paren),
            Word("__err"), Close, Joint('='), Alone('>'), Open(Brace),
        ],
        at,
    );
    put_error_advice(out, join_point, send, at);
    out.pieces(&[Word("Err"), Open(Paren), Word("__err"), Close, Close, Close], at);
}

fn put_advised_value(
    out: &mut Builder,
    call: &TokenStream,
    join_point: &TokenStream,
    send: bool,
    at: Span,
)
    requires
        old(out).wf(),
    ensures
        wrote(
            *old(out),
            *final(out),
            advised_value(stream_toks(*call), stream_toks(*join_point), send, at),
        ),
{
    proof {
        lemma_words();
        reveal_with_fuel(depth_after, 4);
    }
    out.pieces(&[Word("let"), Word("__result"), Alone('=')], at);
    out.stream(call);
    out.pieces(&[Alone('.'), Word("await"), Alone(';')], at);
    put_after_advice(out, join_point, "__result", send, at);
    out.piece(Word("__result"), at);
}

/// The body of a wrapper that advises an asynchronous call before and after it.
fn generate_lifecycle(
    aspect_expr: &TokenStream,
    capture_bindings: &TokenStream,
    join_point: &TokenStream,
    original_call: &TokenStream,
    is_result: bool,
    send: bool,
    at: Span,
) -> (tokens: TokenStream)
    ensures
        stream_toks(tokens) == lifecycle(
            stream_toks(*aspect_expr),
            stream_toks(*capture_bindings),
            stream_toks(*join_point),
            stream_toks(*original_call),
            is_result,
            send,
            at,
        ),
{
    let mut out = Builder::new();
    put_imports(&mut out, at);
    put_let_aspect(&mut out, aspect_expr, at);
    out.stream(capture_bindings);
    put_before_advice(&mut out, join_point, send, at);
    if is_result {
        put_advised_result(&mut out, original_call, join_point, send, at);
    } else {
        put_advised_value(&mut out, original_call, join_point, send, at);
    }
    assert(out@ =~= lifecycle(
        stream_toks(*aspect_expr),
        stream_toks(*capture_bindings),
        stream_toks(*join_point),
        stream_toks(*original_call),
        is_result,
        send,
        at,
    ));
    out.finish()
}

/// The body of a wrapper around an asynchronous function, where the advice is not asynchronous.
pub fn generate_async_around_call(
    aspect_expr: &TokenStream,
    original_fn_name: &Ident,
    fn_name: &Ident,
    param_names: &Vec<&Pattern>,
    debug_arg_idents: &Vec<Ident>,
    is_result: bool,
    has_receiver: bool,
    at: Span,
) -> (tokens: TokenStream)
    ensures
        stream_toks(tokens) == lifecycle(
            stream_toks(*aspect_expr),
            captures(names_of(debug_arg_idents@), at),
            captured_join_point(ident_text(*fn_name), debug_arg_idents@.len(), false, at),
            original_call(
                name_of(*original_fn_name),
                ref_views(param_names@),
                has_receiver,
                at,
            ),
            is_result,
            false,
            at,
        ),
{
    let fn_name_str = text_of(fn_name);
    let (capture_idents, capture_bindings) = generate_async_arg_captures(debug_arg_idents, at);
    let args_expr = generate_async_args(&capture_idents, at);
    let original_call = generate_original_call(original_fn_name, param_names, has_receiver, at);
    let context = generate_join_point(false, true, fn_name_str.as_str(), &args_expr, at);
    generate_lifecycle(
        aspect_expr,
        &capture_bindings,
        &context,
        &original_call,
        is_result,
        false,
        at,
    )
}

/// Whether a type is a path that ends in `Result`.
pub fn is_result_type(ty: &Ty) -> (is: bool)
    ensures
        is == names_result(ty@),
{
    if let TyShape::Path(segments) = &ty.shape {
        if segments.len() > 0 {
            assert(names_of(segments@).last() == name_of(segments@.last()));
            return ident_is(&segments[segments.len() - 1], "Result");
        }
    }
    false
}

/// Adds the identifiers that a pattern binds.
pub fn collect_pat_idents(pat: &Pattern, out: &mut Vec<Ident>)
    ensures
        names_of(final(out)@) == names_of(old(out)@) + bound_names(pat@),
    decreases *pat,
{
    match &pat.shape {
        PatternShape::Ident(ident, _) => {
            out.push(copy_ident(ident));
            assert(names_of(out@) =~= names_of(old(out)@) + bound_names(pat@));
        },
        PatternShape::Reference(inner) => collect_pat_idents(inner, out),
        PatternShape::Type(inner) => collect_pat_idents(inner, out),
        PatternShape::Paren(inner) => collect_pat_idents(inner, out),
        PatternShape::Tuple(elems) => collect_all_idents(elems, out),
        PatternShape::TupleStruct(elems) => collect_all_idents(elems, out),
        PatternShape::Struct(fields) => collect_all_idents(fields, out),
        PatternShape::Slice(elems) => collect_all_idents(elems, out),
        PatternShape::Or(cases) => {
            proof {
                lemma_pat_views(cases@);
            }
            if cases.len() > 0 {
                collect_pat_idents(&cases[0], out);
            } else {
                assert(names_of(out@) =~= names_of(old(out)@) + bound_names(pat@));
            }
        },
        PatternShape::Other => {
            assert(names_of(out@) =~= names_of(old(out)@) + bound_names(pat@));
        },
    }
}

/// Adds the identifiers that patterns bind, one pattern after the other.
fn collect_all_idents(pats: &Vec<Pattern>, out: &mut Vec<Ident>)
    ensures
        names_of(final(out)@) == names_of(old(out)@) + all_bound_names(pat_views(pats@)),
    decreases *pats,
{
    let mut i: usize = 0;
    assert(names_of(out@) =~= names_of(out@) + all_bound_names(pat_views(pats@.take(0))));
    while i < pats.len()
        invariant
            i <= pats@.len(),
            names_of(out@) == names_of(old(out)@) + all_bound_names(
                pat_views(pats@.take(i as int)),
            ),
        decreases pats@.len() - i,
    {
        proof {
            assert(pats@.take(i + 1).drop_last() =~= pats@.take(i as int));
            assert(pat_views(pats@.take(i + 1)).drop_last() =~= pat_views(pats@.take(i as int)));
        }
        collect_pat_idents(&pats[i], out);
        i = i + 1;
        assert(names_of(out@) =~= names_of(old(out)@) + all_bound_names(
            pat_views(pats@.take(i as int)),
        ));
    }
    assert(pats@.take(i as int) =~= pats@);
}

/// What patterns hold, one by one.
proof fn lemma_pat_views(pats: Seq<Pattern>)
    ensures
        pat_views(pats).len() == pats.len(),
        forall|i: int| 0 <= i < pats.len() ==> #[trigger] pat_views(pats)[i] == pat_view(pats[i]),
    decreases pats.len(),
{
    if pats.len() > 0 {
        lemma_pat_views(pats.drop_last());
    }
}

fn put_take_result_fn(out: &mut Builder, at: Span)
    requires
        old(out).wf(),
    ensures
        wrote(*old(out), *final(out), take_result_fn(at)),
{
    proof {
        lemma_words();
        reveal_with_fuel(depth_after, 45);
    }
    out.pieces(
        &[
            Word("fn"), Word("__async_aspect_take_result"), Alone('<'), Word("T"), Alone(':'),
            Joint('\''), Word("static"), Alone('+'), Word("Send"), Alone('>'), Open(Paren),
            Word("boxed"), Alone(':'), Word("Box"), Alone('<'), Word("dyn"), Word("Any"),
            Alone('+'), Word("Send"), Alone('+'), Word("Sync"), Alone('>'), Close, Joint('-'),
            Alone('>'), Word("T"), Open(Brace), Alone('*'), Word("boxed"), Alone('.'),
            Word("downcast"), Joint(':'), Alone(':'), Alone('<'), Word("T"), Alone('>'),
            Open(Paren), Close, Alone('.'), Word("expect"), Open(Paren),
            Quoted("async aspect around() returned wrong type"), Close, Close,
        ],
        at,
    );
}

#[verifier::rlimit(60)]
fn put_let_async_pjp(
    out: &mut Builder,
    join_point: &TokenStream,
    call: &TokenStream,
    is_result: bool,
    at: Span,
)
    requires
        old(out).wf(),
    ensures
        wrote(
            *old(out),
            *final(out),
            let_async_pjp(stream_toks(*join_point), stream_toks(*call), is_result, at),
        ),
{
    let awaited = awaited(call, at);
    proof {
        lemma_words();
        reveal_with_fuel(depth_after, 22);
    }
    out.pieces(&[Word("let"), Word("__context"), Alone('=')], at);
    out.stream(join_point);
    out.pieces(
        &[
            Alone(';'), Word("let"), Word("__pjp"), Alone('='), Word("AsyncProceedingJoinPoint"),
            Joint(':'), Alone(':'), Word("new"), Open(Paren), Word("move"), Joint('|'), Alone('|'),
            Open(Brace), Word("Box"), Joint(':'), Alone(':'), Word("pin"), Open(Paren),
            Word("async"), Word("move"), Open(Brace),
        ],
        at,
    );
    put_proceed(out, &awaited, is_result, true, at);
    out.pieces(
        &[
            Close, Close, Close, Alone(','), Word("__context"), Alone(','), Close, Alone(';'),
        ],
        at,
    );
}

/// `CALL.await`
fn awaited(call: &TokenStream, at: Span) -> (tokens: TokenStream)
    ensures
        stream_toks(tokens) == stream_toks(*call) + spell(seq![Alone('.'), Word("await")], at),
{
    let mut out = Builder::new();
    proof {
        lemma_words();
        reveal_with_fuel(depth_after, 3);
    }
    out.stream(call);
    out.pieces(&[Alone('.'), Word("await")], at);
    assert(out@ =~= stream_toks(*call) + spell(seq![Alone('.'), Word("await")], at));
    out.finish()
}

#[verifier::rlimit(60)]
fn put_async_outcome(out: &mut Builder, is_result: bool, at: Span)
    requires
        old(out).wf(),
    ensures
        wrote(*old(out), *final(out), async_outcome(is_result, at)),
{
    proof {
        lemma_words();
        reveal_with_fuel(depth_after, 33);
    }
    if is_result {
        out.pieces(
            &[
                Word("match"), Word("__aspect"), Alone('.'), Word("around"), Open(Paren),
                Word("__pjp"), Close, Alone('.'), Word("await"), Open(Brace),
            ],
            at,
        );
        out.pieces(
            &[
                Word("Ok"), Open(Paren), Word("__boxed_result"), Close, Joint('='), Alone('>'),
                Open(Brace), Word("let"), Word("__result"), Alone('='), Alone('*'),
                Word("__boxed_result"), Alone('.'), Word("downcast"), Joint(':'), Alone(':'),
                Alone('<'), Word("_"), Alone('>'), Open(Paren), Close, Alone('.'), Word("expect"),
                Open(Paren), Quoted("async aspect around() returned wrong type"), Close, Alone(';'),
                Word("Ok"), Open(Paren), Word("__result"), Close, Close,
            ],
            at,
        );
        out.pieces(
            &[
                Word("Err"), Open(Paren), Word("__err"), Close, Joint('='), Alone('>'), Word("Err"),
                Open(Paren), Word("format"), Alone('!'), Open(Paren), Quoted("{:?}"), Alone(','),
                Word("__err"), Close, Alone('.'), Word("into"), Open(Paren), Close, Close, Close,
            ],
            at,
        );
    } else {
        out.pieces(
            &[
                Word("match"), Word("__aspect"), Alone('.'), Word("around"), Open(Paren),
                Word("__pjp"), Close, Alone('.'), Word("await"), Open(Brace),
            ],
            at,
        );
        out.pieces(
            &[
                Word("Ok"), Open(Paren), Word("__boxed_result"), Close, Joint('='), Alone('>'),
                Open(Brace), Word("let"), Word("__result"), Alone('='),
                Word("__async_aspect_take_result"), Open(Paren), Word("__boxed_result"), Close,
                Alone(';'), Word("__result"), Close,
            ],
            at,
        );
        out.pieces(
            &[
                Word("Err"), Open(Paren), Word("__err"), Close, Joint('='), Alone('>'),
                Word("panic"), Alone('!'), Open(Paren),
                Quoted("async aspect around() failed: {:?}"), Alone(','), Word("__err"), Close,
                Close,
            ],
            at,
        );
    }
}

/// The error that the compiler reports in place of an expansion.
fn generate_impl_trait_error(at: Span) -> (tokens: TokenStream)
    ensures
        stream_toks(tokens) == impl_trait_error(at),
{
    let mut out = Builder::new();
    proof {
        lemma_words();
        reveal_with_fuel(depth_after, 7);
    }
    out.pieces(
        &[
            Word("compile_error"), Alone('!'), Open(Paren),
            Quoted("async aspects that override around() cannot be applied to async fn returning impl Trait; use a concrete return type or rely on before/after/after_error only"),
            Close, Alone(';'),
        ],
        at,
    );
    assert(out@ =~= impl_trait_error(at));
    out.finish()
}

/// The body of a wrapper that hands an asynchronous call to the aspect's own `around`.
fn generate_custom_around(
    aspect_expr: &TokenStream,
    capture_bindings: &TokenStream,
    join_point: &TokenStream,
    original_call: &TokenStream,
    is_result: bool,
    at: Span,
) -> (tokens: TokenStream)
    ensures
        stream_toks(tokens) == async_around(
            stream_toks(*aspect_expr),
            stream_toks(*capture_bindings),
            stream_toks(*join_point),
            stream_toks(*original_call),
            is_result,
            at,
        ),
{
    let mut out = Builder::new();
    put_imports(&mut out, at);
    if !is_result {
        put_take_result_fn(&mut out, at);
    }
    put_let_aspect(&mut out, aspect_expr, at);
    out.stream(capture_bindings);
    put_let_async_pjp(&mut out, join_point, original_call, is_result, at);
    put_async_outcome(&mut out, is_result, at);
    assert(out@ =~= async_around(
        stream_toks(*aspect_expr),
        stream_toks(*capture_bindings),
        stream_toks(*join_point),
        stream_toks(*original_call),
        is_result,
        at,
    ));
    out.finish()
}

/// The body of a wrapper around an asynchronous function, where the advice is asynchronous too.
pub fn generate_async_aspect_call(
    aspect_expr: &TokenStream,
    original_fn_name: &Ident,
    fn_name: &Ident,
    param_names: &Vec<&Pattern>,
    debug_arg_idents: &Vec<Ident>,
    is_result: bool,
    returns_impl_trait: bool,
    has_custom_async_around: bool,
    has_receiver: bool,
    at: Span,
) -> (tokens: TokenStream)
    ensures
        stream_toks(tokens) == async_advice(
            stream_toks(*aspect_expr),
            captures(names_of(debug_arg_idents@), at),
            captured_join_point(ident_text(*fn_name), debug_arg_idents@.len(), true, at),
            original_call(
                name_of(*original_fn_name),
                ref_views(param_names@),
                has_receiver,
                at,
            ),
            is_result,
            returns_impl_trait,
            has_custom_async_around,
            at,
        ),
{
    let fn_name_str = text_of(fn_name);
    let (capture_idents, capture_bindings) = generate_async_arg_captures(debug_arg_idents, at);
    let args_expr = generate_async_send_args(&capture_idents, at);
    let original_call = generate_original_call(original_fn_name, param_names, has_receiver, at);
    let context = generate_join_point(true, true, fn_name_str.as_str(), &args_expr, at);
    if !has_custom_async_around {
        return generate_lifecycle(
            aspect_expr,
            &capture_bindings,
            &context,
            &original_call,
            is_result,
            true,
            at,
        );
    }
    if !is_result && returns_impl_trait {
        generate_impl_trait_error(at)
    } else {
        generate_custom_around(
            aspect_expr,
            &capture_bindings,
            &context,
            &original_call,
            is_result,
            at,
        )
    }
}

fn put_attrs(out: &mut Builder, attrs: &Vec<Attr>, inner: bool)
    requires
        old(out).wf(),
    ensures
        wrote(*old(out), *final(out), attr_toks(attr_views(attrs@), inner)),
{
    let ghost all = attr_views(attrs@);
    let mut i: usize = 0;
    assert(out@ =~= out@ + attr_toks(all.take(0), inner));
    while i < attrs.len()
        invariant
            i <= attrs@.len(),
            all == attr_views(attrs@),
            wrote(*old(out), *out, attr_toks(all.take(i as int), inner)),
        decreases attrs@.len() - i,
    {
        proof {
            assert(all.take(i + 1).drop_last() =~= all.take(i as int));
        }
        if attrs[i].inner == inner {
            out.stream(&attrs[i].tokens);
        }
        i = i + 1;
    }
    assert(all.take(i as int) =~= all);
}

fn put_output(out: &mut Builder, output: &ReturnType)
    requires
        old(out).wf(),
    ensures
        wrote(*old(out), *final(out), output_toks(output@)),
{
    match output {
        ReturnType::Default => {},
        ReturnType::Type(arrow, ty) => {
            out.stream(arrow);
            out.stream(&ty.tokens);
        },
    }
}

fn put_params(out: &mut Builder, sig: &FnSig, at: Span)
    requires
        old(out).wf(),
    ensures
        wrote(*old(out), *final(out), param_toks(sig@, at)),
{
    out.stream(&sig.input_tokens);
    if let Some(variadic) = &sig.variadic {
        if !sig.inputs_ended {
            out.piece(Alone(','), at);
        }
        out.stream(variadic);
    }
}

fn put_renamed_signature(out: &mut Builder, sig: &FnSig, name: &Ident, at: Span)
    requires
        old(out).wf(),
    ensures
        wrote(*old(out), *final(out), renamed_signature(sig@, name_of(*name), at)),
{
    put_qualifiers(out, sig);
    out.ident(name);
    out.stream(&sig.generics);
    out.open(Paren, sig.paren_span);
    put_params(out, sig, at);
    out.piece(Close, at);
    put_output(out, &sig.output);
    out.stream(&sig.where_clause);
}

fn put_qualifiers(out: &mut Builder, sig: &FnSig)
    requires
        old(out).wf(),
    ensures
        wrote(*old(out), *final(out), qualifiers(sig@)),
{
    out.stream(&sig.constness);
    if let Some(asyncness) = &sig.asyncness {
        out.stream(asyncness);
    }
    out.stream(&sig.unsafety);
    out.stream(&sig.abi);
    out.stream(&sig.fn_token);
}

/// The function that a wrapper stands for, under another name.
fn generate_renamed_item(func: &FnItem, name: &Ident, at: Span) -> (tokens: TokenStream)
    ensures
        stream_toks(tokens) == renamed_item(func@, name_of(*name), at),
{
    let mut out = Builder::new();
    put_attrs(&mut out, &func.attrs, false);
    put_renamed_signature(&mut out, &func.sig, name, at);
    out.open(Brace, func.brace_span);
    put_attrs(&mut out, &func.attrs, true);
    out.stream(&func.stmts);
    out.piece(Close, at);
    assert(out@ =~= renamed_item(func@, name_of(*name), at));
    out.finish()
}

fn put_wrapper_signature(out: &mut Builder, func: &FnItem, asyncness: &TokenStream, at: Span)
    requires
        old(out).wf(),
    ensures
        wrote(*old(out), *final(out), wrapper_signature(func@, stream_toks(*asyncness), at)),
{
    proof {
        lemma_words();
    }
    out.stream(&func.vis);
    out.stream(asyncness);
    out.piece(Word("fn"), at);
    out.ident(&func.sig.ident);
    out.stream(&func.sig.generics);
    out.piece(Open(Paren), at);
    out.stream(&func.sig.input_tokens);
    out.piece(Close, at);
    put_output(out, &func.sig.output);
    out.stream(&func.sig.where_clause);
}

/// A wrapper, with the function it stands for.
fn generate_wrapper(
    func: &FnItem,
    asyncness: &TokenStream,
    original_fn_name: &Ident,
    aspect_call: &TokenStream,
    at: Span,
) -> (tokens: TokenStream)
    ensures
        stream_toks(tokens) == wrapper(
            func@,
            stream_toks(*asyncness),
            name_of(*original_fn_name),
            stream_toks(*aspect_call),
            at,
        ),
{
    let original_fn_renamed = generate_renamed_item(func, original_fn_name, at);
    let mut out = Builder::new();
    if has_receiver(func) {
        out.stream(&original_fn_renamed);
        put_wrapper_signature(&mut out, func, asyncness, at);
        out.piece(Open(Brace), at);
        out.stream(aspect_call);
        out.piece(Close, at);
    } else {
        put_wrapper_signature(&mut out, func, asyncness, at);
        out.piece(Open(Brace), at);
        out.stream(&original_fn_renamed);
        out.stream(aspect_call);
        out.piece(Close, at);
    }
    assert(out@ =~= wrapper(
        func@,
        stream_toks(*asyncness),
        name_of(*original_fn_name),
        stream_toks(*aspect_call),
        at,
    ));
    out.finish()
}

/// The name of a function behind its wrapper.
fn hidden_ident(prefix: &str, ident: &Ident) -> (hidden: Ident)
    requires
        is_word(prefix@),
        is_plain(ident_text(*ident)),
    ensures
        name_of(hidden) == hidden_name(prefix@, name_of(*ident)),
{
    let mut text = String::new();
    text.append(prefix);
    text.append(text_of(ident).as_str());
    assert(text@ =~= prefix@ + ident_text(*ident));
    new_ident(text.as_str(), span_of(ident))
}

/// The patterns of the parameters other than `self`.
fn param_pats(func: &FnItem) -> (pats: Vec<&Pattern>)
    ensures
        ref_views(pats@) == typed_pats(func@.sig.inputs),
{
    let mut pats: Vec<&Pattern> = Vec::new();
    let ghost all = func@.sig.inputs;
    let mut i: usize = 0;
    while i < func.sig.inputs.len()
        invariant
            i <= func.sig.inputs@.len(),
            all == func@.sig.inputs,
            ref_views(pats@) == typed_pats(all.take(i as int)),
        decreases func.sig.inputs@.len() - i,
    {
        proof {
            assert(all.take(i + 1).drop_last() =~= all.take(i as int));
            assert(all.take(i + 1).last() == func.sig.inputs@[i as int]@);
        }
        if let Param::Typed(pat) = &func.sig.inputs[i] {
            let ghost before = ref_views(pats@);
            pats.push(pat);
            assert(ref_views(pats@) =~= before.push(pat@));
        }
        i = i + 1;
    }
    assert(all.take(i as int) =~= all);
    pats
}

/// The variables that parameters bind.
fn bound_idents(pats: &Vec<&Pattern>) -> (idents: Vec<Ident>)
    ensures
        names_of(idents@) == all_bound_names(ref_views(pats@)),
{
    let mut idents: Vec<Ident> = Vec::new();
    let ghost all = ref_views(pats@);
    let mut i: usize = 0;
    while i < pats.len()
        invariant
            i <= pats@.len(),
            all == ref_views(pats@),
            names_of(idents@) == all_bound_names(all.take(i as int)),
        decreases pats@.len() - i,
    {
        proof {
            assert(all.take(i + 1).drop_last() =~= all.take(i as int));
        }
        collect_pat_idents(pats[i], &mut idents);
        i = i + 1;
    }
    assert(all.take(i as int) =~= all);
    idents
}

/// Whether a function returns a type that is named `Result`.
fn output_is_result(output: &ReturnType) -> (is: bool)
    ensures
        is == returns_result(output@),
{
    match output {
        ReturnType::Default => false,
        ReturnType::Type(_, ty) => is_result_type(ty),
    }
}

/// Whether a function returns `impl Trait`.
fn output_is_impl_trait(output: &ReturnType) -> (is: bool)
    ensures
        is == returns_impl_trait(output@),
{
    match output {
        ReturnType::Default => false,
        ReturnType::Type(_, ty) => match &ty.shape {
            TyShape::ImplTrait => true,
            _ => false,
        },
    }
}

/// Weaves an aspect into a function, with every new token resolved at `at`.
pub fn generate_aspect_wrapper_at(aspect_info: &AspectInfo, func: &FnItem, at: Span) -> (tokens:
    TokenStream)
    requires
        is_plain(ident_text(func.sig.ident)),
    ensures
        stream_toks(tokens) == aspect_wrapper(aspect_info@, func@, at),
{
    proof {
        lemma_words();
    }
    let original_fn_name = hidden_ident("__aspect_original_", &func.sig.ident);
    let param_names = param_pats(func);
    let debug_arg_idents = bound_idents(&param_names);
    let is_result = output_is_result(&func.sig.output);
    let receiver = has_receiver(func);
    match &func.sig.asyncness {
        Some(asyncness) => {
            let aspect_call = generate_async_around_call(
                &aspect_info.aspect_expr,
                &original_fn_name,
                &func.sig.ident,
                &param_names,
                &debug_arg_idents,
                is_result,
                receiver,
                at,
            );
            generate_wrapper(func, asyncness, &original_fn_name, &aspect_call, at)
        },
        None => {
            let aspect_call = generate_sync_around_call(
                &aspect_info.aspect_expr,
                &original_fn_name,
                &func.sig.ident,
                &param_names,
                is_result,
                receiver,
                at,
            );
            let asyncness = empty_stream();
            generate_wrapper(func, &asyncness, &original_fn_name, &aspect_call, at)
        },
    }
}

/// Weaves an aspect into a function.
///
/// The tokens that are not taken from the function or the aspect are all resolved at one place,
/// the call of the macro that is being expanded.
pub fn generate_aspect_wrapper(aspect_info: &AspectInfo, func: &FnItem) -> (tokens: TokenStream)
    requires
        is_plain(ident_text(func.sig.ident)),
    ensures
        exists|at: Span|
            is_call_site(at) && stream_toks(tokens) == #[trigger] aspect_wrapper(
                aspect_info@,
                func@,
                at,
            ),
{
    generate_aspect_wrapper_at(aspect_info, func, place_of_call())
}

/// Weaves an asynchronous aspect into a function, with every new token resolved at `at`.
pub fn generate_async_aspect_wrapper_at(aspect_info: &AspectInfo, func: &FnItem, at: Span) -> (
tokens: TokenStream)
    requires
        is_plain(ident_text(func.sig.ident)),
    ensures
        stream_toks(tokens) == async_aspect_wrapper(aspect_info@, func@, at),
{
    proof {
        lemma_words();
    }
    let original_fn_name = hidden_ident("__async_aspect_original_", &func.sig.ident);
    let param_names = param_pats(func);
    let debug_arg_idents = bound_idents(&param_names);
    let aspect_call = generate_async_aspect_call(
        &aspect_info.aspect_expr,
        &original_fn_name,
        &func.sig.ident,
        &param_names,
        &debug_arg_idents,
        output_is_result(&func.sig.output),
        output_is_impl_trait(&func.sig.output),
        aspect_info.has_custom_async_around,
        has_receiver(func),
        at,
    );
    let asyncness = word("async", at);
    generate_wrapper(func, &asyncness, &original_fn_name, &aspect_call, at)
}

/// Weaves an asynchronous aspect into a function.
///
/// The tokens that are not taken from the function or the aspect are all resolved at one place,
/// the call of the macro that is being expanded.
pub fn generate_async_aspect_wrapper(aspect_info: &AspectInfo, func: &FnItem) -> (tokens:
    TokenStream)
    requires
        is_plain(ident_text(func.sig.ident)),
    ensures
        exists|at: Span|
            is_call_site(at) && stream_toks(tokens) == #[trigger] async_aspect_wrapper(
                aspect_info@,
                func@,
                at,
            ),
{
    generate_async_aspect_wrapper_at(aspect_info, func, place_of_call())
}

} // verus!
