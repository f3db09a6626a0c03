//! The source text that weaving produces, as token sequences.
//!
//! Every token that is not taken from the function or from the aspect is resolved at `at`.

use crate::builder::spell;
use crate::builder::Piece::{Alone, Close, Joint, Open, Quoted, Word};
use crate::numerals::digits;
use crate::syntax::{
    AspectView, AttrView, FnItemView, FnSigView, Name, ParamView, PatternShapeView, PatternView,
    ReturnTypeView, TyShapeView, TyView,
};
use crate::tokens::Delim::{Brace, Bracket, Paren};
use crate::tokens::Tok;
use proc_macro2::Span;
use vstd::prelude::*;

verus! {

/// `use ::aspect_core::prelude::*; use ::std::any::Any;`
pub open spec fn imports(at: Span) -> Seq<Tok> {
    spell(
        seq![
            Word("use"), Joint(':'), Alone(':'), Word("aspect_core"), Joint(':'), Alone(':'),
            Word("prelude"), Joint(':'), Alone(':'), Alone('*'), Alone(';'), Word("use"),
            Joint(':'), Alone(':'), Word("std"), Joint(':'), Alone(':'), Word("any"), Joint(':'),
            Alone(':'), Word("Any"), Alone(';'),
        ],
        at,
    )
}

/// `let __aspect = EXPR;`
pub open spec fn let_aspect(expr: Seq<Tok>, at: Span) -> Seq<Tok> {
    spell(seq![Word("let"), Word("__aspect"), Alone('=')], at)
    + expr
    + spell(seq![Alone(';')], at)
}

/// `dyn Any`, or `dyn Any + Send + Sync` where the value crosses threads.
pub open spec fn dyn_any(send: bool, at: Span) -> Seq<Tok> {
    if send {
        spell(
            seq![
                Word("dyn"), Word("Any"), Alone('+'), Word("Send"), Alone('+'), Word("Sync"),
            ],
            at,
        )
    } else {
        spell(seq![Word("dyn"), Word("Any")], at)
    }
}

/// `Box::new(VALUE) as Box<dyn Any>`
pub open spec fn boxed(value: Seq<Tok>, send: bool, at: Span) -> Seq<Tok> {
    spell(seq![Word("Box"), Joint(':'), Alone(':'), Word("new"), Open(Paren)], at)
    + value
    + spell(seq![Close, Word("as"), Word("Box"), Alone('<')], at)
    + dyn_any(send, at)
    + spell(seq![Alone('>')], at)
}

/// `ARG.clone()`, boxed.
pub open spec fn boxed_clone(arg: Seq<Tok>, send: bool, at: Span) -> Seq<Tok> {
    boxed(
        arg
        + spell(seq![Alone('.'), Word("clone"), Open(Paren), Close], at),
        send,
        at,
    )
}

/// Clones of all the arguments, each boxed, with a comma between them.
pub open spec fn boxed_clones(args: Seq<Seq<Tok>>, send: bool, at: Span) -> Seq<Tok>
    decreases args.len(),
{
    if args.len() == 0 {
        Seq::empty()
    } else if args.len() == 1 {
        boxed_clone(args[0], send, at)
    } else {
        boxed_clones(args.drop_last(), send, at)
        + spell(seq![Alone(',')], at)
        + boxed_clone(args.last(), send, at)
    }
}

/// `vec![Box::new(ARG.clone()) as Box<dyn Any>, ..]`
pub open spec fn args_vec(args: Seq<Seq<Tok>>, send: bool, at: Span) -> Seq<Tok> {
    spell(seq![Word("vec"), Alone('!'), Open(Bracket)], at)
    + boxed_clones(args, send, at)
    + spell(seq![Close], at)
}

/// The variable that keeps the argument at `index` beyond the call: `__aspect_arg_0` and so on.
pub open spec fn capture_name(index: int, at: Span) -> Name {
    Name { text: "__aspect_arg_"@ + digits(index as nat), span: at }
}

/// The variables that keep `count` arguments.
pub open spec fn capture_names(count: nat, at: Span) -> Seq<Name> {
    Seq::new(count, |i: int| capture_name(i, at))
}

/// `let __aspect_arg_0 = FIRST.clone(); let __aspect_arg_1 = SECOND.clone(); ..`
pub open spec fn captures(names: Seq<Name>, at: Span) -> Seq<Tok>
    decreases names.len(),
{
    if names.len() == 0 {
        Seq::empty()
    } else {
        captures(names.drop_last(), at)
        + spell(seq![Word("let")], at)
        + seq![capture_name(names.len() - 1, at).tok()]
        + spell(seq![Alone('=')], at)
        + seq![names.last().tok()]
        + spell(seq![Alone('.'), Word("clone"), Open(Paren), Close, Alone(';')], at)
    }
}

/// Identifiers, each as a token sequence of its own.
pub open spec fn singletons(names: Seq<Name>) -> Seq<Seq<Tok>> {
    Seq::new(names.len(), |i: int| seq![names[i].tok()])
}

/// The patterns of the parameters other than `self`.
pub open spec fn typed_pats(inputs: Seq<ParamView>) -> Seq<PatternView>
    decreases inputs.len(),
{
    if inputs.len() == 0 {
        Seq::empty()
    } else {
        let before = typed_pats(inputs.drop_last());
        match inputs.last() {
            ParamView::Typed(pat) => before.push(pat),
            ParamView::Receiver => before,
        }
    }
}

/// Whether one of the parameters is `self`.
pub open spec fn takes_self(inputs: Seq<ParamView>) -> bool {
    exists|i: int| 0 <= i < inputs.len() && #[trigger] inputs[i] is Receiver
}

/// The identifiers that a pattern binds, from left to right: of alternatives only the first is
/// looked at, and of a binding only its name.
pub open spec fn bound_names(pat: PatternView) -> Seq<Name>
    decreases pat,
{
    match pat.shape {
        PatternShapeView::Ident(name, _) => seq![name],
        PatternShapeView::Reference(inner) => bound_names(*inner),
        PatternShapeView::Type(inner) => bound_names(*inner),
        PatternShapeView::Paren(inner) => bound_names(*inner),
        PatternShapeView::Tuple(elems) => all_bound_names(elems),
        PatternShapeView::TupleStruct(elems) => all_bound_names(elems),
        PatternShapeView::Struct(fields) => all_bound_names(fields),
        PatternShapeView::Slice(elems) => all_bound_names(elems),
        PatternShapeView::Or(cases) => if cases.len() > 0 {
            bound_names(cases[0])
        } else {
            Seq::empty()
        },
        PatternShapeView::Other => Seq::empty(),
    }
}

/// The identifiers that patterns bind, one pattern after the other.
pub open spec fn all_bound_names(pats: Seq<PatternView>) -> Seq<Name>
    decreases pats,
{
    if pats.len() == 0 {
        Seq::empty()
    } else {
        all_bound_names(pats.drop_last()) + bound_names(pats.last())
    }
}

/// A path whose last segment is `Result`.
pub open spec fn names_result(ty: TyView) -> bool {
    match ty.shape {
        TyShapeView::Path(segments) => segments.len() > 0 && segments.last().text == "Result"@,
        _ => false,
    }
}

/// Whether a function returns a type that is named `Result`.
pub open spec fn returns_result(output: ReturnTypeView) -> bool {
    match output {
        ReturnTypeView::Default => false,
        ReturnTypeView::Type(_, ty) => names_result(ty),
    }
}

/// Whether a function returns `impl Trait`.
pub open spec fn returns_impl_trait(output: ReturnTypeView) -> bool {
    match output {
        ReturnTypeView::Default => false,
        ReturnTypeView::Type(_, ty) => ty.shape is ImplTrait,
    }
}

/// The argument that hands a parameter on: the bare identifier of a binding without a subpattern,
/// and any other pattern as it is written.
pub open spec fn call_arg(pat: PatternView) -> Seq<Tok> {
    match pat.shape {
        PatternShapeView::Ident(name, false) => seq![name.tok()],
        _ => pat.tokens,
    }
}

/// The arguments that hand parameters on, with a comma between them, and one before the first
/// where `follows` says that something else comes before it.
pub open spec fn call_args(pats: Seq<PatternView>, follows: bool, at: Span) -> Seq<Tok>
    decreases pats.len(),
{
    if pats.len() == 0 {
        Seq::empty()
    } else if pats.len() == 1 && !follows {
        call_arg(pats[0])
    } else {
        call_args(pats.drop_last(), follows, at)
        + spell(seq![Alone(',')], at)
        + call_arg(pats.last())
    }
}

/// The call of the function that the wrapper stands for: `NAME(A, B)`, or
/// `Self::NAME(self, A, B)` for a method.
pub open spec fn original_call(
    name: Name,
    pats: Seq<PatternView>,
    has_receiver: bool,
    at: Span,
) -> Seq<Tok> {
    if has_receiver {
        spell(seq![Word("Self"), Joint(':'), Alone(':')], at)
        + seq![name.tok()]
        + spell(seq![Open(Paren), Word("self")], at)
        + call_args(pats, true, at)
        + spell(seq![Close], at)
    } else {
        seq![name.tok()]
        + spell(seq![Open(Paren)], at)
        + call_args(pats, false, at)
        + spell(seq![Close], at)
    }
}

/// `line!()`, or `::core::line!()`.
pub open spec fn line_of_call(qualified: bool, at: Span) -> Seq<Tok> {
    if qualified {
        spell(
            seq![
                Joint(':'), Alone(':'), Word("core"), Joint(':'), Alone(':'), Word("line"),
                Alone('!'), Open(Paren), Close,
            ],
            at,
        )
    } else {
        spell(seq![Word("line"), Alone('!'), Open(Paren), Close], at)
    }
}

/// The type of a join point: `JoinPoint`, or `AsyncJoinPoint` where it crosses threads.
pub open spec fn join_point_type(send: bool, at: Span) -> Seq<Tok> {
    if send {
        spell(seq![Word("AsyncJoinPoint")], at)
    } else {
        spell(seq![Word("JoinPoint")], at)
    }
}

/// `JoinPoint { function_name: "..", module_path: .., location: .., args: ARGS, }`
pub open spec fn join_point(
    send: bool,
    qualified: bool,
    fn_name: Seq<char>,
    args: Seq<Tok>,
    at: Span,
) -> Seq<Tok> {
    join_point_type(send, at)
    + spell(seq![Open(Brace), Word("function_name"), Alone(':')], at)
    + seq![Tok::Text(fn_name, at)]
    + spell(
        seq![
            Alone(','), Word("module_path"), Alone(':'), Word("module_path"), Alone('!'),
            Open(Paren), Close, Alone(','), Word("location"), Alone(':'), Word("Location"),
            Open(Brace), Word("file"), Alone(':'), Word("file"), Alone('!'), Open(Paren), Close,
            Alone(','), Word("line"), Alone(':'),
        ],
        at,
    )
    + line_of_call(qualified, at)
    + spell(seq![Alone(','), Close, Alone(','), Word("args"), Alone(':')], at)
    + args
    + spell(seq![Alone(','), Close], at)
}

/// `AspectError::execution(format!("{:?}", __err))`
pub open spec fn execution_error(at: Span) -> Seq<Tok> {
    spell(
        seq![
            Word("AspectError"), Joint(':'), Alone(':'), Word("execution"), Open(Paren),
            Word("format"), Alone('!'), Open(Paren), Quoted("{:?}"), Alone(','), Word("__err"),
            Close, Close,
        ],
        at,
    )
}

/// What the join point runs when the aspect proceeds, for a function that returns a `Result`: the
/// value boxed, or the error printed into an aspect error.
pub open spec fn proceed_with_result(call: Seq<Tok>, send: bool, at: Span) -> Seq<Tok> {
    spell(seq![Word("match")], at)
    + call
    + spell(
        seq![
            Open(Brace), Word("Ok"), Open(Paren), Word("__val"), Close, Joint('='), Alone('>'),
            Word("Ok"), Open(Paren),
        ],
        at,
    )
    + boxed(spell(seq![Word("__val")], at), send, at)
    + spell(
        seq![
            Close, Alone(','), Word("Err"), Open(Paren), Word("__err"), Close, Joint('='),
            Alone('>'), Word("Err"), Open(Paren),
        ],
        at,
    )
    + execution_error(at)
    + spell(seq![Close, Alone(','), Close], at)
}

/// What the join point runs when the aspect proceeds, for any other function: the value boxed.
pub open spec fn proceed_with_value(call: Seq<Tok>, send: bool, at: Span) -> Seq<Tok> {
    spell(seq![Word("let"), Word("__result"), Alone('=')], at)
    + call
    + spell(seq![Alone(';'), Word("Ok"), Open(Paren)], at)
    + boxed(spell(seq![Word("__result")], at), send, at)
    + spell(seq![Close], at)
}

/// What the join point runs when the aspect proceeds.
pub open spec fn proceed(call: Seq<Tok>, is_result: bool, send: bool, at: Span) -> Seq<Tok> {
    if is_result {
        proceed_with_result(call, send, at)
    } else {
        proceed_with_value(call, send, at)
    }
}

/// What becomes of the outcome of `around` around a function that is not asynchronous.
pub open spec fn sync_outcome(is_result: bool, at: Span) -> Seq<Tok> {
    if is_result {
        spell(
            seq![
                Word("match"), Word("__aspect"), Alone('.'), Word("around"), Open(Paren),
                Word("__pjp"), Close, Open(Brace),
            ],
            at,
        )
        + spell(
            seq![
                Word("Ok"), Open(Paren), Word("__boxed_result"), Close, Joint('='), Alone('>'),
                Open(Brace), Word("let"), Word("__inner"), Alone('='), Alone('*'),
                Word("__boxed_result"), Alone('.'), Word("downcast"), Joint(':'), Alone(':'),
                Alone('<'), Word("_"), Alone('>'), Open(Paren), Close, Alone('.'), Word("expect"),
                Open(Paren), Quoted("aspect around() returned wrong type"), Close, Alone(';'),
                Word("Ok"), Open(Paren), Word("__inner"), Close, Close,
            ],
            at,
        )
        + spell(
            seq![
                Word("Err"), Open(Paren), Word("__err"), Close, Joint('='), Alone('>'), Open(Brace),
                Word("Err"), Open(Paren), Word("format"), Alone('!'), Open(Paren), Quoted("{:?}"),
                Alone(','), Word("__err"), Close, Alone('.'), Word("into"), Open(Paren), Close,
                Close, Close, Close,
            ],
            at,
        )
    } else {
        spell(
            seq![
                Word("match"), Word("__aspect"), Alone('.'), Word("around"), Open(Paren),
                Word("__pjp"), Close, Open(Brace),
            ],
            at,
        )
        + spell(
            seq![
                Word("Ok"), Open(Paren), Word("__boxed_result"), Close, Joint('='), Alone('>'),
                Open(Brace), Alone('*'), Word("__boxed_result"), Alone('.'), Word("downcast"),
                Joint(':'), Alone(':'), Alone('<'), Word("_"), Alone('>'), Open(Paren), Close,
                Alone('.'), Word("expect"), Open(Paren),
                Quoted("aspect around() returned wrong type"), Close, Close,
            ],
            at,
        )
        + spell(
            seq![
                Word("Err"), Open(Paren), Word("__err"), Close, Joint('='), Alone('>'), Open(Brace),
                Word("panic"), Alone('!'), Open(Paren), Quoted("aspect around() failed: {:?}"),
                Alone(','), Word("__err"), Close, Alone(';'), Close, Close,
            ],
            at,
        )
    }
}

/// The body of a wrapper around a function that is not asynchronous: the call is handed to the
/// aspect's `around`.
pub open spec fn sync_around(
    expr: Seq<Tok>,
    fn_name: Seq<char>,
    args: Seq<Tok>,
    call: Seq<Tok>,
    is_result: bool,
    at: Span,
) -> Seq<Tok> {
    imports(at) + let_aspect(expr, at)
    + spell(seq![Word("let"), Word("__args"), Alone('=')], at)
    + args
    + spell(seq![Alone(';'), Word("let"), Word("__context"), Alone('=')], at)
    + join_point(false, false, fn_name, spell(seq![Word("__args")], at), at)
    + spell(
        seq![
            Alone(';'), Word("let"), Word("__pjp"), Alone('='), Word("ProceedingJoinPoint"),
            Joint(':'), Alone(':'), Word("new"), Open(Paren), Joint('|'), Alone('|'), Open(Brace),
        ],
        at,
    )
    + proceed(call, is_result, false, at)
    + spell(seq![Close, Alone(','), Word("__context"), Alone(','), Close, Alone(';')], at)
    + sync_outcome(is_result, at)
}

/// `.await` where the advice is asynchronous too, then `;`.
pub open spec fn advice_end(send: bool, at: Span) -> Seq<Tok> {
    if send {
        spell(seq![Alone('.'), Word("await"), Alone(';')], at)
    } else {
        spell(seq![Alone(';')], at)
    }
}

/// `&dyn Any`, or `&(dyn Any + Send + Sync)` where the value crosses threads.
pub open spec fn any_ref(send: bool, at: Span) -> Seq<Tok> {
    if send {
        spell(
            seq![
                Alone('&'), Open(Paren), Word("dyn"), Word("Any"), Alone('+'), Word("Send"),
                Alone('+'), Word("Sync"), Close,
            ],
            at,
        )
    } else {
        spell(seq![Alone('&'), Word("dyn"), Word("Any")], at)
    }
}

/// `__aspect.before(&JOIN_POINT);`
pub open spec fn before_advice(join_point: Seq<Tok>, send: bool, at: Span) -> Seq<Tok> {
    spell(seq![Word("__aspect"), Alone('.'), Word("before"), Open(Paren), Alone('&')], at)
    + join_point
    + spell(seq![Close], at)
    + advice_end(send, at)
}

/// `let __after_context = JOIN_POINT; __aspect.after(&__after_context, &VALUE as &dyn Any);`
pub open spec fn after_advice(
    join_point: Seq<Tok>,
    value: Seq<Tok>,
    send: bool,
    at: Span,
) -> Seq<Tok> {
    spell(seq![Word("let"), Word("__after_context"), Alone('=')], at)
    + join_point
    + spell(
        seq![
            Alone(';'), Word("__aspect"), Alone('.'), Word("after"), Open(Paren), Alone('&'),
            Word("__after_context"), Alone(','), Alone('&'),
        ],
        at,
    )
    + value
    + spell(seq![Word("as")], at)
    + any_ref(send, at)
    + spell(seq![Close], at)
    + advice_end(send, at)
}

/// `let __error_context = JOIN_POINT; let __aspect_err = ..; __aspect.after_error(..);`
pub open spec fn error_advice(join_point: Seq<Tok>, send: bool, at: Span) -> Seq<Tok> {
    spell(seq![Word("let"), Word("__error_context"), Alone('=')], at)
    + join_point
    + spell(seq![Alone(';'), Word("let"), Word("__aspect_err"), Alone('=')], at)
    + execution_error(at)
    + spell(
        seq![
            Alone(';'), Word("__aspect"), Alone('.'), Word("after_error"), Open(Paren), Alone('&'),
            Word("__error_context"), Alone(','), Alone('&'), Word("__aspect_err"), Close,
        ],
        at,
    )
    + advice_end(send, at)
}

/// Awaiting the call of a function that returns a `Result`: `after` sees the value, `after_error`
/// the error, and the outcome is returned as it is.
pub open spec fn advised_result(
    call: Seq<Tok>,
    join_point: Seq<Tok>,
    send: bool,
    at: Span,
) -> Seq<Tok> {
    spell(seq![Word("match")], at)
    + call
    + spell(
        seq![
            Alone('.'), Word("await"), Open(Brace), Word("Ok"), Open(Paren), Word("__value"), Close,
            Joint('='), Alone('>'), Open(Brace),
        ],
        at,
    )
    + after_advice(join_point, spell(seq![Word("__value")], at), send, at)
    + spell(
        seq![
            Word("Ok"), Open(Paren), Word("__value"), Close, Close, Word("Err"), Open(Paren),
            Word("__err"), Close, Joint('='), Alone('>'), Open(Brace),
        ],
        at,
    )
    + error_advice(join_point, send, at)
    + spell(seq![Word("Err"), Open(Paren), Word("__err"), Close, Close, Close], at)
}

/// Awaiting the call of any other function: `after` sees the value, which is returned as it is.
pub open spec fn advised_value(
    call: Seq<Tok>,
    join_point: Seq<Tok>,
    send: bool,
    at: Span,
) -> Seq<Tok> {
    spell(seq![Word("let"), Word("__result"), Alone('=')], at)
    + call
    + spell(seq![Alone('.'), Word("await"), Alone(';')], at)
    + after_advice(join_point, spell(seq![Word("__result")], at), send, at)
    + spell(seq![Word("__result")], at)
}

/// The body of a wrapper that advises an asynchronous function before and after the call. Where
/// `send` holds the advice is asynchronous too, and what it sees crosses threads.
pub open spec fn lifecycle(
    expr: Seq<Tok>,
    captures: Seq<Tok>,
    join_point: Seq<Tok>,
    call: Seq<Tok>,
    is_result: bool,
    send: bool,
    at: Span,
) -> Seq<Tok> {
    imports(at) + let_aspect(expr, at) + captures + before_advice(join_point, send, at) + (
    if is_result {
        advised_result(call, join_point, send, at)
    } else {
        advised_value(call, join_point, send, at)
    })
}

/// The function that takes the value of the awaited call out of its box.
pub open spec fn take_result_fn(at: Span) -> Seq<Tok> {
    spell(
        seq![
            Word("fn"), Word("__async_aspect_take_result"), Alone('<'), Word("T"), Alone(':'),
            Joint('\''), Word("static"), Alone('+'), Word("Send"), Alone('>'), Open(Paren),
            Word("boxed"), Alone(':'), Word("Box"), Alone('<'), Word("dyn"), Word("Any"),
            Alone('+'), Word("Send"), Alone('+'), Word("Sync"), Alone('>'), Close, Joint('-'),
            Alone('>'), Word("T"), Open(Brace), Alone('*'), Word("boxed"), Alone('.'),
            Word("downcast"), Joint(':'), Alone(':'), Alone('<'), Word("T"), Alone('>'),
            Open(Paren), Close, Alone('.'), Word("expect"), Open(Paren),
            Quoted("async aspect around() returned wrong type"), Close, Close,
        ],
        at,
    )
}

/// `let __context = JOIN_POINT; let __pjp = AsyncProceedingJoinPoint::new(..);`
pub open spec fn let_async_pjp(
    join_point: Seq<Tok>,
    call: Seq<Tok>,
    is_result: bool,
    at: Span,
) -> Seq<Tok> {
    spell(seq![Word("let"), Word("__context"), Alone('=')], at)
    + join_point
    + spell(
        seq![
            Alone(';'), Word("let"), Word("__pjp"), Alone('='), Word("AsyncProceedingJoinPoint"),
            Joint(':'), Alone(':'), Word("new"), Open(Paren), Word("move"), Joint('|'), Alone('|'),
            Open(Brace), Word("Box"), Joint(':'), Alone(':'), Word("pin"), Open(Paren),
            Word("async"), Word("move"), Open(Brace),
        ],
        at,
    )
    + proceed(
        call
        + spell(seq![Alone('.'), Word("await")], at),
        is_result,
        true,
        at,
    )
    + spell(
        seq![
            Close, Close, Close, Alone(','), Word("__context"), Alone(','), Close, Alone(';'),
        ],
        at,
    )
}

/// What becomes of the outcome of an asynchronous `around`.
pub open spec fn async_outcome(is_result: bool, at: Span) -> Seq<Tok> {
    if is_result {
        spell(
            seq![
                Word("match"), Word("__aspect"), Alone('.'), Word("around"), Open(Paren),
                Word("__pjp"), Close, Alone('.'), Word("await"), Open(Brace),
            ],
            at,
        )
        + spell(
            seq![
                Word("Ok"), Open(Paren), Word("__boxed_result"), Close, Joint('='), Alone('>'),
                Open(Brace), Word("let"), Word("__result"), Alone('='), Alone('*'),
                Word("__boxed_result"), Alone('.'), Word("downcast"), Joint(':'), Alone(':'),
                Alone('<'), Word("_"), Alone('>'), Open(Paren), Close, Alone('.'), Word("expect"),
                Open(Paren), Quoted("async aspect around() returned wrong type"), Close, Alone(';'),
                Word("Ok"), Open(Paren), Word("__result"), Close, Close,
            ],
            at,
        )
        + spell(
            seq![
                Word("Err"), Open(Paren), Word("__err"), Close, Joint('='), Alone('>'), Word("Err"),
                Open(Paren), Word("format"), Alone('!'), Open(Paren), Quoted("{:?}"), Alone(','),
                Word("__err"), Close, Alone('.'), Word("into"), Open(Paren), Close, Close, Close,
            ],
            at,
        )
    } else {
        spell(
            seq![
                Word("match"), Word("__aspect"), Alone('.'), Word("around"), Open(Paren),
                Word("__pjp"), Close, Alone('.'), Word("await"), Open(Brace),
            ],
            at,
        )
        + spell(
            seq![
                Word("Ok"), Open(Paren), Word("__boxed_result"), Close, Joint('='), Alone('>'),
                Open(Brace), Word("let"), Word("__result"), Alone('='),
                Word("__async_aspect_take_result"), Open(Paren), Word("__boxed_result"), Close,
                Alone(';'), Word("__result"), Close,
            ],
            at,
        )
        + spell(
            seq![
                Word("Err"), Open(Paren), Word("__err"), Close, Joint('='), Alone('>'),
                Word("panic"), Alone('!'), Open(Paren),
                Quoted("async aspect around() failed: {:?}"), Alone(','), Word("__err"), Close,
                Close,
            ],
            at,
        )
    }
}

/// The body of a wrapper that hands an asynchronous call to the aspect's own `around`.
pub open spec fn async_around(
    expr: Seq<Tok>,
    captures: Seq<Tok>,
    join_point: Seq<Tok>,
    call: Seq<Tok>,
    is_result: bool,
    at: Span,
) -> Seq<Tok> {
    (if is_result {
        imports(at)
    } else {
        imports(at) + take_result_fn(at)
    }) + let_aspect(expr, at) + captures + let_async_pjp(join_point, call, is_result, at)
        + async_outcome(is_result, at)
}

/// The error that the compiler reports in place of an expansion.
pub open spec fn impl_trait_error(at: Span) -> Seq<Tok> {
    spell(
        seq![
            Word("compile_error"), Alone('!'), Open(Paren),
            Quoted("async aspects that override around() cannot be applied to async fn returning impl Trait; use a concrete return type or rely on before/after/after_error only"),
            Close, Alone(';'),
        ],
        at,
    )
}

/// The tokens of the attributes that stand before the function, or of those in its body.
pub open spec fn attr_toks(attrs: Seq<AttrView>, inner: bool) -> Seq<Tok>
    decreases attrs.len(),
{
    if attrs.len() == 0 {
        Seq::empty()
    } else {
        let before = attr_toks(attrs.drop_last(), inner);
        if attrs.last().inner == inner {
            before + attrs.last().tokens
        } else {
            before
        }
    }
}

/// The tokens of a part that may be missing.
pub open spec fn part_toks(part: Option<Seq<Tok>>) -> Seq<Tok> {
    match part {
        Some(tokens) => tokens,
        None => Seq::empty(),
    }
}

/// The tokens of a return type.
pub open spec fn output_toks(output: ReturnTypeView) -> Seq<Tok> {
    match output {
        ReturnTypeView::Default => Seq::empty(),
        ReturnTypeView::Type(arrow, ty) => arrow + ty.tokens,
    }
}

/// The tokens between the parentheses of a signature: a variadic parameter is separated from
/// those before it.
pub open spec fn param_toks(sig: FnSigView, at: Span) -> Seq<Tok> {
    match sig.variadic {
        Some(variadic) => if sig.inputs_ended {
            sig.input_tokens + variadic
        } else {
            sig.input_tokens + spell(seq![Alone(',')], at) + variadic
        },
        None => sig.input_tokens,
    }
}

/// The tokens of a signature before the name.
pub open spec fn qualifiers(sig: FnSigView) -> Seq<Tok> {
    sig.constness + part_toks(sig.asyncness) + sig.unsafety + sig.abi + sig.fn_token
}

/// The tokens of a signature with another name.
pub open spec fn renamed_signature(sig: FnSigView, name: Name, at: Span) -> Seq<Tok> {
    qualifiers(sig) + seq![name.tok()] + sig.generics
    + seq![Tok::Open(Paren, sig.paren_span)]
    + param_toks(sig, at)
    + spell(seq![Close], at)
    + output_toks(sig.output) + sig.where_clause
}

/// The tokens of a function item, with another name and without its visibility.
pub open spec fn renamed_item(item: FnItemView, name: Name, at: Span) -> Seq<Tok> {
    attr_toks(item.attrs, false) + renamed_signature(item.sig, name, at)
    + seq![Tok::Open(Brace, item.brace_span)]
    + attr_toks(item.attrs, true) + item.stmts
    + spell(seq![Close], at)
}

/// The signature of the wrapper: that of the function, but for `const`, `unsafe`, the ABI and a
/// variadic parameter.
pub open spec fn wrapper_signature(item: FnItemView, asyncness: Seq<Tok>, at: Span) -> Seq<Tok> {
    item.vis + asyncness
    + spell(seq![Word("fn")], at)
    + seq![item.sig.ident.tok()] + item.sig.generics
    + spell(seq![Open(Paren)], at)
    + item.sig.input_tokens
    + spell(seq![Close], at)
    + output_toks(item.sig.output) + item.sig.where_clause
}

/// The wrapper with the function it stands for: beside it for a method, and in its body for any
/// other function, so that the bare name is found there.
pub open spec fn wrapper(
    item: FnItemView,
    asyncness: Seq<Tok>,
    name: Name,
    body: Seq<Tok>,
    at: Span,
) -> Seq<Tok> {
    if takes_self(item.sig.inputs) {
        renamed_item(item, name, at) + wrapper_signature(item, asyncness, at)
        + spell(seq![Open(Brace)], at)
        + body
        + spell(seq![Close], at)
    } else {
        wrapper_signature(item, asyncness, at)
        + spell(seq![Open(Brace)], at)
        + renamed_item(item, name, at) + body
        + spell(seq![Close], at)
    }
}

/// The name of a function behind its wrapper.
pub open spec fn hidden_name(prefix: Seq<char>, ident: Name) -> Name {
    Name { text: prefix + ident.text, span: ident.span }
}

/// The arguments that hand parameters on, each as a token sequence of its own.
pub open spec fn each_call_arg(pats: Seq<PatternView>) -> Seq<Seq<Tok>> {
    Seq::new(pats.len(), |i: int| call_arg(pats[i]))
}

/// The call of the function behind the wrapper.
pub open spec fn hidden_call(item: FnItemView, name: Name, at: Span) -> Seq<Tok> {
    original_call(name, typed_pats(item.sig.inputs), takes_self(item.sig.inputs), at)
}

/// The variables bound by the parameters of a function.
pub open spec fn param_names(item: FnItemView) -> Seq<Name> {
    all_bound_names(typed_pats(item.sig.inputs))
}

/// The join point of an asynchronous call: the arguments are those that were captured before it.
pub open spec fn captured_join_point(
    fn_name: Seq<char>,
    count: nat,
    send: bool,
    at: Span,
) -> Seq<Tok> {
    join_point(
        send,
        true,
        fn_name,
        args_vec(singletons(capture_names(count, at)), send, at),
        at,
    )
}

/// The body that advises an asynchronous function before and after the call.
pub open spec fn lifecycle_body(
    aspect: AspectView,
    item: FnItemView,
    name: Name,
    at: Span,
) -> Seq<Tok> {
    lifecycle(
        aspect.aspect_expr,
        captures(param_names(item), at),
        captured_join_point(item.sig.ident.text, param_names(item).len(), false, at),
        hidden_call(item, name, at),
        returns_result(item.sig.output),
        false,
        at,
    )
}

/// The body that hands a call to the aspect's `around`.
pub open spec fn sync_body(aspect: AspectView, item: FnItemView, name: Name, at: Span) -> Seq<Tok> {
    sync_around(
        aspect.aspect_expr,
        item.sig.ident.text,
        args_vec(each_call_arg(typed_pats(item.sig.inputs)), false, at),
        hidden_call(item, name, at),
        returns_result(item.sig.output),
        at,
    )
}

/// The body of a wrapper whose aspect is asynchronous: the aspect's own `around` where it has one,
/// and else advice before and after the call. A value of an unnamed type cannot come back out of
/// the box that `around` hands it over in, so there the compiler reports an error.
pub open spec fn async_advice(
    expr: Seq<Tok>,
    captures: Seq<Tok>,
    join_point: Seq<Tok>,
    call: Seq<Tok>,
    is_result: bool,
    returns_impl_trait: bool,
    has_custom_async_around: bool,
    at: Span,
) -> Seq<Tok> {
    if !has_custom_async_around {
        lifecycle(expr, captures, join_point, call, is_result, true, at)
    } else if !is_result && returns_impl_trait {
        impl_trait_error(at)
    } else {
        async_around(expr, captures, join_point, call, is_result, at)
    }
}

/// The body of the wrapper of an asynchronous aspect.
pub open spec fn async_body(
    aspect: AspectView,
    item: FnItemView,
    name: Name,
    at: Span,
) -> Seq<Tok> {
    async_advice(
        aspect.aspect_expr,
        captures(param_names(item), at),
        captured_join_point(item.sig.ident.text, param_names(item).len(), true, at),
        hidden_call(item, name, at),
        returns_result(item.sig.output),
        returns_impl_trait(item.sig.output),
        aspect.has_custom_async_around,
        at,
    )
}

/// What weaving an aspect makes of a function: `around` for one that is not asynchronous, and
/// advice before and after the call for one that is.
pub open spec fn aspect_wrapper(aspect: AspectView, item: FnItemView, at: Span) -> Seq<Tok> {
    let name = hidden_name("__aspect_original_"@, item.sig.ident);
    let body = if item.sig.asyncness is Some {
        lifecycle_body(aspect, item, name, at)
    } else {
        sync_body(aspect, item, name, at)
    };
    wrapper(item, part_toks(item.sig.asyncness), name, body, at)
}

/// What weaving an asynchronous aspect makes of a function: `around` where the aspect has one of
/// its own, and else advice before and after the call.
pub open spec fn async_aspect_wrapper(aspect: AspectView, item: FnItemView, at: Span) -> Seq<Tok> {
    let name = hidden_name("__async_aspect_original_"@, item.sig.ident);
    let body = async_body(aspect, item, name, at);
    wrapper(item, spell(seq![Word("async")], at), name, body, at)
}

} // verus!
