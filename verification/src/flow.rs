//! How values and errors flow through `around`.

use crate::builder::spell;
use crate::builder::Piece::{Alone, Close, Joint, Open, Quoted, Word};
use crate::laws::{holds, lemma_holds_itself, lemma_holds_right, lemma_wrapper_holds};
use crate::layout::{law_what_an_asynchronous_aspect_weaves, law_what_is_woven};
use crate::syntax::{
    AspectView, FnItemView, Name, ParamView, PatternShapeView, ReturnTypeView, TyShapeView,
};
use crate::templates::{
    args_vec, aspect_wrapper, async_advice, async_aspect_wrapper, captured_join_point, captures,
    each_call_arg, original_call, param_names, sync_around,
};
use crate::tokens::Delim::{Brace, Paren};
use crate::tokens::Tok;
use crate::wording::{
    law_arguments_stand_in_order, law_body_around_a_call, law_body_of_an_asynchronous_aspect,
};
use proc_macro2::Span;
use vstd::prelude::*;

verus! {

#[verifier::rlimit(60)]
proof fn lemma_result_in_sync_body(
    expr: Seq<Tok>,
    fn_name: Seq<char>,
    args: Seq<Tok>,
    call: Seq<Tok>,
    at: Span,
)
    ensures
        holds(
            sync_around(expr, fn_name, args, call, true, at),
            spell(
                seq![
                    Alone(';'), Word("let"), Word("__pjp"), Alone('='), Word("ProceedingJoinPoint"),
                    Joint(':'), Alone(':'), Word("new"), Open(Paren), Joint('|'), Alone('|'),
                    Open(Brace),
                ],
                at,
            )
            + spell(seq![Word("match")], at)
            + call
            + spell(
                seq![
                    Open(Brace), Word("Ok"), Open(Paren), Word("__val"), Close, Joint('='),
                    Alone('>'), Word("Ok"), Open(Paren),
                ],
                at,
            )
            + spell(seq![Word("Box"), Joint(':'), Alone(':'), Word("new"), Open(Paren)], at)
            + spell(seq![Word("__val")], at)
            + spell(seq![Close, Word("as"), Word("Box"), Alone('<')], at)
            + spell(seq![Word("dyn"), Word("Any")], at)
            + spell(seq![Alone('>')], at)
            + spell(
                seq![
                    Close, Alone(','), Word("Err"), Open(Paren), Word("__err"), Close, Joint('='),
                    Alone('>'), Word("Err"), Open(Paren),
                ],
                at,
            )
            + spell(
                seq![
                    Word("AspectError"), Joint(':'), Alone(':'), Word("execution"), Open(Paren),
                    Word("format"), Alone('!'), Open(Paren), Quoted("{:?}"), Alone(','),
                    Word("__err"), Close, Close,
                ],
                at,
            )
            + spell(seq![Close, Alone(','), Close], at)
            + spell(seq![Close, Alone(','), Word("__context"), Alone(','), Close, Alone(';')], at)
            + spell(
                seq![
                    Word("match"), Word("__aspect"), Alone('.'), Word("around"), Open(Paren),
                    Word("__pjp"), Close, Open(Brace),
                ],
                at,
            )
            + spell(
                seq![
                    Word("Ok"), Open(Paren), Word("__boxed_result"), Close, Joint('='), Alone('>'),
                    Open(Brace), Word("let"), Word("__inner"), Alone('='), Alone('*'),
                    Word("__boxed_result"), Alone('.'), Word("downcast"), Joint(':'), Alone(':'),
                    Alone('<'), Word("_"), Alone('>'), Open(Paren), Close, Alone('.'),
                    Word("expect"), Open(Paren), Quoted("aspect around() returned wrong type"),
                    Close, Alone(';'), Word("Ok"), Open(Paren), Word("__inner"), Close, Close,
                ],
                at,
            )
            + spell(
                seq![
                    Word("Err"), Open(Paren), Word("__err"), Close, Joint('='), Alone('>'),
                    Open(Brace), Word("Err"), Open(Paren), Word("format"), Alone('!'), Open(Paren),
                    Quoted("{:?}"), Alone(','), Word("__err"), Close, Alone('.'), Word("into"),
                    Open(Paren), Close, Close, Close, Close,
                ],
                at,
            ),
        ),
{
    law_body_around_a_call(expr, fn_name, args, call, at);
    let run = spell(
            seq![
                Alone(';'), Word("let"), Word("__pjp"), Alone('='), Word("ProceedingJoinPoint"),
                Joint(':'), Alone(':'), Word("new"), Open(Paren), Joint('|'), Alone('|'),
                Open(Brace),
            ],
            at,
        )
        + spell(seq![Word("match")], at)
        + call
        + spell(
            seq![
                Open(Brace), Word("Ok"), Open(Paren), Word("__val"), Close, Joint('='), Alone('>'),
                Word("Ok"), Open(Paren),
            ],
            at,
        )
        + spell(seq![Word("Box"), Joint(':'), Alone(':'), Word("new"), Open(Paren)], at)
        + spell(seq![Word("__val")], at)
        + spell(seq![Close, Word("as"), Word("Box"), Alone('<')], at)
        + spell(seq![Word("dyn"), Word("Any")], at)
        + spell(seq![Alone('>')], at)
        + spell(
            seq![
                Close, Alone(','), Word("Err"), Open(Paren), Word("__err"), Close, Joint('='),
                Alone('>'), Word("Err"), Open(Paren),
            ],
            at,
        )
        + spell(
            seq![
                Word("AspectError"), Joint(':'), Alone(':'), Word("execution"), Open(Paren),
                Word("format"), Alone('!'), Open(Paren), Quoted("{:?}"), Alone(','), Word("__err"),
                Close, Close,
            ],
            at,
        )
        + spell(seq![Close, Alone(','), Close], at)
        + spell(seq![Close, Alone(','), Word("__context"), Alone(','), Close, Alone(';')], at)
        + spell(
            seq![
                Word("match"), Word("__aspect"), Alone('.'), Word("around"), Open(Paren),
                Word("__pjp"), Close, Open(Brace),
            ],
            at,
        )
        + spell(
            seq![
                Word("Ok"), Open(Paren), Word("__boxed_result"), Close, Joint('='), Alone('>'),
                Open(Brace), Word("let"), Word("__inner"), Alone('='), Alone('*'),
                Word("__boxed_result"), Alone('.'), Word("downcast"), Joint(':'), Alone(':'),
                Alone('<'), Word("_"), Alone('>'), Open(Paren), Close, Alone('.'), Word("expect"),
                Open(Paren), Quoted("aspect around() returned wrong type"), Close, Alone(';'),
                Word("Ok"), Open(Paren), Word("__inner"), Close, Close,
            ],
            at,
        )
        + spell(
            seq![
                Word("Err"), Open(Paren), Word("__err"), Close, Joint('='), Alone('>'), Open(Brace),
                Word("Err"), Open(Paren), Word("format"), Alone('!'), Open(Paren), Quoted("{:?}"),
                Alone(','), Word("__err"), Close, Alone('.'), Word("into"), Open(Paren), Close,
                Close, Close, Close,
            ],
            at,
        );
    let before = spell(
            seq![
                Word("use"), Joint(':'), Alone(':'), Word("aspect_core"), Joint(':'), Alone(':'),
                Word("prelude"), Joint(':'), Alone(':'), Alone('*'), Alone(';'), Word("use"),
                Joint(':'), Alone(':'), Word("std"), Joint(':'), Alone(':'), Word("any"),
                Joint(':'), Alone(':'), Word("Any"), Alone(';'),
            ],
            at,
        )
        + spell(seq![Word("let"), Word("__aspect"), Alone('=')], at)
        + expr
        + spell(seq![Alone(';')], at)
        + spell(seq![Word("let"), Word("__args"), Alone('=')], at)
        + args
        + spell(seq![Alone(';'), Word("let"), Word("__context"), Alone('=')], at)
        + spell(seq![Word("JoinPoint")], at)
        + spell(seq![Open(Brace), Word("function_name"), Alone(':')], at)
        + seq![Tok::Text(fn_name, at)]
        + spell(
            seq![
                Alone(','), Word("module_path"), Alone(':'), Word("module_path"), Alone('!'),
                Open(Paren), Close, Alone(','), Word("location"), Alone(':'), Word("Location"),
                Open(Brace), Word("file"), Alone(':'), Word("file"), Alone('!'), Open(Paren), Close,
                Alone(','), Word("line"), Alone(':'),
            ],
            at,
        )
        + spell(seq![Word("line"), Alone('!'), Open(Paren), Close], at)
        + spell(seq![Alone(','), Close, Alone(','), Word("args"), Alone(':')], at)
        + spell(seq![Word("__args")], at)
        + spell(seq![Alone(','), Close], at);
    assert(sync_around(expr, fn_name, args, call, true, at) =~= before + run);
    lemma_holds_itself(run);
    lemma_holds_right(before, run, run);
}

#[verifier::rlimit(60)]
proof fn lemma_value_in_sync_body(
    expr: Seq<Tok>,
    fn_name: Seq<char>,
    args: Seq<Tok>,
    call: Seq<Tok>,
    at: Span,
)
    ensures
        holds(
            sync_around(expr, fn_name, args, call, false, at),
            spell(
                seq![
                    Alone(';'), Word("let"), Word("__pjp"), Alone('='), Word("ProceedingJoinPoint"),
                    Joint(':'), Alone(':'), Word("new"), Open(Paren), Joint('|'), Alone('|'),
                    Open(Brace),
                ],
                at,
            )
            + spell(seq![Word("let"), Word("__result"), Alone('=')], at)
            + call
            + spell(seq![Alone(';'), Word("Ok"), Open(Paren)], at)
            + spell(seq![Word("Box"), Joint(':'), Alone(':'), Word("new"), Open(Paren)], at)
            + spell(seq![Word("__result")], at)
            + spell(seq![Close, Word("as"), Word("Box"), Alone('<')], at)
            + spell(seq![Word("dyn"), Word("Any")], at)
            + spell(seq![Alone('>')], at)
            + spell(seq![Close], at)
            + spell(seq![Close, Alone(','), Word("__context"), Alone(','), Close, Alone(';')], at)
            + spell(
                seq![
                    Word("match"), Word("__aspect"), Alone('.'), Word("around"), Open(Paren),
                    Word("__pjp"), Close, Open(Brace),
                ],
                at,
            )
            + spell(
                seq![
                    Word("Ok"), Open(Paren), Word("__boxed_result"), Close, Joint('='), Alone('>'),
                    Open(Brace), Alone('*'), Word("__boxed_result"), Alone('.'), Word("downcast"),
                    Joint(':'), Alone(':'), Alone('<'), Word("_"), Alone('>'), Open(Paren), Close,
                    Alone('.'), Word("expect"), Open(Paren),
                    Quoted("aspect around() returned wrong type"), Close, Close,
                ],
                at,
            )
            + spell(
                seq![
                    Word("Err"), Open(Paren), Word("__err"), Close, Joint('='), Alone('>'),
                    Open(Brace), Word("panic"), Alone('!'), Open(Paren),
                    Quoted("aspect around() failed: {:?}"), Alone(','), Word("__err"), Close,
                    Alone(';'), Close, Close,
                ],
                at,
            ),
        ),
{
    law_body_around_a_call(expr, fn_name, args, call, at);
    let run = spell(
            seq![
                Alone(';'), Word("let"), Word("__pjp"), Alone('='), Word("ProceedingJoinPoint"),
                Joint(':'), Alone(':'), Word("new"), Open(Paren), Joint('|'), Alone('|'),
                Open(Brace),
            ],
            at,
        )
        + spell(seq![Word("let"), Word("__result"), Alone('=')], at)
        + call
        + spell(seq![Alone(';'), Word("Ok"), Open(Paren)], at)
        + spell(seq![Word("Box"), Joint(':'), Alone(':'), Word("new"), Open(Paren)], at)
        + spell(seq![Word("__result")], at)
        + spell(seq![Close, Word("as"), Word("Box"), Alone('<')], at)
        + spell(seq![Word("dyn"), Word("Any")], at)
        + spell(seq![Alone('>')], at)
        + spell(seq![Close], at)
        + spell(seq![Close, Alone(','), Word("__context"), Alone(','), Close, Alone(';')], at)
        + spell(
            seq![
                Word("match"), Word("__aspect"), Alone('.'), Word("around"), Open(Paren),
                Word("__pjp"), Close, Open(Brace),
            ],
            at,
        )
        + spell(
            seq![
                Word("Ok"), Open(Paren), Word("__boxed_result"), Close, Joint('='), Alone('>'),
                Open(Brace), Alone('*'), Word("__boxed_result"), Alone('.'), Word("downcast"),
                Joint(':'), Alone(':'), Alone('<'), Word("_"), Alone('>'), Open(Paren), Close,
                Alone('.'), Word("expect"), Open(Paren),
                Quoted("aspect around() returned wrong type"), Close, Close,
            ],
            at,
        )
        + spell(
            seq![
                Word("Err"), Open(Paren), Word("__err"), Close, Joint('='), Alone('>'), Open(Brace),
                Word("panic"), Alone('!'), Open(Paren), Quoted("aspect around() failed: {:?}"),
                Alone(','), Word("__err"), Close, Alone(';'), Close, Close,
            ],
            at,
        );
    let before = spell(
            seq![
                Word("use"), Joint(':'), Alone(':'), Word("aspect_core"), Joint(':'), Alone(':'),
                Word("prelude"), Joint(':'), Alone(':'), Alone('*'), Alone(';'), Word("use"),
                Joint(':'), Alone(':'), Word("std"), Joint(':'), Alone(':'), Word("any"),
                Joint(':'), Alone(':'), Word("Any"), Alone(';'),
            ],
            at,
        )
        + spell(seq![Word("let"), Word("__aspect"), Alone('=')], at)
        + expr
        + spell(seq![Alone(';')], at)
        + spell(seq![Word("let"), Word("__args"), Alone('=')], at)
        + args
        + spell(seq![Alone(';'), Word("let"), Word("__context"), Alone('=')], at)
        + spell(seq![Word("JoinPoint")], at)
        + spell(seq![Open(Brace), Word("function_name"), Alone(':')], at)
        + seq![Tok::Text(fn_name, at)]
        + spell(
            seq![
                Alone(','), Word("module_path"), Alone(':'), Word("module_path"), Alone('!'),
                Open(Paren), Close, Alone(','), Word("location"), Alone(':'), Word("Location"),
                Open(Brace), Word("file"), Alone(':'), Word("file"), Alone('!'), Open(Paren), Close,
                Alone(','), Word("line"), Alone(':'),
            ],
            at,
        )
        + spell(seq![Word("line"), Alone('!'), Open(Paren), Close], at)
        + spell(seq![Alone(','), Close, Alone(','), Word("args"), Alone(':')], at)
        + spell(seq![Word("__args")], at)
        + spell(seq![Alone(','), Close], at);
    assert(sync_around(expr, fn_name, args, call, false, at) =~= before + run);
    lemma_holds_itself(run);
    lemma_holds_right(before, run, run);
}

#[verifier::rlimit(60)]
proof fn lemma_result_in_async_body(
    expr: Seq<Tok>,
    kept: Seq<Tok>,
    jp: Seq<Tok>,
    call: Seq<Tok>,
    is_impl_trait: bool,
    at: Span,
)
    ensures
        holds(
            async_advice(expr, kept, jp, call, true, is_impl_trait, true, at),
            spell(
                seq![
                    Alone(';'), Word("let"), Word("__pjp"), Alone('='),
                    Word("AsyncProceedingJoinPoint"), Joint(':'), Alone(':'), Word("new"),
                    Open(Paren), Word("move"), Joint('|'), Alone('|'), Open(Brace), Word("Box"),
                    Joint(':'), Alone(':'), Word("pin"), Open(Paren), Word("async"), Word("move"),
                    Open(Brace),
                ],
                at,
            )
            + spell(seq![Word("match")], at)
            + call
            + spell(seq![Alone('.'), Word("await")], at)
            + spell(
                seq![
                    Open(Brace), Word("Ok"), Open(Paren), Word("__val"), Close, Joint('='),
                    Alone('>'), Word("Ok"), Open(Paren),
                ],
                at,
            )
            + spell(seq![Word("Box"), Joint(':'), Alone(':'), Word("new"), Open(Paren)], at)
            + spell(seq![Word("__val")], at)
            + spell(seq![Close, Word("as"), Word("Box"), Alone('<')], at)
            + spell(
                seq![
                    Word("dyn"), Word("Any"), Alone('+'), Word("Send"), Alone('+'), Word("Sync"),
                ],
                at,
            )
            + spell(seq![Alone('>')], at)
            + spell(
                seq![
                    Close, Alone(','), Word("Err"), Open(Paren), Word("__err"), Close, Joint('='),
                    Alone('>'), Word("Err"), Open(Paren),
                ],
                at,
            )
            + spell(
                seq![
                    Word("AspectError"), Joint(':'), Alone(':'), Word("execution"), Open(Paren),
                    Word("format"), Alone('!'), Open(Paren), Quoted("{:?}"), Alone(','),
                    Word("__err"), Close, Close,
                ],
                at,
            )
            + spell(seq![Close, Alone(','), Close], at)
            + spell(
                seq![
                    Close, Close, Close, Alone(','), Word("__context"), Alone(','), Close,
                    Alone(';'),
                ],
                at,
            )
            + spell(
                seq![
                    Word("match"), Word("__aspect"), Alone('.'), Word("around"), Open(Paren),
                    Word("__pjp"), Close, Alone('.'), Word("await"), Open(Brace),
                ],
                at,
            )
            + spell(
                seq![
                    Word("Ok"), Open(Paren), Word("__boxed_result"), Close, Joint('='), Alone('>'),
                    Open(Brace), Word("let"), Word("__result"), Alone('='), Alone('*'),
                    Word("__boxed_result"), Alone('.'), Word("downcast"), Joint(':'), Alone(':'),
                    Alone('<'), Word("_"), Alone('>'), Open(Paren), Close, Alone('.'),
                    Word("expect"), Open(Paren),
                    Quoted("async aspect around() returned wrong type"), Close, Alone(';'),
                    Word("Ok"), Open(Paren), Word("__result"), Close, Close,
                ],
                at,
            )
            + spell(
                seq![
                    Word("Err"), Open(Paren), Word("__err"), Close, Joint('='), Alone('>'),
                    Word("Err"), Open(Paren), Word("format"), Alone('!'), Open(Paren),
                    Quoted("{:?}"), Alone(','), Word("__err"), Close, Alone('.'), Word("into"),
                    Open(Paren), Close, Close, Close,
                ],
                at,
            ),
        ),
{
    law_body_of_an_asynchronous_aspect(expr, kept, jp, call, true, is_impl_trait, at);
    let run = spell(
            seq![
                Alone(';'), Word("let"), Word("__pjp"), Alone('='),
                Word("AsyncProceedingJoinPoint"), Joint(':'), Alone(':'), Word("new"), Open(Paren),
                Word("move"), Joint('|'), Alone('|'), Open(Brace), Word("Box"), Joint(':'),
                Alone(':'), Word("pin"), Open(Paren), Word("async"), Word("move"), Open(Brace),
            ],
            at,
        )
        + spell(seq![Word("match")], at)
        + call
        + spell(seq![Alone('.'), Word("await")], at)
        + spell(
            seq![
                Open(Brace), Word("Ok"), Open(Paren), Word("__val"), Close, Joint('='), Alone('>'),
                Word("Ok"), Open(Paren),
            ],
            at,
        )
        + spell(seq![Word("Box"), Joint(':'), Alone(':'), Word("new"), Open(Paren)], at)
        + spell(seq![Word("__val")], at)
        + spell(seq![Close, Word("as"), Word("Box"), Alone('<')], at)
        + spell(
            seq![
                Word("dyn"), Word("Any"), Alone('+'), Word("Send"), Alone('+'), Word("Sync"),
            ],
            at,
        )
        + spell(seq![Alone('>')], at)
        + spell(
            seq![
                Close, Alone(','), Word("Err"), Open(Paren), Word("__err"), Close, Joint('='),
                Alone('>'), Word("Err"), Open(Paren),
            ],
            at,
        )
        + spell(
            seq![
                Word("AspectError"), Joint(':'), Alone(':'), Word("execution"), Open(Paren),
                Word("format"), Alone('!'), Open(Paren), Quoted("{:?}"), Alone(','), Word("__err"),
                Close, Close,
            ],
            at,
        )
        + spell(seq![Close, Alone(','), Close], at)
        + spell(
            seq![
                Close, Close, Close, Alone(','), Word("__context"), Alone(','), Close, Alone(';'),
            ],
            at,
        )
        + spell(
            seq![
                Word("match"), Word("__aspect"), Alone('.'), Word("around"), Open(Paren),
                Word("__pjp"), Close, Alone('.'), Word("await"), Open(Brace),
            ],
            at,
        )
        + spell(
            seq![
                Word("Ok"), Open(Paren), Word("__boxed_result"), Close, Joint('='), Alone('>'),
                Open(Brace), Word("let"), Word("__result"), Alone('='), Alone('*'),
                Word("__boxed_result"), Alone('.'), Word("downcast"), Joint(':'), Alone(':'),
                Alone('<'), Word("_"), Alone('>'), Open(Paren), Close, Alone('.'), Word("expect"),
                Open(Paren), Quoted("async aspect around() returned wrong type"), Close, Alone(';'),
                Word("Ok"), Open(Paren), Word("__result"), Close, Close,
            ],
            at,
        )
        + spell(
            seq![
                Word("Err"), Open(Paren), Word("__err"), Close, Joint('='), Alone('>'), Word("Err"),
                Open(Paren), Word("format"), Alone('!'), Open(Paren), Quoted("{:?}"), Alone(','),
                Word("__err"), Close, Alone('.'), Word("into"), Open(Paren), Close, Close, Close,
            ],
            at,
        );
    let before = spell(
            seq![
                Word("use"), Joint(':'), Alone(':'), Word("aspect_core"), Joint(':'), Alone(':'),
                Word("prelude"), Joint(':'), Alone(':'), Alone('*'), Alone(';'), Word("use"),
                Joint(':'), Alone(':'), Word("std"), Joint(':'), Alone(':'), Word("any"),
                Joint(':'), Alone(':'), Word("Any"), Alone(';'),
            ],
            at,
        )
        + spell(seq![Word("let"), Word("__aspect"), Alone('=')], at)
        + expr
        + spell(seq![Alone(';')], at)
        + kept
        + spell(seq![Word("let"), Word("__context"), Alone('=')], at)
        + jp;
    assert(async_advice(expr, kept, jp, call, true, is_impl_trait, true, at) =~= before + run);
    lemma_holds_itself(run);
    lemma_holds_right(before, run, run);
}

#[verifier::rlimit(60)]
proof fn lemma_value_in_async_body(
    expr: Seq<Tok>,
    kept: Seq<Tok>,
    jp: Seq<Tok>,
    call: Seq<Tok>,
    at: Span,
)
    ensures
        holds(
            async_advice(expr, kept, jp, call, false, false, true, at),
            spell(
                seq![
                    Alone(';'), Word("let"), Word("__pjp"), Alone('='),
                    Word("AsyncProceedingJoinPoint"), Joint(':'), Alone(':'), Word("new"),
                    Open(Paren), Word("move"), Joint('|'), Alone('|'), Open(Brace), Word("Box"),
                    Joint(':'), Alone(':'), Word("pin"), Open(Paren), Word("async"), Word("move"),
                    Open(Brace),
                ],
                at,
            )
            + spell(seq![Word("let"), Word("__result"), Alone('=')], at)
            + call
            + spell(seq![Alone('.'), Word("await")], at)
            + spell(seq![Alone(';'), Word("Ok"), Open(Paren)], at)
            + spell(seq![Word("Box"), Joint(':'), Alone(':'), Word("new"), Open(Paren)], at)
            + spell(seq![Word("__result")], at)
            + spell(seq![Close, Word("as"), Word("Box"), Alone('<')], at)
            + spell(
                seq![
                    Word("dyn"), Word("Any"), Alone('+'), Word("Send"), Alone('+'), Word("Sync"),
                ],
                at,
            )
            + spell(seq![Alone('>')], at)
            + spell(seq![Close], at)
            + spell(
                seq![
                    Close, Close, Close, Alone(','), Word("__context"), Alone(','), Close,
                    Alone(';'),
                ],
                at,
            )
            + spell(
                seq![
                    Word("match"), Word("__aspect"), Alone('.'), Word("around"), Open(Paren),
                    Word("__pjp"), Close, Alone('.'), Word("await"), Open(Brace),
                ],
                at,
            )
            + spell(
                seq![
                    Word("Ok"), Open(Paren), Word("__boxed_result"), Close, Joint('='), Alone('>'),
                    Open(Brace), Word("let"), Word("__result"), Alone('='),
                    Word("__async_aspect_take_result"), Open(Paren), Word("__boxed_result"), Close,
                    Alone(';'), Word("__result"), Close,
                ],
                at,
            )
            + spell(
                seq![
                    Word("Err"), Open(Paren), Word("__err"), Close, Joint('='), Alone('>'),
                    Word("panic"), Alone('!'), Open(Paren),
                    Quoted("async aspect around() failed: {:?}"), Alone(','), Word("__err"), Close,
                    Close,
                ],
                at,
            ),
        ),
{
    law_body_of_an_asynchronous_aspect(expr, kept, jp, call, false, false, at);
    let run = spell(
            seq![
                Alone(';'), Word("let"), Word("__pjp"), Alone('='),
                Word("AsyncProceedingJoinPoint"), Joint(':'), Alone(':'), Word("new"), Open(Paren),
                Word("move"), Joint('|'), Alone('|'), Open(Brace), Word("Box"), Joint(':'),
                Alone(':'), Word("pin"), Open(Paren), Word("async"), Word("move"), Open(Brace),
            ],
            at,
        )
        + spell(seq![Word("let"), Word("__result"), Alone('=')], at)
        + call
        + spell(seq![Alone('.'), Word("await")], at)
        + spell(seq![Alone(';'), Word("Ok"), Open(Paren)], at)
        + spell(seq![Word("Box"), Joint(':'), Alone(':'), Word("new"), Open(Paren)], at)
        + spell(seq![Word("__result")], at)
        + spell(seq![Close, Word("as"), Word("Box"), Alone('<')], at)
        + spell(
            seq![
                Word("dyn"), Word("Any"), Alone('+'), Word("Send"), Alone('+'), Word("Sync"),
            ],
            at,
        )
        + spell(seq![Alone('>')], at)
        + spell(seq![Close], at)
        + spell(
            seq![
                Close, Close, Close, Alone(','), Word("__context"), Alone(','), Close, Alone(';'),
            ],
            at,
        )
        + spell(
            seq![
                Word("match"), Word("__aspect"), Alone('.'), Word("around"), Open(Paren),
                Word("__pjp"), Close, Alone('.'), Word("await"), Open(Brace),
            ],
            at,
        )
        + spell(
            seq![
                Word("Ok"), Open(Paren), Word("__boxed_result"), Close, Joint('='), Alone('>'),
                Open(Brace), Word("let"), Word("__result"), Alone('='),
                Word("__async_aspect_take_result"), Open(Paren), Word("__boxed_result"), Close,
                Alone(';'), Word("__result"), Close,
            ],
            at,
        )
        + spell(
            seq![
                Word("Err"), Open(Paren), Word("__err"), Close, Joint('='), Alone('>'),
                Word("panic"), Alone('!'), Open(Paren),
                Quoted("async aspect around() failed: {:?}"), Alone(','), Word("__err"), Close,
                Close,
            ],
            at,
        );
    let before = spell(
            seq![
                Word("use"), Joint(':'), Alone(':'), Word("aspect_core"), Joint(':'), Alone(':'),
                Word("prelude"), Joint(':'), Alone(':'), Alone('*'), Alone(';'), Word("use"),
                Joint(':'), Alone(':'), Word("std"), Joint(':'), Alone(':'), Word("any"),
                Joint(':'), Alone(':'), Word("Any"), Alone(';'),
            ],
            at,
        )
        + spell(
            seq![
                Word("fn"), Word("__async_aspect_take_result"), Alone('<'), Word("T"), Alone(':'),
                Joint('\''), Word("static"), Alone('+'), Word("Send"), Alone('>'), Open(Paren),
                Word("boxed"), Alone(':'), Word("Box"), Alone('<'), Word("dyn"), Word("Any"),
                Alone('+'), Word("Send"), Alone('+'), Word("Sync"), Alone('>'), Close, Joint('-'),
                Alone('>'), Word("T"), Open(Brace), Alone('*'), Word("boxed"), Alone('.'),
                Word("downcast"), Joint(':'), Alone(':'), Alone('<'), Word("T"), Alone('>'),
                Open(Paren), Close, Alone('.'), Word("expect"), Open(Paren),
                Quoted("async aspect around() returned wrong type"), Close, Close,
            ],
            at,
        )
        + spell(seq![Word("let"), Word("__aspect"), Alone('=')], at)
        + expr
        + spell(seq![Alone(';')], at)
        + kept
        + spell(seq![Word("let"), Word("__context"), Alone('=')], at)
        + jp;
    assert(async_advice(expr, kept, jp, call, false, false, true, at) =~= before + run);
    lemma_holds_itself(run);
    lemma_holds_right(before, run, run);
}

/// A function that is not asynchronous and returns a `Result`, whatever its parameters are: what is
/// handed over for `around` calls it with its own parameters, puts the value that it returns into
/// the box and turns its error into the aspect's. So `around` sees a failure as one, and what comes
/// out of the box is the value that went into it; an error that comes back is returned.
pub proof fn law_result_flows_through_around(
    aspect: AspectView,
    item: FnItemView,
    parts: Seq<Seq<Tok>>,
    at: Span,
)
    requires
        item.sig.asyncness is None,
        (match item.sig.output {
            ReturnTypeView::Type(_, ty) => match ty.shape {
                TyShapeView::Path(names) => names.len() > 0 && names.last().text == "Result"@,
                _ => false,
            },
            ReturnTypeView::Default => false,
        }),
        ({
            let pats = item.sig.inputs.filter_map(
                |param: ParamView|
                    match param {
                        ParamView::Typed(pat) => Some(pat),
                        ParamView::Receiver => None,
                    },
            );
            let method = exists|i: int|
                0 <= i < item.sig.inputs.len() && #[trigger] item.sig.inputs[i] is Receiver;
            &&& parts.len() == pats.len()
            &&& forall|i: int|
                0 <= i < pats.len() ==> #[trigger] parts[i] == (if i == 0 && !method {
                    Seq::empty()
                } else {
                    spell(seq![Alone(',')], at)
                }) + match pats[i].shape {
                    PatternShapeView::Ident(name, false) => seq![Tok::Ident(name.text, name.span)],
                    _ => pats[i].tokens,
                }
        }),
    ensures
        ({
            let method = exists|i: int|
                0 <= i < item.sig.inputs.len() && #[trigger] item.sig.inputs[i] is Receiver;
            let hidden = Tok::Ident(
                "__aspect_original_"@ + item.sig.ident.text,
                item.sig.ident.span,
            );
            let call = (if method {
                spell(seq![Word("Self"), Joint(':'), Alone(':')], at) + seq![hidden] + spell(
                    seq![Open(Paren), Word("self")],
                    at,
                ) + parts.flatten() + spell(seq![Close], at)
            } else {
                seq![hidden] + spell(seq![Open(Paren)], at) + parts.flatten() + spell(
                    seq![Close],
                    at,
                )
            });
            holds(
                aspect_wrapper(aspect, item, at),
                spell(
                    seq![
                        Alone(';'), Word("let"), Word("__pjp"), Alone('='),
                        Word("ProceedingJoinPoint"), Joint(':'), Alone(':'), Word("new"),
                        Open(Paren), Joint('|'), Alone('|'), Open(Brace),
                    ],
                    at,
                )
                + spell(seq![Word("match")], at)
                + call
                + spell(
                    seq![
                        Open(Brace), Word("Ok"), Open(Paren), Word("__val"), Close, Joint('='),
                        Alone('>'), Word("Ok"), Open(Paren),
                    ],
                    at,
                )
                + spell(seq![Word("Box"), Joint(':'), Alone(':'), Word("new"), Open(Paren)], at)
                + spell(seq![Word("__val")], at)
                + spell(seq![Close, Word("as"), Word("Box"), Alone('<')], at)
                + spell(seq![Word("dyn"), Word("Any")], at)
                + spell(seq![Alone('>')], at)
                + spell(
                    seq![
                        Close, Alone(','), Word("Err"), Open(Paren), Word("__err"), Close,
                        Joint('='), Alone('>'), Word("Err"), Open(Paren),
                    ],
                    at,
                )
                + spell(
                    seq![
                        Word("AspectError"), Joint(':'), Alone(':'), Word("execution"), Open(Paren),
                        Word("format"), Alone('!'), Open(Paren), Quoted("{:?}"), Alone(','),
                        Word("__err"), Close, Close,
                    ],
                    at,
                )
                + spell(seq![Close, Alone(','), Close], at)
                + spell(
                    seq![
                        Close, Alone(','), Word("__context"), Alone(','), Close, Alone(';'),
                    ],
                    at,
                )
                + spell(
                    seq![
                        Word("match"), Word("__aspect"), Alone('.'), Word("around"), Open(Paren),
                        Word("__pjp"), Close, Open(Brace),
                    ],
                    at,
                )
                + spell(
                    seq![
                        Word("Ok"), Open(Paren), Word("__boxed_result"), Close, Joint('='),
                        Alone('>'), Open(Brace), Word("let"), Word("__inner"), Alone('='),
                        Alone('*'), Word("__boxed_result"), Alone('.'), Word("downcast"),
                        Joint(':'), Alone(':'), Alone('<'), Word("_"), Alone('>'), Open(Paren),
                        Close, Alone('.'), Word("expect"), Open(Paren),
                        Quoted("aspect around() returned wrong type"), Close, Alone(';'),
                        Word("Ok"), Open(Paren), Word("__inner"), Close, Close,
                    ],
                    at,
                )
                + spell(
                    seq![
                        Word("Err"), Open(Paren), Word("__err"), Close, Joint('='), Alone('>'),
                        Open(Brace), Word("Err"), Open(Paren), Word("format"), Alone('!'),
                        Open(Paren), Quoted("{:?}"), Alone(','), Word("__err"), Close, Alone('.'),
                        Word("into"), Open(Paren), Close, Close, Close, Close,
                    ],
                    at,
                ),
            )
        }),
{
    let pats = item.sig.inputs.filter_map(
        |param: ParamView|
            match param {
                ParamView::Typed(pat) => Some(pat),
                ParamView::Receiver => None,
            },
    );
    let method = exists|i: int|
        0 <= i < item.sig.inputs.len() && #[trigger] item.sig.inputs[i] is Receiver;
    let name = Name {
        text: "__aspect_original_"@ + item.sig.ident.text,
        span: item.sig.ident.span,
    };
    law_arguments_stand_in_order(name, pats, method, parts, at);
    let call = original_call(name, pats, method, at);
    law_what_is_woven(aspect, item, at);
    let args = args_vec(each_call_arg(pats), false, at);
    let body = sync_around(aspect.aspect_expr, item.sig.ident.text, args, call, true, at);
    let run = spell(
            seq![
                Alone(';'), Word("let"), Word("__pjp"), Alone('='), Word("ProceedingJoinPoint"),
                Joint(':'), Alone(':'), Word("new"), Open(Paren), Joint('|'), Alone('|'),
                Open(Brace),
            ],
            at,
        )
        + spell(seq![Word("match")], at)
        + call
        + spell(
            seq![
                Open(Brace), Word("Ok"), Open(Paren), Word("__val"), Close, Joint('='), Alone('>'),
                Word("Ok"), Open(Paren),
            ],
            at,
        )
        + spell(seq![Word("Box"), Joint(':'), Alone(':'), Word("new"), Open(Paren)], at)
        + spell(seq![Word("__val")], at)
        + spell(seq![Close, Word("as"), Word("Box"), Alone('<')], at)
        + spell(seq![Word("dyn"), Word("Any")], at)
        + spell(seq![Alone('>')], at)
        + spell(
            seq![
                Close, Alone(','), Word("Err"), Open(Paren), Word("__err"), Close, Joint('='),
                Alone('>'), Word("Err"), Open(Paren),
            ],
            at,
        )
        + spell(
            seq![
                Word("AspectError"), Joint(':'), Alone(':'), Word("execution"), Open(Paren),
                Word("format"), Alone('!'), Open(Paren), Quoted("{:?}"), Alone(','), Word("__err"),
                Close, Close,
            ],
            at,
        )
        + spell(seq![Close, Alone(','), Close], at)
        + spell(seq![Close, Alone(','), Word("__context"), Alone(','), Close, Alone(';')], at)
        + spell(
            seq![
                Word("match"), Word("__aspect"), Alone('.'), Word("around"), Open(Paren),
                Word("__pjp"), Close, Open(Brace),
            ],
            at,
        )
        + spell(
            seq![
                Word("Ok"), Open(Paren), Word("__boxed_result"), Close, Joint('='), Alone('>'),
                Open(Brace), Word("let"), Word("__inner"), Alone('='), Alone('*'),
                Word("__boxed_result"), Alone('.'), Word("downcast"), Joint(':'), Alone(':'),
                Alone('<'), Word("_"), Alone('>'), Open(Paren), Close, Alone('.'), Word("expect"),
                Open(Paren), Quoted("aspect around() returned wrong type"), Close, Alone(';'),
                Word("Ok"), Open(Paren), Word("__inner"), Close, Close,
            ],
            at,
        )
        + spell(
            seq![
                Word("Err"), Open(Paren), Word("__err"), Close, Joint('='), Alone('>'), Open(Brace),
                Word("Err"), Open(Paren), Word("format"), Alone('!'), Open(Paren), Quoted("{:?}"),
                Alone(','), Word("__err"), Close, Alone('.'), Word("into"), Open(Paren), Close,
                Close, Close, Close,
            ],
            at,
        );
    lemma_result_in_sync_body(
        aspect.aspect_expr,
        item.sig.ident.text,
        args,
        call,
        at,
    );
    lemma_wrapper_holds(item, Seq::empty(), name, body, run, at);
}

/// Any other function that is not asynchronous: what is handed over for `around` calls it with its
/// own parameters and puts what it returns into the box, and that is what comes out of it.
pub proof fn law_value_flows_through_around(
    aspect: AspectView,
    item: FnItemView,
    parts: Seq<Seq<Tok>>,
    at: Span,
)
    requires
        item.sig.asyncness is None,
        !(match item.sig.output {
            ReturnTypeView::Type(_, ty) => match ty.shape {
                TyShapeView::Path(names) => names.len() > 0 && names.last().text == "Result"@,
                _ => false,
            },
            ReturnTypeView::Default => false,
        }),
        ({
            let pats = item.sig.inputs.filter_map(
                |param: ParamView|
                    match param {
                        ParamView::Typed(pat) => Some(pat),
                        ParamView::Receiver => None,
                    },
            );
            let method = exists|i: int|
                0 <= i < item.sig.inputs.len() && #[trigger] item.sig.inputs[i] is Receiver;
            &&& parts.len() == pats.len()
            &&& forall|i: int|
                0 <= i < pats.len() ==> #[trigger] parts[i] == (if i == 0 && !method {
                    Seq::empty()
                } else {
                    spell(seq![Alone(',')], at)
                }) + match pats[i].shape {
                    PatternShapeView::Ident(name, false) => seq![Tok::Ident(name.text, name.span)],
                    _ => pats[i].tokens,
                }
        }),
    ensures
        ({
            let method = exists|i: int|
                0 <= i < item.sig.inputs.len() && #[trigger] item.sig.inputs[i] is Receiver;
            let hidden = Tok::Ident(
                "__aspect_original_"@ + item.sig.ident.text,
                item.sig.ident.span,
            );
            let call = (if method {
                spell(seq![Word("Self"), Joint(':'), Alone(':')], at) + seq![hidden] + spell(
                    seq![Open(Paren), Word("self")],
                    at,
                ) + parts.flatten() + spell(seq![Close], at)
            } else {
                seq![hidden] + spell(seq![Open(Paren)], at) + parts.flatten() + spell(
                    seq![Close],
                    at,
                )
            });
            holds(
                aspect_wrapper(aspect, item, at),
                spell(
                    seq![
                        Alone(';'), Word("let"), Word("__pjp"), Alone('='),
                        Word("ProceedingJoinPoint"), Joint(':'), Alone(':'), Word("new"),
                        Open(Paren), Joint('|'), Alone('|'), Open(Brace),
                    ],
                    at,
                )
                + spell(seq![Word("let"), Word("__result"), Alone('=')], at)
                + call
                + spell(seq![Alone(';'), Word("Ok"), Open(Paren)], at)
                + spell(seq![Word("Box"), Joint(':'), Alone(':'), Word("new"), Open(Paren)], at)
                + spell(seq![Word("__result")], at)
                + spell(seq![Close, Word("as"), Word("Box"), Alone('<')], at)
                + spell(seq![Word("dyn"), Word("Any")], at)
                + spell(seq![Alone('>')], at)
                + spell(seq![Close], at)
                + spell(
                    seq![
                        Close, Alone(','), Word("__context"), Alone(','), Close, Alone(';'),
                    ],
                    at,
                )
                + spell(
                    seq![
                        Word("match"), Word("__aspect"), Alone('.'), Word("around"), Open(Paren),
                        Word("__pjp"), Close, Open(Brace),
                    ],
                    at,
                )
                + spell(
                    seq![
                        Word("Ok"), Open(Paren), Word("__boxed_result"), Close, Joint('='),
                        Alone('>'), Open(Brace), Alone('*'), Word("__boxed_result"), Alone('.'),
                        Word("downcast"), Joint(':'), Alone(':'), Alone('<'), Word("_"), Alone('>'),
                        Open(Paren), Close, Alone('.'), Word("expect"), Open(Paren),
                        Quoted("aspect around() returned wrong type"), Close, Close,
                    ],
                    at,
                )
                + spell(
                    seq![
                        Word("Err"), Open(Paren), Word("__err"), Close, Joint('='), Alone('>'),
                        Open(Brace), Word("panic"), Alone('!'), Open(Paren),
                        Quoted("aspect around() failed: {:?}"), Alone(','), Word("__err"), Close,
                        Alone(';'), Close, Close,
                    ],
                    at,
                ),
            )
        }),
{
    let pats = item.sig.inputs.filter_map(
        |param: ParamView|
            match param {
                ParamView::Typed(pat) => Some(pat),
                ParamView::Receiver => None,
            },
    );
    let method = exists|i: int|
        0 <= i < item.sig.inputs.len() && #[trigger] item.sig.inputs[i] is Receiver;
    let name = Name {
        text: "__aspect_original_"@ + item.sig.ident.text,
        span: item.sig.ident.span,
    };
    law_arguments_stand_in_order(name, pats, method, parts, at);
    let call = original_call(name, pats, method, at);
    law_what_is_woven(aspect, item, at);
    let args = args_vec(each_call_arg(pats), false, at);
    let body = sync_around(aspect.aspect_expr, item.sig.ident.text, args, call, false, at);
    let run = spell(
            seq![
                Alone(';'), Word("let"), Word("__pjp"), Alone('='), Word("ProceedingJoinPoint"),
                Joint(':'), Alone(':'), Word("new"), Open(Paren), Joint('|'), Alone('|'),
                Open(Brace),
            ],
            at,
        )
        + spell(seq![Word("let"), Word("__result"), Alone('=')], at)
        + call
        + spell(seq![Alone(';'), Word("Ok"), Open(Paren)], at)
        + spell(seq![Word("Box"), Joint(':'), Alone(':'), Word("new"), Open(Paren)], at)
        + spell(seq![Word("__result")], at)
        + spell(seq![Close, Word("as"), Word("Box"), Alone('<')], at)
        + spell(seq![Word("dyn"), Word("Any")], at)
        + spell(seq![Alone('>')], at)
        + spell(seq![Close], at)
        + spell(seq![Close, Alone(','), Word("__context"), Alone(','), Close, Alone(';')], at)
        + spell(
            seq![
                Word("match"), Word("__aspect"), Alone('.'), Word("around"), Open(Paren),
                Word("__pjp"), Close, Open(Brace),
            ],
            at,
        )
        + spell(
            seq![
                Word("Ok"), Open(Paren), Word("__boxed_result"), Close, Joint('='), Alone('>'),
                Open(Brace), Alone('*'), Word("__boxed_result"), Alone('.'), Word("downcast"),
                Joint(':'), Alone(':'), Alone('<'), Word("_"), Alone('>'), Open(Paren), Close,
                Alone('.'), Word("expect"), Open(Paren),
                Quoted("aspect around() returned wrong type"), Close, Close,
            ],
            at,
        )
        + spell(
            seq![
                Word("Err"), Open(Paren), Word("__err"), Close, Joint('='), Alone('>'), Open(Brace),
                Word("panic"), Alone('!'), Open(Paren), Quoted("aspect around() failed: {:?}"),
                Alone(','), Word("__err"), Close, Alone(';'), Close, Close,
            ],
            at,
        );
    lemma_value_in_sync_body(
        aspect.aspect_expr,
        item.sig.ident.text,
        args,
        call,
        at,
    );
    lemma_wrapper_holds(item, Seq::empty(), name, body, run, at);
}

/// A function that returns a `Result`, whatever its parameters are, under an asynchronous aspect
/// that has an `around` of its own: what is handed over awaits the function, called with its own
/// parameters, puts the value that it returns into the box and turns its error into the aspect's.
/// So `around` sees a failure as one, and an error that comes back is returned.
pub proof fn law_result_flows_through_asynchronous_around(
    aspect: AspectView,
    item: FnItemView,
    parts: Seq<Seq<Tok>>,
    at: Span,
)
    requires
        aspect.has_custom_async_around,
        (match item.sig.output {
            ReturnTypeView::Type(_, ty) => match ty.shape {
                TyShapeView::Path(names) => names.len() > 0 && names.last().text == "Result"@,
                _ => false,
            },
            ReturnTypeView::Default => false,
        }),
        ({
            let pats = item.sig.inputs.filter_map(
                |param: ParamView|
                    match param {
                        ParamView::Typed(pat) => Some(pat),
                        ParamView::Receiver => None,
                    },
            );
            let method = exists|i: int|
                0 <= i < item.sig.inputs.len() && #[trigger] item.sig.inputs[i] is Receiver;
            &&& parts.len() == pats.len()
            &&& forall|i: int|
                0 <= i < pats.len() ==> #[trigger] parts[i] == (if i == 0 && !method {
                    Seq::empty()
                } else {
                    spell(seq![Alone(',')], at)
                }) + match pats[i].shape {
                    PatternShapeView::Ident(name, false) => seq![Tok::Ident(name.text, name.span)],
                    _ => pats[i].tokens,
                }
        }),
    ensures
        ({
            let method = exists|i: int|
                0 <= i < item.sig.inputs.len() && #[trigger] item.sig.inputs[i] is Receiver;
            let hidden = Tok::Ident(
                "__async_aspect_original_"@ + item.sig.ident.text,
                item.sig.ident.span,
            );
            let call = (if method {
                spell(seq![Word("Self"), Joint(':'), Alone(':')], at) + seq![hidden] + spell(
                    seq![Open(Paren), Word("self")],
                    at,
                ) + parts.flatten() + spell(seq![Close], at)
            } else {
                seq![hidden] + spell(seq![Open(Paren)], at) + parts.flatten() + spell(
                    seq![Close],
                    at,
                )
            });
            holds(
                async_aspect_wrapper(aspect, item, at),
                spell(
                    seq![
                        Alone(';'), Word("let"), Word("__pjp"), Alone('='),
                        Word("AsyncProceedingJoinPoint"), Joint(':'), Alone(':'), Word("new"),
                        Open(Paren), Word("move"), Joint('|'), Alone('|'), Open(Brace), Word("Box"),
                        Joint(':'), Alone(':'), Word("pin"), Open(Paren), Word("async"),
                        Word("move"), Open(Brace),
                    ],
                    at,
                )
                + spell(seq![Word("match")], at)
                + call
                + spell(seq![Alone('.'), Word("await")], at)
                + spell(
                    seq![
                        Open(Brace), Word("Ok"), Open(Paren), Word("__val"), Close, Joint('='),
                        Alone('>'), Word("Ok"), Open(Paren),
                    ],
                    at,
                )
                + spell(seq![Word("Box"), Joint(':'), Alone(':'), Word("new"), Open(Paren)], at)
                + spell(seq![Word("__val")], at)
                + spell(seq![Close, Word("as"), Word("Box"), Alone('<')], at)
                + spell(
                    seq![
                        Word("dyn"), Word("Any"), Alone('+'), Word("Send"), Alone('+'),
                        Word("Sync"),
                    ],
                    at,
                )
                + spell(seq![Alone('>')], at)
                + spell(
                    seq![
                        Close, Alone(','), Word("Err"), Open(Paren), Word("__err"), Close,
                        Joint('='), Alone('>'), Word("Err"), Open(Paren),
                    ],
                    at,
                )
                + spell(
                    seq![
                        Word("AspectError"), Joint(':'), Alone(':'), Word("execution"), Open(Paren),
                        Word("format"), Alone('!'), Open(Paren), Quoted("{:?}"), Alone(','),
                        Word("__err"), Close, Close,
                    ],
                    at,
                )
                + spell(seq![Close, Alone(','), Close], at)
                + spell(
                    seq![
                        Close, Close, Close, Alone(','), Word("__context"), Alone(','), Close,
                        Alone(';'),
                    ],
                    at,
                )
                + spell(
                    seq![
                        Word("match"), Word("__aspect"), Alone('.'), Word("around"), Open(Paren),
                        Word("__pjp"), Close, Alone('.'), Word("await"), Open(Brace),
                    ],
                    at,
                )
                + spell(
                    seq![
                        Word("Ok"), Open(Paren), Word("__boxed_result"), Close, Joint('='),
                        Alone('>'), Open(Brace), Word("let"), Word("__result"), Alone('='),
                        Alone('*'), Word("__boxed_result"), Alone('.'), Word("downcast"),
                        Joint(':'), Alone(':'), Alone('<'), Word("_"), Alone('>'), Open(Paren),
                        Close, Alone('.'), Word("expect"), Open(Paren),
                        Quoted("async aspect around() returned wrong type"), Close, Alone(';'),
                        Word("Ok"), Open(Paren), Word("__result"), Close, Close,
                    ],
                    at,
                )
                + spell(
                    seq![
                        Word("Err"), Open(Paren), Word("__err"), Close, Joint('='), Alone('>'),
                        Word("Err"), Open(Paren), Word("format"), Alone('!'), Open(Paren),
                        Quoted("{:?}"), Alone(','), Word("__err"), Close, Alone('.'), Word("into"),
                        Open(Paren), Close, Close, Close,
                    ],
                    at,
                ),
            )
        }),
{
    let pats = item.sig.inputs.filter_map(
        |param: ParamView|
            match param {
                ParamView::Typed(pat) => Some(pat),
                ParamView::Receiver => None,
            },
    );
    let method = exists|i: int|
        0 <= i < item.sig.inputs.len() && #[trigger] item.sig.inputs[i] is Receiver;
    let name = Name {
        text: "__async_aspect_original_"@ + item.sig.ident.text,
        span: item.sig.ident.span,
    };
    law_arguments_stand_in_order(name, pats, method, parts, at);
    let call = original_call(name, pats, method, at);
    law_what_an_asynchronous_aspect_weaves(aspect, item, at);
    let kept = captures(param_names(item), at);
    let jp = captured_join_point(item.sig.ident.text, param_names(item).len(), true, at);
    let is_impl_trait = match item.sig.output {
        ReturnTypeView::Type(_, ty) => ty.shape is ImplTrait,
        ReturnTypeView::Default => false,
    };
    let body = async_advice(
        aspect.aspect_expr,
        kept,
        jp,
        call,
        true,
        is_impl_trait,
        true,
        at,
    );
    let run = spell(
            seq![
                Alone(';'), Word("let"), Word("__pjp"), Alone('='),
                Word("AsyncProceedingJoinPoint"), Joint(':'), Alone(':'), Word("new"), Open(Paren),
                Word("move"), Joint('|'), Alone('|'), Open(Brace), Word("Box"), Joint(':'),
                Alone(':'), Word("pin"), Open(Paren), Word("async"), Word("move"), Open(Brace),
            ],
            at,
        )
        + spell(seq![Word("match")], at)
        + call
        + spell(seq![Alone('.'), Word("await")], at)
        + spell(
            seq![
                Open(Brace), Word("Ok"), Open(Paren), Word("__val"), Close, Joint('='), Alone('>'),
                Word("Ok"), Open(Paren),
            ],
            at,
        )
        + spell(seq![Word("Box"), Joint(':'), Alone(':'), Word("new"), Open(Paren)], at)
        + spell(seq![Word("__val")], at)
        + spell(seq![Close, Word("as"), Word("Box"), Alone('<')], at)
        + spell(
            seq![
                Word("dyn"), Word("Any"), Alone('+'), Word("Send"), Alone('+'), Word("Sync"),
            ],
            at,
        )
        + spell(seq![Alone('>')], at)
        + spell(
            seq![
                Close, Alone(','), Word("Err"), Open(Paren), Word("__err"), Close, Joint('='),
                Alone('>'), Word("Err"), Open(Paren),
            ],
            at,
        )
        + spell(
            seq![
                Word("AspectError"), Joint(':'), Alone(':'), Word("execution"), Open(Paren),
                Word("format"), Alone('!'), Open(Paren), Quoted("{:?}"), Alone(','), Word("__err"),
                Close, Close,
            ],
            at,
        )
        + spell(seq![Close, Alone(','), Close], at)
        + spell(
            seq![
                Close, Close, Close, Alone(','), Word("__context"), Alone(','), Close, Alone(';'),
            ],
            at,
        )
        + spell(
            seq![
                Word("match"), Word("__aspect"), Alone('.'), Word("around"), Open(Paren),
                Word("__pjp"), Close, Alone('.'), Word("await"), Open(Brace),
            ],
            at,
        )
        + spell(
            seq![
                Word("Ok"), Open(Paren), Word("__boxed_result"), Close, Joint('='), Alone('>'),
                Open(Brace), Word("let"), Word("__result"), Alone('='), Alone('*'),
                Word("__boxed_result"), Alone('.'), Word("downcast"), Joint(':'), Alone(':'),
                Alone('<'), Word("_"), Alone('>'), Open(Paren), Close, Alone('.'), Word("expect"),
                Open(Paren), Quoted("async aspect around() returned wrong type"), Close, Alone(';'),
                Word("Ok"), Open(Paren), Word("__result"), Close, Close,
            ],
            at,
        )
        + spell(
            seq![
                Word("Err"), Open(Paren), Word("__err"), Close, Joint('='), Alone('>'), Word("Err"),
                Open(Paren), Word("format"), Alone('!'), Open(Paren), Quoted("{:?}"), Alone(','),
                Word("__err"), Close, Alone('.'), Word("into"), Open(Paren), Close, Close, Close,
            ],
            at,
        );
    lemma_result_in_async_body(aspect.aspect_expr, kept, jp, call, is_impl_trait, at);
    lemma_wrapper_holds(item, spell(seq![Word("async")], at), name, body, run, at);
}

/// Any other function under such an aspect, unless it returns `impl Trait`: what is handed over
/// awaits the function, called with its own parameters, and puts what it returns into the box, and
/// that is what comes out of it.
pub proof fn law_value_flows_through_asynchronous_around(
    aspect: AspectView,
    item: FnItemView,
    parts: Seq<Seq<Tok>>,
    at: Span,
)
    requires
        aspect.has_custom_async_around,
        !(match item.sig.output {
            ReturnTypeView::Type(_, ty) => match ty.shape {
                TyShapeView::Path(names) => names.len() > 0 && names.last().text == "Result"@,
                _ => false,
            },
            ReturnTypeView::Default => false,
        }),
        !(match item.sig.output {
            ReturnTypeView::Type(_, ty) => ty.shape is ImplTrait,
            ReturnTypeView::Default => false,
        }),
        ({
            let pats = item.sig.inputs.filter_map(
                |param: ParamView|
                    match param {
                        ParamView::Typed(pat) => Some(pat),
                        ParamView::Receiver => None,
                    },
            );
            let method = exists|i: int|
                0 <= i < item.sig.inputs.len() && #[trigger] item.sig.inputs[i] is Receiver;
            &&& parts.len() == pats.len()
            &&& forall|i: int|
                0 <= i < pats.len() ==> #[trigger] parts[i] == (if i == 0 && !method {
                    Seq::empty()
                } else {
                    spell(seq![Alone(',')], at)
                }) + match pats[i].shape {
                    PatternShapeView::Ident(name, false) => seq![Tok::Ident(name.text, name.span)],
                    _ => pats[i].tokens,
                }
        }),
    ensures
        ({
            let method = exists|i: int|
                0 <= i < item.sig.inputs.len() && #[trigger] item.sig.inputs[i] is Receiver;
            let hidden = Tok::Ident(
                "__async_aspect_original_"@ + item.sig.ident.text,
                item.sig.ident.span,
            );
            let call = (if method {
                spell(seq![Word("Self"), Joint(':'), Alone(':')], at) + seq![hidden] + spell(
                    seq![Open(Paren), Word("self")],
                    at,
                ) + parts.flatten() + spell(seq![Close], at)
            } else {
                seq![hidden] + spell(seq![Open(Paren)], at) + parts.flatten() + spell(
                    seq![Close],
                    at,
                )
            });
            holds(
                async_aspect_wrapper(aspect, item, at),
                spell(
                    seq![
                        Alone(';'), Word("let"), Word("__pjp"), Alone('='),
                        Word("AsyncProceedingJoinPoint"), Joint(':'), Alone(':'), Word("new"),
                        Open(Paren), Word("move"), Joint('|'), Alone('|'), Open(Brace), Word("Box"),
                        Joint(':'), Alone(':'), Word("pin"), Open(Paren), Word("async"),
                        Word("move"), Open(Brace),
                    ],
                    at,
                )
                + spell(seq![Word("let"), Word("__result"), Alone('=')], at)
                + call
                + spell(seq![Alone('.'), Word("await")], at)
                + spell(seq![Alone(';'), Word("Ok"), Open(Paren)], at)
                + spell(seq![Word("Box"), Joint(':'), Alone(':'), Word("new"), Open(Paren)], at)
                + spell(seq![Word("__result")], at)
                + spell(seq![Close, Word("as"), Word("Box"), Alone('<')], at)
                + spell(
                    seq![
                        Word("dyn"), Word("Any"), Alone('+'), Word("Send"), Alone('+'),
                        Word("Sync"),
                    ],
                    at,
                )
                + spell(seq![Alone('>')], at)
                + spell(seq![Close], at)
                + spell(
                    seq![
                        Close, Close, Close, Alone(','), Word("__context"), Alone(','), Close,
                        Alone(';'),
                    ],
                    at,
                )
                + spell(
                    seq![
                        Word("match"), Word("__aspect"), Alone('.'), Word("around"), Open(Paren),
                        Word("__pjp"), Close, Alone('.'), Word("await"), Open(Brace),
                    ],
                    at,
                )
                + spell(
                    seq![
                        Word("Ok"), Open(Paren), Word("__boxed_result"), Close, Joint('='),
                        Alone('>'), Open(Brace), Word("let"), Word("__result"), Alone('='),
                        Word("__async_aspect_take_result"), Open(Paren), Word("__boxed_result"),
                        Close, Alone(';'), Word("__result"), Close,
                    ],
                    at,
                )
                + spell(
                    seq![
                        Word("Err"), Open(Paren), Word("__err"), Close, Joint('='), Alone('>'),
                        Word("panic"), Alone('!'), Open(Paren),
                        Quoted("async aspect around() failed: {:?}"), Alone(','), Word("__err"),
                        Close, Close,
                    ],
                    at,
                ),
            )
        }),
{
    let pats = item.sig.inputs.filter_map(
        |param: ParamView|
            match param {
                ParamView::Typed(pat) => Some(pat),
                ParamView::Receiver => None,
            },
    );
    let method = exists|i: int|
        0 <= i < item.sig.inputs.len() && #[trigger] item.sig.inputs[i] is Receiver;
    let name = Name {
        text: "__async_aspect_original_"@ + item.sig.ident.text,
        span: item.sig.ident.span,
    };
    law_arguments_stand_in_order(name, pats, method, parts, at);
    let call = original_call(name, pats, method, at);
    law_what_an_asynchronous_aspect_weaves(aspect, item, at);
    let kept = captures(param_names(item), at);
    let jp = captured_join_point(item.sig.ident.text, param_names(item).len(), true, at);
    let is_impl_trait = match item.sig.output {
        ReturnTypeView::Type(_, ty) => ty.shape is ImplTrait,
        ReturnTypeView::Default => false,
    };
    let body = async_advice(
        aspect.aspect_expr,
        kept,
        jp,
        call,
        false,
        is_impl_trait,
        true,
        at,
    );
    let run = spell(
            seq![
                Alone(';'), Word("let"), Word("__pjp"), Alone('='),
                Word("AsyncProceedingJoinPoint"), Joint(':'), Alone(':'), Word("new"), Open(Paren),
                Word("move"), Joint('|'), Alone('|'), Open(Brace), Word("Box"), Joint(':'),
                Alone(':'), Word("pin"), Open(Paren), Word("async"), Word("move"), Open(Brace),
            ],
            at,
        )
        + spell(seq![Word("let"), Word("__result"), Alone('=')], at)
        + call
        + spell(seq![Alone('.'), Word("await")], at)
        + spell(seq![Alone(';'), Word("Ok"), Open(Paren)], at)
        + spell(seq![Word("Box"), Joint(':'), Alone(':'), Word("new"), Open(Paren)], at)
        + spell(seq![Word("__result")], at)
        + spell(seq![Close, Word("as"), Word("Box"), Alone('<')], at)
        + spell(
            seq![
                Word("dyn"), Word("Any"), Alone('+'), Word("Send"), Alone('+'), Word("Sync"),
            ],
            at,
        )
        + spell(seq![Alone('>')], at)
        + spell(seq![Close], at)
        + spell(
            seq![
                Close, Close, Close, Alone(','), Word("__context"), Alone(','), Close, Alone(';'),
            ],
            at,
        )
        + spell(
            seq![
                Word("match"), Word("__aspect"), Alone('.'), Word("around"), Open(Paren),
                Word("__pjp"), Close, Alone('.'), Word("await"), Open(Brace),
            ],
            at,
        )
        + spell(
            seq![
                Word("Ok"), Open(Paren), Word("__boxed_result"), Close, Joint('='), Alone('>'),
                Open(Brace), Word("let"), Word("__result"), Alone('='),
                Word("__async_aspect_take_result"), Open(Paren), Word("__boxed_result"), Close,
                Alone(';'), Word("__result"), Close,
            ],
            at,
        )
        + spell(
            seq![
                Word("Err"), Open(Paren), Word("__err"), Close, Joint('='), Alone('>'),
                Word("panic"), Alone('!'), Open(Paren),
                Quoted("async aspect around() failed: {:?}"), Alone(','), Word("__err"), Close,
                Close,
            ],
            at,
        );
    lemma_value_in_async_body(aspect.aspect_expr, kept, jp, call, at);
    lemma_wrapper_holds(item, spell(seq![Word("async")], at), name, body, run, at);
}

} // verus!
