//! What weaving produces, word for word.
//!
//! Each law here writes the produced text out, from the parts it is made of. Fixed text stands as
//! `spell`, which `law_spelling` ties to its tokens; what comes as a list is tied to the list by
//! index.

use crate::builder::{spell, Piece};
use crate::builder::Piece::{Alone, Close, Joint, Open, Quoted, Word};
use crate::numerals::digits;
use crate::syntax::{Name, PatternShapeView, PatternView};
use crate::templates::{
    args_vec, async_advice, boxed_clone, boxed_clones, call_arg, call_args, capture_names,
    captured_join_point, captures, each_call_arg, lifecycle, original_call, singletons, sync_around,
};
use crate::tokens::Delim::{Brace, Bracket, Paren};
use crate::tokens::Tok;
use proc_macro2::Span;
use vstd::prelude::*;

verus! {

/// Fixed text is spelled piece by piece, each token at the place that is given.
pub proof fn law_spelling(pieces: Seq<Piece>, i: int, at: Span)
    requires
        0 <= i < pieces.len(),
    ensures
        spell(pieces, at).len() == pieces.len(),
        spell(pieces, at)[i] == match pieces[i] {
            Piece::Word(text) => Tok::Ident(text@, at),
            Piece::Joint(c) => Tok::Punct(c, true, at),
            Piece::Alone(c) => Tok::Punct(c, false, at),
            Piece::Quoted(text) => Tok::Text(text@, at),
            Piece::Open(delim) => Tok::Open(delim, at),
            Piece::Close => Tok::Close,
        },
{
    reveal(spell);
}

pub(crate) proof fn lemma_flatten_last<A>(parts: Seq<Seq<A>>)
    requires
        parts.len() > 0,
    ensures
        parts.flatten() == parts.drop_last().flatten() + parts.last(),
{
    parts.drop_last().lemma_flatten_push(parts.last());
    assert(parts.drop_last().push(parts.last()) =~= parts);
}

proof fn lemma_boxed_clones(
    args: Seq<Seq<Tok>>,
    send: bool,
    parts: Seq<Seq<Tok>>,
    at: Span,
)
    requires
        parts.len() == args.len(),
        forall|i: int|
            0 <= i < args.len() ==> #[trigger] parts[i] == (if i == 0 {
                Seq::empty()
            } else {
                spell(seq![Alone(',')], at)
            })
            + spell(seq![Word("Box"), Joint(':'), Alone(':'), Word("new"), Open(Paren)], at)
            + (args[i] + spell(
                seq![Alone('.'), Word("clone"), Open(Paren), Close],
                at,
            ))
            + spell(seq![Close, Word("as"), Word("Box"), Alone('<')], at)
            + (if send {
                spell(
                    seq![
                        Word("dyn"), Word("Any"), Alone('+'), Word("Send"), Alone('+'),
                        Word("Sync"),
                    ],
                    at,
                )
            } else {
                spell(seq![Word("dyn"), Word("Any")], at)
            })
            + spell(seq![Alone('>')], at),
    ensures
        boxed_clones(args, send, at) == parts.flatten(),
    decreases args.len(),
{
    if args.len() > 0 {
        let n = args.len() - 1;
        lemma_boxed_clones(args.drop_last(), send, parts.drop_last(), at);
        lemma_flatten_last(parts);
        assert(parts.last() == parts[n]);
        if n == 0 {
            assert(parts.last() =~= boxed_clone(args[0], send, at));
            assert(parts.drop_last().flatten() =~= Seq::<Tok>::empty());
        } else {
            assert(parts.last() =~= spell(seq![Alone(',')], at) + boxed_clone(
                args[n],
                send,
                at,
            ));
        }
    }
}

/// The arguments of a join point: a vector with one entry for each argument, in their order, which
/// is a clone of it in a box, and a comma between the entries.
pub proof fn law_entries_of_the_arguments(
    args: Seq<Seq<Tok>>,
    send: bool,
    parts: Seq<Seq<Tok>>,
    at: Span,
)
    requires
        parts.len() == args.len(),
        forall|i: int|
            0 <= i < args.len() ==> #[trigger] parts[i] == (if i == 0 {
                Seq::empty()
            } else {
                spell(seq![Alone(',')], at)
            })
            + spell(seq![Word("Box"), Joint(':'), Alone(':'), Word("new"), Open(Paren)], at)
            + (args[i] + spell(
                seq![Alone('.'), Word("clone"), Open(Paren), Close],
                at,
            ))
            + spell(seq![Close, Word("as"), Word("Box"), Alone('<')], at)
            + (if send {
                spell(
                    seq![
                        Word("dyn"), Word("Any"), Alone('+'), Word("Send"), Alone('+'),
                        Word("Sync"),
                    ],
                    at,
                )
            } else {
                spell(seq![Word("dyn"), Word("Any")], at)
            })
            + spell(seq![Alone('>')], at),
    ensures
        args_vec(args, send, at) == spell(seq![Word("vec"), Alone('!'), Open(Bracket)], at)
            + parts.flatten()
            + spell(seq![Close], at),
{
    lemma_boxed_clones(args, send, parts, at);
}

/// Each argument that is kept gets a statement, in their order: the variable of its own number
/// becomes a clone of it.
pub proof fn law_statements_that_keep_arguments(names: Seq<Name>, parts: Seq<Seq<Tok>>, at: Span)
    requires
        parts.len() == names.len(),
        forall|i: int|
            0 <= i < names.len() ==> #[trigger] parts[i] == spell(seq![Word("let")], at)
            + seq![Tok::Ident("__aspect_arg_"@ + digits(i as nat), at)]
            + spell(seq![Alone('=')], at)
            + seq![Tok::Ident(names[i].text, names[i].span)]
            + spell(seq![Alone('.'), Word("clone"), Open(Paren), Close, Alone(';')], at),
    ensures
        captures(names, at) == parts.flatten(),
        capture_names(names.len(), at).len() == names.len(),
        forall|i: int|
            0 <= i < names.len() ==> #[trigger] capture_names(names.len(), at)[i] == (Name {
                text: "__aspect_arg_"@ + digits(i as nat),
                span: at,
            }),
    decreases names.len(),
{
    if names.len() > 0 {
        let n = names.len() - 1;
        law_statements_that_keep_arguments(names.drop_last(), parts.drop_last(), at);
        lemma_flatten_last(parts);
        assert(parts.last() == parts[n]);
        assert(captures(names, at) =~= captures(names.drop_last(), at) + parts[n]);
    }
}

/// The join point of an asynchronous call names the function and its place, and shows as many
/// arguments as were kept, in their order.
pub proof fn law_join_point_of_kept_arguments(
    fn_name: Seq<char>,
    count: nat,
    send: bool,
    parts: Seq<Seq<Tok>>,
    at: Span,
)
    requires
        parts.len() == count,
        forall|i: int|
            0 <= i < count ==> #[trigger] parts[i] == (if i == 0 {
                Seq::empty()
            } else {
                spell(seq![Alone(',')], at)
            })
            + spell(seq![Word("Box"), Joint(':'), Alone(':'), Word("new"), Open(Paren)], at)
            + (seq![Tok::Ident("__aspect_arg_"@ + digits(i as nat), at)] + spell(
                seq![Alone('.'), Word("clone"), Open(Paren), Close],
                at,
            ))
            + spell(seq![Close, Word("as"), Word("Box"), Alone('<')], at)
            + (if send {
                spell(
                    seq![
                        Word("dyn"), Word("Any"), Alone('+'), Word("Send"), Alone('+'),
                        Word("Sync"),
                    ],
                    at,
                )
            } else {
                spell(seq![Word("dyn"), Word("Any")], at)
            })
            + spell(seq![Alone('>')], at),
    ensures
        captured_join_point(fn_name, count, send, at) == (if send {
                spell(seq![Word("AsyncJoinPoint")], at)
            } else {
                spell(seq![Word("JoinPoint")], at)
            })
            + spell(seq![Open(Brace), Word("function_name"), Alone(':')], at)
            + seq![Tok::Text(fn_name, at)]
            + spell(
                seq![
                    Alone(','), Word("module_path"), Alone(':'), Word("module_path"), Alone('!'),
                    Open(Paren), Close, Alone(','), Word("location"), Alone(':'), Word("Location"),
                    Open(Brace), Word("file"), Alone(':'), Word("file"), Alone('!'), Open(Paren),
                    Close, Alone(','), Word("line"), Alone(':'),
                ],
                at,
            )
            + spell(
                seq![
                    Joint(':'), Alone(':'), Word("core"), Joint(':'), Alone(':'), Word("line"),
                    Alone('!'), Open(Paren), Close,
                ],
                at,
            )
            + spell(seq![Alone(','), Close, Alone(','), Word("args"), Alone(':')], at)
            + (spell(seq![Word("vec"), Alone('!'), Open(Bracket)], at) + parts.flatten() + spell(
                seq![Close],
                at,
            ))
            + spell(seq![Alone(','), Close], at),
{
    let args = singletons(capture_names(count, at));
    assert forall|i: int| 0 <= i < args.len() implies #[trigger] parts[i] == (if i == 0 {
                Seq::empty()
            } else {
                spell(seq![Alone(',')], at)
            })
            + spell(seq![Word("Box"), Joint(':'), Alone(':'), Word("new"), Open(Paren)], at)
            + (args[i] + spell(
                seq![Alone('.'), Word("clone"), Open(Paren), Close],
                at,
            ))
            + spell(seq![Close, Word("as"), Word("Box"), Alone('<')], at)
            + (if send {
                spell(
                    seq![
                        Word("dyn"), Word("Any"), Alone('+'), Word("Send"), Alone('+'),
                        Word("Sync"),
                    ],
                    at,
                )
            } else {
                spell(seq![Word("dyn"), Word("Any")], at)
            })
            + spell(seq![Alone('>')], at) by {
        assert(args[i] == seq![Tok::Ident("__aspect_arg_"@ + digits(i as nat), at)]);
    }
    law_entries_of_the_arguments(args, send, parts, at);
}

/// What hands a parameter on: the name of a plain binding, whatever `mut` or `ref` stands before
/// it, and the pattern as it is written otherwise.
pub proof fn law_argument_of_a_parameter(pats: Seq<PatternView>, i: int)
    requires
        0 <= i < pats.len(),
    ensures
        each_call_arg(pats).len() == pats.len(),
        each_call_arg(pats)[i] == match pats[i].shape {
                PatternShapeView::Ident(name, false) => seq![Tok::Ident(name.text, name.span)],
                _ => pats[i].tokens,
            },
        call_arg(pats[i]) == match pats[i].shape {
                PatternShapeView::Ident(name, false) => seq![Tok::Ident(name.text, name.span)],
                _ => pats[i].tokens,
            },
{
}

proof fn lemma_call_args(
    pats: Seq<PatternView>,
    follows: bool,
    parts: Seq<Seq<Tok>>,
    at: Span,
)
    requires
        parts.len() == pats.len(),
        forall|i: int|
            0 <= i < pats.len() ==> #[trigger] parts[i] == (if i == 0 && !follows {
                Seq::empty()
            } else {
                spell(seq![Alone(',')], at)
            }) + match pats[i].shape {
                PatternShapeView::Ident(name, false) => seq![Tok::Ident(name.text, name.span)],
                _ => pats[i].tokens,
            },
    ensures
        call_args(pats, follows, at) == parts.flatten(),
    decreases pats.len(),
{
    if pats.len() > 0 {
        let n = pats.len() - 1;
        lemma_call_args(pats.drop_last(), follows, parts.drop_last(), at);
        lemma_flatten_last(parts);
        assert(parts.last() == parts[n]);
        if n == 0 {
            assert(parts.drop_last().flatten() =~= Seq::<Tok>::empty());
            assert(call_args(pats.drop_last(), follows, at) =~= Seq::<Tok>::empty());
        }
        assert(call_args(pats, follows, at) =~= call_args(pats.drop_last(), follows, at)
            + parts[n]);
    }
}

/// The call of the function behind the wrapper: through `Self` and with `self` first for a method,
/// by its bare name otherwise, and then one argument for each parameter, in their order, which is
/// what hands that parameter on.
pub proof fn law_arguments_stand_in_order(
    name: Name,
    pats: Seq<PatternView>,
    has_receiver: bool,
    parts: Seq<Seq<Tok>>,
    at: Span,
)
    requires
        parts.len() == pats.len(),
        forall|i: int|
            0 <= i < pats.len() ==> #[trigger] parts[i] == (if i == 0 && !has_receiver {
                Seq::empty()
            } else {
                spell(seq![Alone(',')], at)
            }) + match pats[i].shape {
                PatternShapeView::Ident(name, false) => seq![Tok::Ident(name.text, name.span)],
                _ => pats[i].tokens,
            },
    ensures
        has_receiver ==> original_call(name, pats, has_receiver, at)
            == spell(seq![Word("Self"), Joint(':'), Alone(':')], at)
            + seq![Tok::Ident(name.text, name.span)]
            + spell(seq![Open(Paren), Word("self")], at)
            + parts.flatten()
            + spell(seq![Close], at),
        !has_receiver ==> original_call(name, pats, has_receiver, at)
            == seq![Tok::Ident(name.text, name.span)]
            + spell(seq![Open(Paren)], at)
            + parts.flatten()
            + spell(seq![Close], at),
{
    lemma_call_args(pats, has_receiver, parts, at);
}

/// The body around a call that is not asynchronous. For a `Result` the value is taken out of it and
/// put into the box, an error becomes the aspect's, and an error that comes back becomes the
/// function's; for anything else the value itself is put into the box, and an error is fatal. What
/// is put into the box is what is taken out of it.
pub proof fn law_body_around_a_call(
    expr: Seq<Tok>,
    fn_name: Seq<char>,
    args: Seq<Tok>,
    call: Seq<Tok>,
    at: Span,
)
    ensures
        sync_around(expr, fn_name, args, call, true, at) == spell(
                seq![
                    Word("use"), Joint(':'), Alone(':'), Word("aspect_core"), Joint(':'),
                    Alone(':'), Word("prelude"), Joint(':'), Alone(':'), Alone('*'), Alone(';'),
                    Word("use"), Joint(':'), Alone(':'), Word("std"), Joint(':'), Alone(':'),
                    Word("any"), Joint(':'), Alone(':'), Word("Any"), Alone(';'),
                ],
                at,
            )
            + spell(seq![Word("let"), Word("__aspect"), Alone('=')], at)
            + expr
            + spell(seq![Alone(';')], at)
            + spell(seq![Word("let"), Word("__args"), Alone('=')], at)
            + args
            + spell(seq![Alone(';'), Word("let"), Word("__context"), Alone('=')], at)
            + spell(seq![Word("JoinPoint")], at)
            + spell(seq![Open(Brace), Word("function_name"), Alone(':')], at)
            + seq![Tok::Text(fn_name, at)]
            + spell(
                seq![
                    Alone(','), Word("module_path"), Alone(':'), Word("module_path"), Alone('!'),
                    Open(Paren), Close, Alone(','), Word("location"), Alone(':'), Word("Location"),
                    Open(Brace), Word("file"), Alone(':'), Word("file"), Alone('!'), Open(Paren),
                    Close, Alone(','), Word("line"), Alone(':'),
                ],
                at,
            )
            + spell(seq![Word("line"), Alone('!'), Open(Paren), Close], at)
            + spell(seq![Alone(','), Close, Alone(','), Word("args"), Alone(':')], at)
            + spell(seq![Word("__args")], at)
            + spell(seq![Alone(','), Close], at)
            + spell(
                seq![
                    Alone(';'), Word("let"), Word("__pjp"), Alone('='), Word("ProceedingJoinPoint"),
                    Joint(':'), Alone(':'), Word("new"), Open(Paren), Joint('|'), Alone('|'),
                    Open(Brace),
                ],
                at,
            )
            + spell(seq![Word("match")], at)
            + call
            + spell(
                seq![
                    Open(Brace), Word("Ok"), Open(Paren), Word("__val"), Close, Joint('='),
                    Alone('>'), Word("Ok"), Open(Paren),
                ],
                at,
            )
            + spell(seq![Word("Box"), Joint(':'), Alone(':'), Word("new"), Open(Paren)], at)
            + spell(seq![Word("__val")], at)
            + spell(seq![Close, Word("as"), Word("Box"), Alone('<')], at)
            + spell(seq![Word("dyn"), Word("Any")], at)
            + spell(seq![Alone('>')], at)
            + spell(
                seq![
                    Close, Alone(','), Word("Err"), Open(Paren), Word("__err"), Close, Joint('='),
                    Alone('>'), Word("Err"), Open(Paren),
                ],
                at,
            )
            + spell(
                seq![
                    Word("AspectError"), Joint(':'), Alone(':'), Word("execution"), Open(Paren),
                    Word("format"), Alone('!'), Open(Paren), Quoted("{:?}"), Alone(','),
                    Word("__err"), Close, Close,
                ],
                at,
            )
            + spell(seq![Close, Alone(','), Close], at)
            + spell(seq![Close, Alone(','), Word("__context"), Alone(','), Close, Alone(';')], at)
            + spell(
                seq![
                    Word("match"), Word("__aspect"), Alone('.'), Word("around"), Open(Paren),
                    Word("__pjp"), Close, Open(Brace),
                ],
                at,
            )
            + spell(
                seq![
                    Word("Ok"), Open(Paren), Word("__boxed_result"), Close, Joint('='), Alone('>'),
                    Open(Brace), Word("let"), Word("__inner"), Alone('='), Alone('*'),
                    Word("__boxed_result"), Alone('.'), Word("downcast"), Joint(':'), Alone(':'),
                    Alone('<'), Word("_"), Alone('>'), Open(Paren), Close, Alone('.'),
                    Word("expect"), Open(Paren), Quoted("aspect around() returned wrong type"),
                    Close, Alone(';'), Word("Ok"), Open(Paren), Word("__inner"), Close, Close,
                ],
                at,
            )
            + spell(
                seq![
                    Word("Err"), Open(Paren), Word("__err"), Close, Joint('='), Alone('>'),
                    Open(Brace), Word("Err"), Open(Paren), Word("format"), Alone('!'), Open(Paren),
                    Quoted("{:?}"), Alone(','), Word("__err"), Close, Alone('.'), Word("into"),
                    Open(Paren), Close, Close, Close, Close,
                ],
                at,
            ),
        sync_around(expr, fn_name, args, call, false, at) == spell(
                seq![
                    Word("use"), Joint(':'), Alone(':'), Word("aspect_core"), Joint(':'),
                    Alone(':'), Word("prelude"), Joint(':'), Alone(':'), Alone('*'), Alone(';'),
                    Word("use"), Joint(':'), Alone(':'), Word("std"), Joint(':'), Alone(':'),
                    Word("any"), Joint(':'), Alone(':'), Word("Any"), Alone(';'),
                ],
                at,
            )
            + spell(seq![Word("let"), Word("__aspect"), Alone('=')], at)
            + expr
            + spell(seq![Alone(';')], at)
            + spell(seq![Word("let"), Word("__args"), Alone('=')], at)
            + args
            + spell(seq![Alone(';'), Word("let"), Word("__context"), Alone('=')], at)
            + spell(seq![Word("JoinPoint")], at)
            + spell(seq![Open(Brace), Word("function_name"), Alone(':')], at)
            + seq![Tok::Text(fn_name, at)]
            + spell(
                seq![
                    Alone(','), Word("module_path"), Alone(':'), Word("module_path"), Alone('!'),
                    Open(Paren), Close, Alone(','), Word("location"), Alone(':'), Word("Location"),
                    Open(Brace), Word("file"), Alone(':'), Word("file"), Alone('!'), Open(Paren),
                    Close, Alone(','), Word("line"), Alone(':'),
                ],
                at,
            )
            + spell(seq![Word("line"), Alone('!'), Open(Paren), Close], at)
            + spell(seq![Alone(','), Close, Alone(','), Word("args"), Alone(':')], at)
            + spell(seq![Word("__args")], at)
            + spell(seq![Alone(','), Close], at)
            + spell(
                seq![
                    Alone(';'), Word("let"), Word("__pjp"), Alone('='), Word("ProceedingJoinPoint"),
                    Joint(':'), Alone(':'), Word("new"), Open(Paren), Joint('|'), Alone('|'),
                    Open(Brace),
                ],
                at,
            )
            + spell(seq![Word("let"), Word("__result"), Alone('=')], at)
            + call
            + spell(seq![Alone(';'), Word("Ok"), Open(Paren)], at)
            + spell(seq![Word("Box"), Joint(':'), Alone(':'), Word("new"), Open(Paren)], at)
            + spell(seq![Word("__result")], at)
            + spell(seq![Close, Word("as"), Word("Box"), Alone('<')], at)
            + spell(seq![Word("dyn"), Word("Any")], at)
            + spell(seq![Alone('>')], at)
            + spell(seq![Close], at)
            + spell(seq![Close, Alone(','), Word("__context"), Alone(','), Close, Alone(';')], at)
            + spell(
                seq![
                    Word("match"), Word("__aspect"), Alone('.'), Word("around"), Open(Paren),
                    Word("__pjp"), Close, Open(Brace),
                ],
                at,
            )
            + spell(
                seq![
                    Word("Ok"), Open(Paren), Word("__boxed_result"), Close, Joint('='), Alone('>'),
                    Open(Brace), Alone('*'), Word("__boxed_result"), Alone('.'), Word("downcast"),
                    Joint(':'), Alone(':'), Alone('<'), Word("_"), Alone('>'), Open(Paren), Close,
                    Alone('.'), Word("expect"), Open(Paren),
                    Quoted("aspect around() returned wrong type"), Close, Close,
                ],
                at,
            )
            + spell(
                seq![
                    Word("Err"), Open(Paren), Word("__err"), Close, Joint('='), Alone('>'),
                    Open(Brace), Word("panic"), Alone('!'), Open(Paren),
                    Quoted("aspect around() failed: {:?}"), Alone(','), Word("__err"), Close,
                    Alone(';'), Close, Close,
                ],
                at,
            ),
{
    lemma_sync_result_text(expr, fn_name, args, call, at);
    lemma_sync_value_text(expr, fn_name, args, call, at);
}

#[verifier::rlimit(60)]
proof fn lemma_sync_result_text(
    expr: Seq<Tok>,
    fn_name: Seq<char>,
    args: Seq<Tok>,
    call: Seq<Tok>,
    at: Span,
)
    ensures
        sync_around(expr, fn_name, args, call, true, at) == spell(
                seq![
                    Word("use"), Joint(':'), Alone(':'), Word("aspect_core"), Joint(':'),
                    Alone(':'), Word("prelude"), Joint(':'), Alone(':'), Alone('*'), Alone(';'),
                    Word("use"), Joint(':'), Alone(':'), Word("std"), Joint(':'), Alone(':'),
                    Word("any"), Joint(':'), Alone(':'), Word("Any"), Alone(';'),
                ],
                at,
            )
            + spell(seq![Word("let"), Word("__aspect"), Alone('=')], at)
            + expr
            + spell(seq![Alone(';')], at)
            + spell(seq![Word("let"), Word("__args"), Alone('=')], at)
            + args
            + spell(seq![Alone(';'), Word("let"), Word("__context"), Alone('=')], at)
            + spell(seq![Word("JoinPoint")], at)
            + spell(seq![Open(Brace), Word("function_name"), Alone(':')], at)
            + seq![Tok::Text(fn_name, at)]
            + spell(
                seq![
                    Alone(','), Word("module_path"), Alone(':'), Word("module_path"), Alone('!'),
                    Open(Paren), Close, Alone(','), Word("location"), Alone(':'), Word("Location"),
                    Open(Brace), Word("file"), Alone(':'), Word("file"), Alone('!'), Open(Paren),
                    Close, Alone(','), Word("line"), Alone(':'),
                ],
                at,
            )
            + spell(seq![Word("line"), Alone('!'), Open(Paren), Close], at)
            + spell(seq![Alone(','), Close, Alone(','), Word("args"), Alone(':')], at)
            + spell(seq![Word("__args")], at)
            + spell(seq![Alone(','), Close], at)
            + spell(
                seq![
                    Alone(';'), Word("let"), Word("__pjp"), Alone('='), Word("ProceedingJoinPoint"),
                    Joint(':'), Alone(':'), Word("new"), Open(Paren), Joint('|'), Alone('|'),
                    Open(Brace),
                ],
                at,
            )
            + spell(seq![Word("match")], at)
            + call
            + spell(
                seq![
                    Open(Brace), Word("Ok"), Open(Paren), Word("__val"), Close, Joint('='),
                    Alone('>'), Word("Ok"), Open(Paren),
                ],
                at,
            )
            + spell(seq![Word("Box"), Joint(':'), Alone(':'), Word("new"), Open(Paren)], at)
            + spell(seq![Word("__val")], at)
            + spell(seq![Close, Word("as"), Word("Box"), Alone('<')], at)
            + spell(seq![Word("dyn"), Word("Any")], at)
            + spell(seq![Alone('>')], at)
            + spell(
                seq![
                    Close, Alone(','), Word("Err"), Open(Paren), Word("__err"), Close, Joint('='),
                    Alone('>'), Word("Err"), Open(Paren),
                ],
                at,
            )
            + spell(
                seq![
                    Word("AspectError"), Joint(':'), Alone(':'), Word("execution"), Open(Paren),
                    Word("format"), Alone('!'), Open(Paren), Quoted("{:?}"), Alone(','),
                    Word("__err"), Close, Close,
                ],
                at,
            )
            + spell(seq![Close, Alone(','), Close], at)
            + spell(seq![Close, Alone(','), Word("__context"), Alone(','), Close, Alone(';')], at)
            + spell(
                seq![
                    Word("match"), Word("__aspect"), Alone('.'), Word("around"), Open(Paren),
                    Word("__pjp"), Close, Open(Brace),
                ],
                at,
            )
            + spell(
                seq![
                    Word("Ok"), Open(Paren), Word("__boxed_result"), Close, Joint('='), Alone('>'),
                    Open(Brace), Word("let"), Word("__inner"), Alone('='), Alone('*'),
                    Word("__boxed_result"), Alone('.'), Word("downcast"), Joint(':'), Alone(':'),
                    Alone('<'), Word("_"), Alone('>'), Open(Paren), Close, Alone('.'),
                    Word("expect"), Open(Paren), Quoted("aspect around() returned wrong type"),
                    Close, Alone(';'), Word("Ok"), Open(Paren), Word("__inner"), Close, Close,
                ],
                at,
            )
            + spell(
                seq![
                    Word("Err"), Open(Paren), Word("__err"), Close, Joint('='), Alone('>'),
                    Open(Brace), Word("Err"), Open(Paren), Word("format"), Alone('!'), Open(Paren),
                    Quoted("{:?}"), Alone(','), Word("__err"), Close, Alone('.'), Word("into"),
                    Open(Paren), Close, Close, Close, Close,
                ],
                at,
            ),
{
}

#[verifier::rlimit(60)]
proof fn lemma_sync_value_text(
    expr: Seq<Tok>,
    fn_name: Seq<char>,
    args: Seq<Tok>,
    call: Seq<Tok>,
    at: Span,
)
    ensures
        sync_around(expr, fn_name, args, call, false, at) == spell(
                seq![
                    Word("use"), Joint(':'), Alone(':'), Word("aspect_core"), Joint(':'),
                    Alone(':'), Word("prelude"), Joint(':'), Alone(':'), Alone('*'), Alone(';'),
                    Word("use"), Joint(':'), Alone(':'), Word("std"), Joint(':'), Alone(':'),
                    Word("any"), Joint(':'), Alone(':'), Word("Any"), Alone(';'),
                ],
                at,
            )
            + spell(seq![Word("let"), Word("__aspect"), Alone('=')], at)
            + expr
            + spell(seq![Alone(';')], at)
            + spell(seq![Word("let"), Word("__args"), Alone('=')], at)
            + args
            + spell(seq![Alone(';'), Word("let"), Word("__context"), Alone('=')], at)
            + spell(seq![Word("JoinPoint")], at)
            + spell(seq![Open(Brace), Word("function_name"), Alone(':')], at)
            + seq![Tok::Text(fn_name, at)]
            + spell(
                seq![
                    Alone(','), Word("module_path"), Alone(':'), Word("module_path"), Alone('!'),
                    Open(Paren), Close, Alone(','), Word("location"), Alone(':'), Word("Location"),
                    Open(Brace), Word("file"), Alone(':'), Word("file"), Alone('!'), Open(Paren),
                    Close, Alone(','), Word("line"), Alone(':'),
                ],
                at,
            )
            + spell(seq![Word("line"), Alone('!'), Open(Paren), Close], at)
            + spell(seq![Alone(','), Close, Alone(','), Word("args"), Alone(':')], at)
            + spell(seq![Word("__args")], at)
            + spell(seq![Alone(','), Close], at)
            + spell(
                seq![
                    Alone(';'), Word("let"), Word("__pjp"), Alone('='), Word("ProceedingJoinPoint"),
                    Joint(':'), Alone(':'), Word("new"), Open(Paren), Joint('|'), Alone('|'),
                    Open(Brace),
                ],
                at,
            )
            + spell(seq![Word("let"), Word("__result"), Alone('=')], at)
            + call
            + spell(seq![Alone(';'), Word("Ok"), Open(Paren)], at)
            + spell(seq![Word("Box"), Joint(':'), Alone(':'), Word("new"), Open(Paren)], at)
            + spell(seq![Word("__result")], at)
            + spell(seq![Close, Word("as"), Word("Box"), Alone('<')], at)
            + spell(seq![Word("dyn"), Word("Any")], at)
            + spell(seq![Alone('>')], at)
            + spell(seq![Close], at)
            + spell(seq![Close, Alone(','), Word("__context"), Alone(','), Close, Alone(';')], at)
            + spell(
                seq![
                    Word("match"), Word("__aspect"), Alone('.'), Word("around"), Open(Paren),
                    Word("__pjp"), Close, Open(Brace),
                ],
                at,
            )
            + spell(
                seq![
                    Word("Ok"), Open(Paren), Word("__boxed_result"), Close, Joint('='), Alone('>'),
                    Open(Brace), Alone('*'), Word("__boxed_result"), Alone('.'), Word("downcast"),
                    Joint(':'), Alone(':'), Alone('<'), Word("_"), Alone('>'), Open(Paren), Close,
                    Alone('.'), Word("expect"), Open(Paren),
                    Quoted("aspect around() returned wrong type"), Close, Close,
                ],
                at,
            )
            + spell(
                seq![
                    Word("Err"), Open(Paren), Word("__err"), Close, Joint('='), Alone('>'),
                    Open(Brace), Word("panic"), Alone('!'), Open(Paren),
                    Quoted("aspect around() failed: {:?}"), Alone(','), Word("__err"), Close,
                    Alone(';'), Close, Close,
                ],
                at,
            ),
{
}

/// The body that advises an asynchronous function which returns a `Result`, where the advice is
/// asynchronous and where it is not: `after` sees the value and `after_error` the error, and the
/// outcome of the function is returned as it is.
pub proof fn law_body_that_advises_a_result(
    expr: Seq<Tok>,
    kept: Seq<Tok>,
    jp: Seq<Tok>,
    call: Seq<Tok>,
    at: Span,
)
    ensures
        lifecycle(expr, kept, jp, call, true, false, at) == spell(
                seq![
                    Word("use"), Joint(':'), Alone(':'), Word("aspect_core"), Joint(':'),
                    Alone(':'), Word("prelude"), Joint(':'), Alone(':'), Alone('*'), Alone(';'),
                    Word("use"), Joint(':'), Alone(':'), Word("std"), Joint(':'), Alone(':'),
                    Word("any"), Joint(':'), Alone(':'), Word("Any"), Alone(';'),
                ],
                at,
            )
            + spell(seq![Word("let"), Word("__aspect"), Alone('=')], at)
            + expr
            + spell(seq![Alone(';')], at)
            + kept
            + spell(seq![Word("__aspect"), Alone('.'), Word("before"), Open(Paren), Alone('&')], at)
            + jp
            + spell(seq![Close], at)
            + spell(seq![Alone(';')], at)
            + spell(seq![Word("match")], at)
            + call
            + spell(
                seq![
                    Alone('.'), Word("await"), Open(Brace), Word("Ok"), Open(Paren),
                    Word("__value"), Close, Joint('='), Alone('>'), Open(Brace),
                ],
                at,
            )
            + spell(seq![Word("let"), Word("__after_context"), Alone('=')], at)
            + jp
            + spell(
                seq![
                    Alone(';'), Word("__aspect"), Alone('.'), Word("after"), Open(Paren),
                    Alone('&'), Word("__after_context"), Alone(','), Alone('&'),
                ],
                at,
            )
            + spell(seq![Word("__value")], at)
            + spell(seq![Word("as")], at)
            + spell(seq![Alone('&'), Word("dyn"), Word("Any")], at)
            + spell(seq![Close], at)
            + spell(seq![Alone(';')], at)
            + spell(
                seq![
                    Word("Ok"), Open(Paren), Word("__value"), Close, Close, Word("Err"),
                    Open(Paren), Word("__err"), Close, Joint('='), Alone('>'), Open(Brace),
                ],
                at,
            )
            + spell(seq![Word("let"), Word("__error_context"), Alone('=')], at)
            + jp
            + spell(seq![Alone(';'), Word("let"), Word("__aspect_err"), Alone('=')], at)
            + spell(
                seq![
                    Word("AspectError"), Joint(':'), Alone(':'), Word("execution"), Open(Paren),
                    Word("format"), Alone('!'), Open(Paren), Quoted("{:?}"), Alone(','),
                    Word("__err"), Close, Close,
                ],
                at,
            )
            + spell(
                seq![
                    Alone(';'), Word("__aspect"), Alone('.'), Word("after_error"), Open(Paren),
                    Alone('&'), Word("__error_context"), Alone(','), Alone('&'),
                    Word("__aspect_err"), Close,
                ],
                at,
            )
            + spell(seq![Alone(';')], at)
            + spell(seq![Word("Err"), Open(Paren), Word("__err"), Close, Close, Close], at),
        lifecycle(expr, kept, jp, call, true, true, at) == spell(
                seq![
                    Word("use"), Joint(':'), Alone(':'), Word("aspect_core"), Joint(':'),
                    Alone(':'), Word("prelude"), Joint(':'), Alone(':'), Alone('*'), Alone(';'),
                    Word("use"), Joint(':'), Alone(':'), Word("std"), Joint(':'), Alone(':'),
                    Word("any"), Joint(':'), Alone(':'), Word("Any"), Alone(';'),
                ],
                at,
            )
            + spell(seq![Word("let"), Word("__aspect"), Alone('=')], at)
            + expr
            + spell(seq![Alone(';')], at)
            + kept
            + spell(seq![Word("__aspect"), Alone('.'), Word("before"), Open(Paren), Alone('&')], at)
            + jp
            + spell(seq![Close], at)
            + spell(seq![Alone('.'), Word("await"), Alone(';')], at)
            + spell(seq![Word("match")], at)
            + call
            + spell(
                seq![
                    Alone('.'), Word("await"), Open(Brace), Word("Ok"), Open(Paren),
                    Word("__value"), Close, Joint('='), Alone('>'), Open(Brace),
                ],
                at,
            )
            + spell(seq![Word("let"), Word("__after_context"), Alone('=')], at)
            + jp
            + spell(
                seq![
                    Alone(';'), Word("__aspect"), Alone('.'), Word("after"), Open(Paren),
                    Alone('&'), Word("__after_context"), Alone(','), Alone('&'),
                ],
                at,
            )
            + spell(seq![Word("__value")], at)
            + spell(seq![Word("as")], at)
            + spell(
                seq![
                    Alone('&'), Open(Paren), Word("dyn"), Word("Any"), Alone('+'), Word("Send"),
                    Alone('+'), Word("Sync"), Close,
                ],
                at,
            )
            + spell(seq![Close], at)
            + spell(seq![Alone('.'), Word("await"), Alone(';')], at)
            + spell(
                seq![
                    Word("Ok"), Open(Paren), Word("__value"), Close, Close, Word("Err"),
                    Open(Paren), Word("__err"), Close, Joint('='), Alone('>'), Open(Brace),
                ],
                at,
            )
            + spell(seq![Word("let"), Word("__error_context"), Alone('=')], at)
            + jp
            + spell(seq![Alone(';'), Word("let"), Word("__aspect_err"), Alone('=')], at)
            + spell(
                seq![
                    Word("AspectError"), Joint(':'), Alone(':'), Word("execution"), Open(Paren),
                    Word("format"), Alone('!'), Open(Paren), Quoted("{:?}"), Alone(','),
                    Word("__err"), Close, Close,
                ],
                at,
            )
            + spell(
                seq![
                    Alone(';'), Word("__aspect"), Alone('.'), Word("after_error"), Open(Paren),
                    Alone('&'), Word("__error_context"), Alone(','), Alone('&'),
                    Word("__aspect_err"), Close,
                ],
                at,
            )
            + spell(seq![Alone('.'), Word("await"), Alone(';')], at)
            + spell(seq![Word("Err"), Open(Paren), Word("__err"), Close, Close, Close], at),
{
    lemma_advised_result_text(expr, kept, jp, call, at);
    lemma_awaited_result_text(expr, kept, jp, call, at);
}

#[verifier::rlimit(60)]
proof fn lemma_advised_result_text(
    expr: Seq<Tok>,
    kept: Seq<Tok>,
    jp: Seq<Tok>,
    call: Seq<Tok>,
    at: Span,
)
    ensures
        lifecycle(expr, kept, jp, call, true, false, at) == spell(
                seq![
                    Word("use"), Joint(':'), Alone(':'), Word("aspect_core"), Joint(':'),
                    Alone(':'), Word("prelude"), Joint(':'), Alone(':'), Alone('*'), Alone(';'),
                    Word("use"), Joint(':'), Alone(':'), Word("std"), Joint(':'), Alone(':'),
                    Word("any"), Joint(':'), Alone(':'), Word("Any"), Alone(';'),
                ],
                at,
            )
            + spell(seq![Word("let"), Word("__aspect"), Alone('=')], at)
            + expr
            + spell(seq![Alone(';')], at)
            + kept
            + spell(seq![Word("__aspect"), Alone('.'), Word("before"), Open(Paren), Alone('&')], at)
            + jp
            + spell(seq![Close], at)
            + spell(seq![Alone(';')], at)
            + spell(seq![Word("match")], at)
            + call
            + spell(
                seq![
                    Alone('.'), Word("await"), Open(Brace), Word("Ok"), Open(Paren),
                    Word("__value"), Close, Joint('='), Alone('>'), Open(Brace),
                ],
                at,
            )
            + spell(seq![Word("let"), Word("__after_context"), Alone('=')], at)
            + jp
            + spell(
                seq![
                    Alone(';'), Word("__aspect"), Alone('.'), Word("after"), Open(Paren),
                    Alone('&'), Word("__after_context"), Alone(','), Alone('&'),
                ],
                at,
            )
            + spell(seq![Word("__value")], at)
            + spell(seq![Word("as")], at)
            + spell(seq![Alone('&'), Word("dyn"), Word("Any")], at)
            + spell(seq![Close], at)
            + spell(seq![Alone(';')], at)
            + spell(
                seq![
                    Word("Ok"), Open(Paren), Word("__value"), Close, Close, Word("Err"),
                    Open(Paren), Word("__err"), Close, Joint('='), Alone('>'), Open(Brace),
                ],
                at,
            )
            + spell(seq![Word("let"), Word("__error_context"), Alone('=')], at)
            + jp
            + spell(seq![Alone(';'), Word("let"), Word("__aspect_err"), Alone('=')], at)
            + spell(
                seq![
                    Word("AspectError"), Joint(':'), Alone(':'), Word("execution"), Open(Paren),
                    Word("format"), Alone('!'), Open(Paren), Quoted("{:?}"), Alone(','),
                    Word("__err"), Close, Close,
                ],
                at,
            )
            + spell(
                seq![
                    Alone(';'), Word("__aspect"), Alone('.'), Word("after_error"), Open(Paren),
                    Alone('&'), Word("__error_context"), Alone(','), Alone('&'),
                    Word("__aspect_err"), Close,
                ],
                at,
            )
            + spell(seq![Alone(';')], at)
            + spell(seq![Word("Err"), Open(Paren), Word("__err"), Close, Close, Close], at),
{
}

#[verifier::rlimit(60)]
proof fn lemma_awaited_result_text(
    expr: Seq<Tok>,
    kept: Seq<Tok>,
    jp: Seq<Tok>,
    call: Seq<Tok>,
    at: Span,
)
    ensures
        lifecycle(expr, kept, jp, call, true, true, at) == spell(
                seq![
                    Word("use"), Joint(':'), Alone(':'), Word("aspect_core"), Joint(':'),
                    Alone(':'), Word("prelude"), Joint(':'), Alone(':'), Alone('*'), Alone(';'),
                    Word("use"), Joint(':'), Alone(':'), Word("std"), Joint(':'), Alone(':'),
                    Word("any"), Joint(':'), Alone(':'), Word("Any"), Alone(';'),
                ],
                at,
            )
            + spell(seq![Word("let"), Word("__aspect"), Alone('=')], at)
            + expr
            + spell(seq![Alone(';')], at)
            + kept
            + spell(seq![Word("__aspect"), Alone('.'), Word("before"), Open(Paren), Alone('&')], at)
            + jp
            + spell(seq![Close], at)
            + spell(seq![Alone('.'), Word("await"), Alone(';')], at)
            + spell(seq![Word("match")], at)
            + call
            + spell(
                seq![
                    Alone('.'), Word("await"), Open(Brace), Word("Ok"), Open(Paren),
                    Word("__value"), Close, Joint('='), Alone('>'), Open(Brace),
                ],
                at,
            )
            + spell(seq![Word("let"), Word("__after_context"), Alone('=')], at)
            + jp
            + spell(
                seq![
                    Alone(';'), Word("__aspect"), Alone('.'), Word("after"), Open(Paren),
                    Alone('&'), Word("__after_context"), Alone(','), Alone('&'),
                ],
                at,
            )
            + spell(seq![Word("__value")], at)
            + spell(seq![Word("as")], at)
            + spell(
                seq![
                    Alone('&'), Open(Paren), Word("dyn"), Word("Any"), Alone('+'), Word("Send"),
                    Alone('+'), Word("Sync"), Close,
                ],
                at,
            )
            + spell(seq![Close], at)
            + spell(seq![Alone('.'), Word("await"), Alone(';')], at)
            + spell(
                seq![
                    Word("Ok"), Open(Paren), Word("__value"), Close, Close, Word("Err"),
                    Open(Paren), Word("__err"), Close, Joint('='), Alone('>'), Open(Brace),
                ],
                at,
            )
            + spell(seq![Word("let"), Word("__error_context"), Alone('=')], at)
            + jp
            + spell(seq![Alone(';'), Word("let"), Word("__aspect_err"), Alone('=')], at)
            + spell(
                seq![
                    Word("AspectError"), Joint(':'), Alone(':'), Word("execution"), Open(Paren),
                    Word("format"), Alone('!'), Open(Paren), Quoted("{:?}"), Alone(','),
                    Word("__err"), Close, Close,
                ],
                at,
            )
            + spell(
                seq![
                    Alone(';'), Word("__aspect"), Alone('.'), Word("after_error"), Open(Paren),
                    Alone('&'), Word("__error_context"), Alone(','), Alone('&'),
                    Word("__aspect_err"), Close,
                ],
                at,
            )
            + spell(seq![Alone('.'), Word("await"), Alone(';')], at)
            + spell(seq![Word("Err"), Open(Paren), Word("__err"), Close, Close, Close], at),
{
}

/// The body that advises any other asynchronous function: `after` sees the value, which is returned
/// as it is.
pub proof fn law_body_that_advises_a_value(
    expr: Seq<Tok>,
    kept: Seq<Tok>,
    jp: Seq<Tok>,
    call: Seq<Tok>,
    at: Span,
)
    ensures
        lifecycle(expr, kept, jp, call, false, false, at) == spell(
                seq![
                    Word("use"), Joint(':'), Alone(':'), Word("aspect_core"), Joint(':'),
                    Alone(':'), Word("prelude"), Joint(':'), Alone(':'), Alone('*'), Alone(';'),
                    Word("use"), Joint(':'), Alone(':'), Word("std"), Joint(':'), Alone(':'),
                    Word("any"), Joint(':'), Alone(':'), Word("Any"), Alone(';'),
                ],
                at,
            )
            + spell(seq![Word("let"), Word("__aspect"), Alone('=')], at)
            + expr
            + spell(seq![Alone(';')], at)
            + kept
            + spell(seq![Word("__aspect"), Alone('.'), Word("before"), Open(Paren), Alone('&')], at)
            + jp
            + spell(seq![Close], at)
            + spell(seq![Alone(';')], at)
            + spell(seq![Word("let"), Word("__result"), Alone('=')], at)
            + call
            + spell(seq![Alone('.'), Word("await"), Alone(';')], at)
            + spell(seq![Word("let"), Word("__after_context"), Alone('=')], at)
            + jp
            + spell(
                seq![
                    Alone(';'), Word("__aspect"), Alone('.'), Word("after"), Open(Paren),
                    Alone('&'), Word("__after_context"), Alone(','), Alone('&'),
                ],
                at,
            )
            + spell(seq![Word("__result")], at)
            + spell(seq![Word("as")], at)
            + spell(seq![Alone('&'), Word("dyn"), Word("Any")], at)
            + spell(seq![Close], at)
            + spell(seq![Alone(';')], at)
            + spell(seq![Word("__result")], at),
        lifecycle(expr, kept, jp, call, false, true, at) == spell(
                seq![
                    Word("use"), Joint(':'), Alone(':'), Word("aspect_core"), Joint(':'),
                    Alone(':'), Word("prelude"), Joint(':'), Alone(':'), Alone('*'), Alone(';'),
                    Word("use"), Joint(':'), Alone(':'), Word("std"), Joint(':'), Alone(':'),
                    Word("any"), Joint(':'), Alone(':'), Word("Any"), Alone(';'),
                ],
                at,
            )
            + spell(seq![Word("let"), Word("__aspect"), Alone('=')], at)
            + expr
            + spell(seq![Alone(';')], at)
            + kept
            + spell(seq![Word("__aspect"), Alone('.'), Word("before"), Open(Paren), Alone('&')], at)
            + jp
            + spell(seq![Close], at)
            + spell(seq![Alone('.'), Word("await"), Alone(';')], at)
            + spell(seq![Word("let"), Word("__result"), Alone('=')], at)
            + call
            + spell(seq![Alone('.'), Word("await"), Alone(';')], at)
            + spell(seq![Word("let"), Word("__after_context"), Alone('=')], at)
            + jp
            + spell(
                seq![
                    Alone(';'), Word("__aspect"), Alone('.'), Word("after"), Open(Paren),
                    Alone('&'), Word("__after_context"), Alone(','), Alone('&'),
                ],
                at,
            )
            + spell(seq![Word("__result")], at)
            + spell(seq![Word("as")], at)
            + spell(
                seq![
                    Alone('&'), Open(Paren), Word("dyn"), Word("Any"), Alone('+'), Word("Send"),
                    Alone('+'), Word("Sync"), Close,
                ],
                at,
            )
            + spell(seq![Close], at)
            + spell(seq![Alone('.'), Word("await"), Alone(';')], at)
            + spell(seq![Word("__result")], at),
{
    lemma_advised_value_text(expr, kept, jp, call, at);
    lemma_awaited_value_text(expr, kept, jp, call, at);
}

proof fn lemma_advised_value_text(
    expr: Seq<Tok>,
    kept: Seq<Tok>,
    jp: Seq<Tok>,
    call: Seq<Tok>,
    at: Span,
)
    ensures
        lifecycle(expr, kept, jp, call, false, false, at) == spell(
                seq![
                    Word("use"), Joint(':'), Alone(':'), Word("aspect_core"), Joint(':'),
                    Alone(':'), Word("prelude"), Joint(':'), Alone(':'), Alone('*'), Alone(';'),
                    Word("use"), Joint(':'), Alone(':'), Word("std"), Joint(':'), Alone(':'),
                    Word("any"), Joint(':'), Alone(':'), Word("Any"), Alone(';'),
                ],
                at,
            )
            + spell(seq![Word("let"), Word("__aspect"), Alone('=')], at)
            + expr
            + spell(seq![Alone(';')], at)
            + kept
            + spell(seq![Word("__aspect"), Alone('.'), Word("before"), Open(Paren), Alone('&')], at)
            + jp
            + spell(seq![Close], at)
            + spell(seq![Alone(';')], at)
            + spell(seq![Word("let"), Word("__result"), Alone('=')], at)
            + call
            + spell(seq![Alone('.'), Word("await"), Alone(';')], at)
            + spell(seq![Word("let"), Word("__after_context"), Alone('=')], at)
            + jp
            + spell(
                seq![
                    Alone(';'), Word("__aspect"), Alone('.'), Word("after"), Open(Paren),
                    Alone('&'), Word("__after_context"), Alone(','), Alone('&'),
                ],
                at,
            )
            + spell(seq![Word("__result")], at)
            + spell(seq![Word("as")], at)
            + spell(seq![Alone('&'), Word("dyn"), Word("Any")], at)
            + spell(seq![Close], at)
            + spell(seq![Alone(';')], at)
            + spell(seq![Word("__result")], at),
{
}

proof fn lemma_awaited_value_text(
    expr: Seq<Tok>,
    kept: Seq<Tok>,
    jp: Seq<Tok>,
    call: Seq<Tok>,
    at: Span,
)
    ensures
        lifecycle(expr, kept, jp, call, false, true, at) == spell(
                seq![
                    Word("use"), Joint(':'), Alone(':'), Word("aspect_core"), Joint(':'),
                    Alone(':'), Word("prelude"), Joint(':'), Alone(':'), Alone('*'), Alone(';'),
                    Word("use"), Joint(':'), Alone(':'), Word("std"), Joint(':'), Alone(':'),
                    Word("any"), Joint(':'), Alone(':'), Word("Any"), Alone(';'),
                ],
                at,
            )
            + spell(seq![Word("let"), Word("__aspect"), Alone('=')], at)
            + expr
            + spell(seq![Alone(';')], at)
            + kept
            + spell(seq![Word("__aspect"), Alone('.'), Word("before"), Open(Paren), Alone('&')], at)
            + jp
            + spell(seq![Close], at)
            + spell(seq![Alone('.'), Word("await"), Alone(';')], at)
            + spell(seq![Word("let"), Word("__result"), Alone('=')], at)
            + call
            + spell(seq![Alone('.'), Word("await"), Alone(';')], at)
            + spell(seq![Word("let"), Word("__after_context"), Alone('=')], at)
            + jp
            + spell(
                seq![
                    Alone(';'), Word("__aspect"), Alone('.'), Word("after"), Open(Paren),
                    Alone('&'), Word("__after_context"), Alone(','), Alone('&'),
                ],
                at,
            )
            + spell(seq![Word("__result")], at)
            + spell(seq![Word("as")], at)
            + spell(
                seq![
                    Alone('&'), Open(Paren), Word("dyn"), Word("Any"), Alone('+'), Word("Send"),
                    Alone('+'), Word("Sync"), Close,
                ],
                at,
            )
            + spell(seq![Close], at)
            + spell(seq![Alone('.'), Word("await"), Alone(';')], at)
            + spell(seq![Word("__result")], at),
{
}

/// The body of an asynchronous aspect, whatever the function and its arguments are. Without an
/// `around` of its own the aspect advises before and after the call. With one, a `Result` reaches
/// `around` as a value in a box or as the aspect's error, and an error that comes back becomes the
/// function's; any other value is boxed and taken out again, and an error is fatal. A value of an
/// unnamed type is refused.
pub proof fn law_body_of_an_asynchronous_aspect(
    expr: Seq<Tok>,
    kept: Seq<Tok>,
    jp: Seq<Tok>,
    call: Seq<Tok>,
    is_result: bool,
    returns_impl_trait: bool,
    at: Span,
)
    ensures
        async_advice(expr, kept, jp, call, is_result, returns_impl_trait, false, at) == lifecycle(
            expr,
            kept,
            jp,
            call,
            is_result,
            true,
            at,
        ),
        async_advice(expr, kept, jp, call, true, returns_impl_trait, true, at) == spell(
                seq![
                    Word("use"), Joint(':'), Alone(':'), Word("aspect_core"), Joint(':'),
                    Alone(':'), Word("prelude"), Joint(':'), Alone(':'), Alone('*'), Alone(';'),
                    Word("use"), Joint(':'), Alone(':'), Word("std"), Joint(':'), Alone(':'),
                    Word("any"), Joint(':'), Alone(':'), Word("Any"), Alone(';'),
                ],
                at,
            )
            + spell(seq![Word("let"), Word("__aspect"), Alone('=')], at)
            + expr
            + spell(seq![Alone(';')], at)
            + kept
            + spell(seq![Word("let"), Word("__context"), Alone('=')], at)
            + jp
            + spell(
                seq![
                    Alone(';'), Word("let"), Word("__pjp"), Alone('='),
                    Word("AsyncProceedingJoinPoint"), Joint(':'), Alone(':'), Word("new"),
                    Open(Paren), Word("move"), Joint('|'), Alone('|'), Open(Brace), Word("Box"),
                    Joint(':'), Alone(':'), Word("pin"), Open(Paren), Word("async"), Word("move"),
                    Open(Brace),
                ],
                at,
            )
            + spell(seq![Word("match")], at)
            + call
            + spell(seq![Alone('.'), Word("await")], at)
            + spell(
                seq![
                    Open(Brace), Word("Ok"), Open(Paren), Word("__val"), Close, Joint('='),
                    Alone('>'), Word("Ok"), Open(Paren),
                ],
                at,
            )
            + spell(seq![Word("Box"), Joint(':'), Alone(':'), Word("new"), Open(Paren)], at)
            + spell(seq![Word("__val")], at)
            + spell(seq![Close, Word("as"), Word("Box"), Alone('<')], at)
            + spell(
                seq![
                    Word("dyn"), Word("Any"), Alone('+'), Word("Send"), Alone('+'), Word("Sync"),
                ],
                at,
            )
            + spell(seq![Alone('>')], at)
            + spell(
                seq![
                    Close, Alone(','), Word("Err"), Open(Paren), Word("__err"), Close, Joint('='),
                    Alone('>'), Word("Err"), Open(Paren),
                ],
                at,
            )
            + spell(
                seq![
                    Word("AspectError"), Joint(':'), Alone(':'), Word("execution"), Open(Paren),
                    Word("format"), Alone('!'), Open(Paren), Quoted("{:?}"), Alone(','),
                    Word("__err"), Close, Close,
                ],
                at,
            )
            + spell(seq![Close, Alone(','), Close], at)
            + spell(
                seq![
                    Close, Close, Close, Alone(','), Word("__context"), Alone(','), Close,
                    Alone(';'),
                ],
                at,
            )
            + spell(
                seq![
                    Word("match"), Word("__aspect"), Alone('.'), Word("around"), Open(Paren),
                    Word("__pjp"), Close, Alone('.'), Word("await"), Open(Brace),
                ],
                at,
            )
            + spell(
                seq![
                    Word("Ok"), Open(Paren), Word("__boxed_result"), Close, Joint('='), Alone('>'),
                    Open(Brace), Word("let"), Word("__result"), Alone('='), Alone('*'),
                    Word("__boxed_result"), Alone('.'), Word("downcast"), Joint(':'), Alone(':'),
                    Alone('<'), Word("_"), Alone('>'), Open(Paren), Close, Alone('.'),
                    Word("expect"), Open(Paren),
                    Quoted("async aspect around() returned wrong type"), Close, Alone(';'),
                    Word("Ok"), Open(Paren), Word("__result"), Close, Close,
                ],
                at,
            )
            + spell(
                seq![
                    Word("Err"), Open(Paren), Word("__err"), Close, Joint('='), Alone('>'),
                    Word("Err"), Open(Paren), Word("format"), Alone('!'), Open(Paren),
                    Quoted("{:?}"), Alone(','), Word("__err"), Close, Alone('.'), Word("into"),
                    Open(Paren), Close, Close, Close,
                ],
                at,
            ),
        async_advice(expr, kept, jp, call, false, true, true, at) == spell(
                seq![
                    Word("compile_error"), Alone('!'), Open(Paren),
                    Quoted("async aspects that override around() cannot be applied to async fn returning impl Trait; use a concrete return type or rely on before/after/after_error only"),
                    Close, Alone(';'),
                ],
                at,
            ),
        async_advice(expr, kept, jp, call, false, false, true, at) == spell(
                seq![
                    Word("use"), Joint(':'), Alone(':'), Word("aspect_core"), Joint(':'),
                    Alone(':'), Word("prelude"), Joint(':'), Alone(':'), Alone('*'), Alone(';'),
                    Word("use"), Joint(':'), Alone(':'), Word("std"), Joint(':'), Alone(':'),
                    Word("any"), Joint(':'), Alone(':'), Word("Any"), Alone(';'),
                ],
                at,
            )
            + spell(
                seq![
                    Word("fn"), Word("__async_aspect_take_result"), Alone('<'), Word("T"),
                    Alone(':'), Joint('\''), Word("static"), Alone('+'), Word("Send"), Alone('>'),
                    Open(Paren), Word("boxed"), Alone(':'), Word("Box"), Alone('<'), Word("dyn"),
                    Word("Any"), Alone('+'), Word("Send"), Alone('+'), Word("Sync"), Alone('>'),
                    Close, Joint('-'), Alone('>'), Word("T"), Open(Brace), Alone('*'),
                    Word("boxed"), Alone('.'), Word("downcast"), Joint(':'), Alone(':'), Alone('<'),
                    Word("T"), Alone('>'), Open(Paren), Close, Alone('.'), Word("expect"),
                    Open(Paren), Quoted("async aspect around() returned wrong type"), Close, Close,
                ],
                at,
            )
            + spell(seq![Word("let"), Word("__aspect"), Alone('=')], at)
            + expr
            + spell(seq![Alone(';')], at)
            + kept
            + spell(seq![Word("let"), Word("__context"), Alone('=')], at)
            + jp
            + spell(
                seq![
                    Alone(';'), Word("let"), Word("__pjp"), Alone('='),
                    Word("AsyncProceedingJoinPoint"), Joint(':'), Alone(':'), Word("new"),
                    Open(Paren), Word("move"), Joint('|'), Alone('|'), Open(Brace), Word("Box"),
                    Joint(':'), Alone(':'), Word("pin"), Open(Paren), Word("async"), Word("move"),
                    Open(Brace),
                ],
                at,
            )
            + spell(seq![Word("let"), Word("__result"), Alone('=')], at)
            + call
            + spell(seq![Alone('.'), Word("await")], at)
            + spell(seq![Alone(';'), Word("Ok"), Open(Paren)], at)
            + spell(seq![Word("Box"), Joint(':'), Alone(':'), Word("new"), Open(Paren)], at)
            + spell(seq![Word("__result")], at)
            + spell(seq![Close, Word("as"), Word("Box"), Alone('<')], at)
            + spell(
                seq![
                    Word("dyn"), Word("Any"), Alone('+'), Word("Send"), Alone('+'), Word("Sync"),
                ],
                at,
            )
            + spell(seq![Alone('>')], at)
            + spell(seq![Close], at)
            + spell(
                seq![
                    Close, Close, Close, Alone(','), Word("__context"), Alone(','), Close,
                    Alone(';'),
                ],
                at,
            )
            + spell(
                seq![
                    Word("match"), Word("__aspect"), Alone('.'), Word("around"), Open(Paren),
                    Word("__pjp"), Close, Alone('.'), Word("await"), Open(Brace),
                ],
                at,
            )
            + spell(
                seq![
                    Word("Ok"), Open(Paren), Word("__boxed_result"), Close, Joint('='), Alone('>'),
                    Open(Brace), Word("let"), Word("__result"), Alone('='),
                    Word("__async_aspect_take_result"), Open(Paren), Word("__boxed_result"), Close,
                    Alone(';'), Word("__result"), Close,
                ],
                at,
            )
            + spell(
                seq![
                    Word("Err"), Open(Paren), Word("__err"), Close, Joint('='), Alone('>'),
                    Word("panic"), Alone('!'), Open(Paren),
                    Quoted("async aspect around() failed: {:?}"), Alone(','), Word("__err"), Close,
                    Close,
                ],
                at,
            ),
{
    lemma_around_result_text(expr, kept, jp, call, returns_impl_trait, at);
    lemma_around_value_text(expr, kept, jp, call, at);
}

#[verifier::rlimit(60)]
proof fn lemma_around_result_text(
    expr: Seq<Tok>,
    kept: Seq<Tok>,
    jp: Seq<Tok>,
    call: Seq<Tok>,
    returns_impl_trait: bool,
    at: Span,
)
    ensures
        async_advice(expr, kept, jp, call, true, returns_impl_trait, true, at) == spell(
                seq![
                    Word("use"), Joint(':'), Alone(':'), Word("aspect_core"), Joint(':'),
                    Alone(':'), Word("prelude"), Joint(':'), Alone(':'), Alone('*'), Alone(';'),
                    Word("use"), Joint(':'), Alone(':'), Word("std"), Joint(':'), Alone(':'),
                    Word("any"), Joint(':'), Alone(':'), Word("Any"), Alone(';'),
                ],
                at,
            )
            + spell(seq![Word("let"), Word("__aspect"), Alone('=')], at)
            + expr
            + spell(seq![Alone(';')], at)
            + kept
            + spell(seq![Word("let"), Word("__context"), Alone('=')], at)
            + jp
            + spell(
                seq![
                    Alone(';'), Word("let"), Word("__pjp"), Alone('='),
                    Word("AsyncProceedingJoinPoint"), Joint(':'), Alone(':'), Word("new"),
                    Open(Paren), Word("move"), Joint('|'), Alone('|'), Open(Brace), Word("Box"),
                    Joint(':'), Alone(':'), Word("pin"), Open(Paren), Word("async"), Word("move"),
                    Open(Brace),
                ],
                at,
            )
            + spell(seq![Word("match")], at)
            + call
            + spell(seq![Alone('.'), Word("await")], at)
            + spell(
                seq![
                    Open(Brace), Word("Ok"), Open(Paren), Word("__val"), Close, Joint('='),
                    Alone('>'), Word("Ok"), Open(Paren),
                ],
                at,
            )
            + spell(seq![Word("Box"), Joint(':'), Alone(':'), Word("new"), Open(Paren)], at)
            + spell(seq![Word("__val")], at)
            + spell(seq![Close, Word("as"), Word("Box"), Alone('<')], at)
            + spell(
                seq![
                    Word("dyn"), Word("Any"), Alone('+'), Word("Send"), Alone('+'), Word("Sync"),
                ],
                at,
            )
            + spell(seq![Alone('>')], at)
            + spell(
                seq![
                    Close, Alone(','), Word("Err"), Open(Paren), Word("__err"), Close, Joint('='),
                    Alone('>'), Word("Err"), Open(Paren),
                ],
                at,
            )
            + spell(
                seq![
                    Word("AspectError"), Joint(':'), Alone(':'), Word("execution"), Open(Paren),
                    Word("format"), Alone('!'), Open(Paren), Quoted("{:?}"), Alone(','),
                    Word("__err"), Close, Close,
                ],
                at,
            )
            + spell(seq![Close, Alone(','), Close], at)
            + spell(
                seq![
                    Close, Close, Close, Alone(','), Word("__context"), Alone(','), Close,
                    Alone(';'),
                ],
                at,
            )
            + spell(
                seq![
                    Word("match"), Word("__aspect"), Alone('.'), Word("around"), Open(Paren),
                    Word("__pjp"), Close, Alone('.'), Word("await"), Open(Brace),
                ],
                at,
            )
            + spell(
                seq![
                    Word("Ok"), Open(Paren), Word("__boxed_result"), Close, Joint('='), Alone('>'),
                    Open(Brace), Word("let"), Word("__result"), Alone('='), Alone('*'),
                    Word("__boxed_result"), Alone('.'), Word("downcast"), Joint(':'), Alone(':'),
                    Alone('<'), Word("_"), Alone('>'), Open(Paren), Close, Alone('.'),
                    Word("expect"), Open(Paren),
                    Quoted("async aspect around() returned wrong type"), Close, Alone(';'),
                    Word("Ok"), Open(Paren), Word("__result"), Close, Close,
                ],
                at,
            )
            + spell(
                seq![
                    Word("Err"), Open(Paren), Word("__err"), Close, Joint('='), Alone('>'),
                    Word("Err"), Open(Paren), Word("format"), Alone('!'), Open(Paren),
                    Quoted("{:?}"), Alone(','), Word("__err"), Close, Alone('.'), Word("into"),
                    Open(Paren), Close, Close, Close,
                ],
                at,
            ),
{
}

#[verifier::rlimit(60)]
proof fn lemma_around_value_text(
    expr: Seq<Tok>,
    kept: Seq<Tok>,
    jp: Seq<Tok>,
    call: Seq<Tok>,
    at: Span,
)
    ensures
        async_advice(expr, kept, jp, call, false, false, true, at) == spell(
                seq![
                    Word("use"), Joint(':'), Alone(':'), Word("aspect_core"), Joint(':'),
                    Alone(':'), Word("prelude"), Joint(':'), Alone(':'), Alone('*'), Alone(';'),
                    Word("use"), Joint(':'), Alone(':'), Word("std"), Joint(':'), Alone(':'),
                    Word("any"), Joint(':'), Alone(':'), Word("Any"), Alone(';'),
                ],
                at,
            )
            + spell(
                seq![
                    Word("fn"), Word("__async_aspect_take_result"), Alone('<'), Word("T"),
                    Alone(':'), Joint('\''), Word("static"), Alone('+'), Word("Send"), Alone('>'),
                    Open(Paren), Word("boxed"), Alone(':'), Word("Box"), Alone('<'), Word("dyn"),
                    Word("Any"), Alone('+'), Word("Send"), Alone('+'), Word("Sync"), Alone('>'),
                    Close, Joint('-'), Alone('>'), Word("T"), Open(Brace), Alone('*'),
                    Word("boxed"), Alone('.'), Word("downcast"), Joint(':'), Alone(':'), Alone('<'),
                    Word("T"), Alone('>'), Open(Paren), Close, Alone('.'), Word("expect"),
                    Open(Paren), Quoted("async aspect around() returned wrong type"), Close, Close,
                ],
                at,
            )
            + spell(seq![Word("let"), Word("__aspect"), Alone('=')], at)
            + expr
            + spell(seq![Alone(';')], at)
            + kept
            + spell(seq![Word("let"), Word("__context"), Alone('=')], at)
            + jp
            + spell(
                seq![
                    Alone(';'), Word("let"), Word("__pjp"), Alone('='),
                    Word("AsyncProceedingJoinPoint"), Joint(':'), Alone(':'), Word("new"),
                    Open(Paren), Word("move"), Joint('|'), Alone('|'), Open(Brace), Word("Box"),
                    Joint(':'), Alone(':'), Word("pin"), Open(Paren), Word("async"), Word("move"),
                    Open(Brace),
                ],
                at,
            )
            + spell(seq![Word("let"), Word("__result"), Alone('=')], at)
            + call
            + spell(seq![Alone('.'), Word("await")], at)
            + spell(seq![Alone(';'), Word("Ok"), Open(Paren)], at)
            + spell(seq![Word("Box"), Joint(':'), Alone(':'), Word("new"), Open(Paren)], at)
            + spell(seq![Word("__result")], at)
            + spell(seq![Close, Word("as"), Word("Box"), Alone('<')], at)
            + spell(
                seq![
                    Word("dyn"), Word("Any"), Alone('+'), Word("Send"), Alone('+'), Word("Sync"),
                ],
                at,
            )
            + spell(seq![Alone('>')], at)
            + spell(seq![Close], at)
            + spell(
                seq![
                    Close, Close, Close, Alone(','), Word("__context"), Alone(','), Close,
                    Alone(';'),
                ],
                at,
            )
            + spell(
                seq![
                    Word("match"), Word("__aspect"), Alone('.'), Word("around"), Open(Paren),
                    Word("__pjp"), Close, Alone('.'), Word("await"), Open(Brace),
                ],
                at,
            )
            + spell(
                seq![
                    Word("Ok"), Open(Paren), Word("__boxed_result"), Close, Joint('='), Alone('>'),
                    Open(Brace), Word("let"), Word("__result"), Alone('='),
                    Word("__async_aspect_take_result"), Open(Paren), Word("__boxed_result"), Close,
                    Alone(';'), Word("__result"), Close,
                ],
                at,
            )
            + spell(
                seq![
                    Word("Err"), Open(Paren), Word("__err"), Close, Joint('='), Alone('>'),
                    Word("panic"), Alone('!'), Open(Paren),
                    Quoted("async aspect around() failed: {:?}"), Alone(','), Word("__err"), Close,
                    Close,
                ],
                at,
            ),
{
}

} // verus!
