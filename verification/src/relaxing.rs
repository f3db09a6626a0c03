//! How advice that crosses threads differs from advice that does not.

use crate::builder::{depth_after, spell, Piece};
use crate::builder::Piece::{Alone, Close, Joint, Open, Word};
use crate::counting::{is_ident, occurrences};
use crate::laws::{is_call, outcome};
use crate::nesting::{balanced, level};
use crate::syntax::{Name, PatternShapeView, PatternView};
use crate::templates::{
    advice_end, advised_result, advised_value, after_advice, any_ref, args_vec, async_advice,
    before_advice, boxed, boxed_clones, call_arg, call_args, capture_name, capture_names,
    captured_join_point, captures, dyn_any, error_advice, execution_error, imports, join_point,
    join_point_type, let_aspect, lifecycle, line_of_call, original_call, singletons,
};
use crate::tokens::Delim::{Brace, Bracket, Paren};
use crate::tokens::Tok;
use proc_macro2::Span;
use vstd::prelude::*;

verus! {

/// Whether a token is the punctuation character `c`.
pub open spec fn is_char(tok: Tok, c: char) -> bool {
    tok matches Tok::Punct(d, _, _) && d == c
}

/// The tokens begin with `dyn Any + Send + Sync`.
pub open spec fn starts_bounds(toks: Seq<Tok>) -> bool {
    &&& toks.len() >= 6
    &&& is_ident(toks[0], "dyn"@)
    &&& is_ident(toks[1], "Any"@)
    &&& is_char(toks[2], '+')
    &&& is_ident(toks[3], "Send"@)
    &&& is_char(toks[4], '+')
    &&& is_ident(toks[5], "Sync"@)
}

/// The tokens begin with `&(dyn Any + Send + Sync)`.
pub open spec fn starts_bounded_ref(toks: Seq<Tok>) -> bool {
    &&& toks.len() >= 9
    &&& is_char(toks[0], '&')
    &&& toks[1] matches Tok::Open(delim, _) && delim == Paren
    &&& starts_bounds(toks.skip(2))
    &&& toks[8] is Close
}

/// The tokens begin with a call of advice: `__aspect.before(` and so on.
pub open spec fn starts_advice(toks: Seq<Tok>) -> bool {
    is_call(toks, "before"@) || is_call(toks, "after"@) || is_call(toks, "after_error"@)
}

/// The tokens begin with `.await`.
pub open spec fn starts_await(toks: Seq<Tok>) -> bool {
    toks.len() >= 2 && is_char(toks[0], '.') && is_ident(toks[1], "await"@)
}

/// The same tokens for advice that does not cross threads: `JoinPoint` in place of
/// `AsyncJoinPoint`, `&dyn Any` in place of `&(dyn Any + Send + Sync)`, `dyn Any` in place of
/// `dyn Any + Send + Sync`, and no `.await` behind a call of advice. For each group that is open at
/// the first token, `open` says whether it has the arguments of such a call.
pub open spec fn relaxed(toks: Seq<Tok>, open: Seq<bool>) -> Seq<Tok>
    decreases toks.len(),
{
    if toks.len() == 0 {
        Seq::empty()
    } else if starts_bounded_ref(toks) {
        seq![toks[0], toks[2], toks[3]] + relaxed(toks.skip(9), open)
    } else if starts_bounds(toks) {
        seq![toks[0], toks[1]] + relaxed(toks.skip(6), open)
    } else if starts_advice(toks) {
        toks.take(4) + relaxed(toks.skip(4), open.push(true))
    } else {
        match toks[0] {
            Tok::Open(_, _) => seq![toks[0]] + relaxed(toks.skip(1), open.push(false)),
            Tok::Close => if open.len() == 0 {
                seq![toks[0]] + relaxed(toks.skip(1), open)
            } else if open.last() && starts_await(toks.skip(1)) {
                seq![toks[0]] + relaxed(toks.skip(3), open.drop_last())
            } else {
                seq![toks[0]] + relaxed(toks.skip(1), open.drop_last())
            },
            Tok::Ident(text, span) => if text == "AsyncJoinPoint"@ {
                seq![Tok::Ident("JoinPoint"@, span)] + relaxed(toks.skip(1), open)
            } else {
                seq![toks[0]] + relaxed(toks.skip(1), open)
            },
            _ => seq![toks[0]] + relaxed(toks.skip(1), open),
        }
    }
}

/// A text that is none of the identifiers by which the two kinds of advice differ.
pub open spec fn is_neutral(text: Seq<char>) -> bool {
    text != "AsyncJoinPoint"@ && text != "Any"@ && text != "__aspect"@
}

/// The tokens hold none of the identifiers by which the two kinds of advice differ.
pub open spec fn are_neutral(toks: Seq<Tok>) -> bool {
    &&& occurrences(toks, "AsyncJoinPoint"@) == 0
    &&& occurrences(toks, "Any"@) == 0
    &&& occurrences(toks, "__aspect"@) == 0
}

/// A parameter that neither holds one of those identifiers nor binds it, and whose groups are
/// balanced.
pub open spec fn is_neutral_pat(pat: PatternView) -> bool {
    &&& are_neutral(pat.tokens)
    &&& balanced(pat.tokens)
    &&& pat.shape matches PatternShapeView::Ident(name, false) ==> is_neutral(name.text)
}

/// Nothing in the tokens is changed, whatever follows them.
spec fn is_calm(toks: Seq<Tok>) -> bool {
    forall|i: int| 0 <= i < toks.len() ==> is_calm_at(toks, i)
}

spec fn is_calm_at(toks: Seq<Tok>, i: int) -> bool {
    &&& !is_ident(toks[i], "AsyncJoinPoint"@)
    &&& is_ident(toks[i], "Any"@) ==> i + 1 < toks.len() && !is_char(toks[i + 1], '+')
    &&& is_ident(toks[i], "__aspect"@) ==> i + 1 < toks.len() && !is_char(toks[i + 1], '.')
}

broadcast proof fn lemma_calm_add(a: Seq<Tok>, b: Seq<Tok>)
    requires
        is_calm(a),
        is_calm(b),
    ensures
        #[trigger] is_calm(a + b),
{
    assert forall|i: int| 0 <= i < (a + b).len() implies is_calm_at(a + b, i) by {
        if i < a.len() {
            assert(is_calm_at(a, i));
        } else {
            assert(is_calm_at(b, i - a.len()));
        }
    }
}

broadcast proof fn lemma_calm_one(tok: Tok)
    requires
        tok matches Tok::Ident(text, _) ==> is_neutral(text),
    ensures
        #[trigger] is_calm(seq![tok]),
{
}

proof fn lemma_lacks(toks: Seq<Tok>, text: Seq<char>)
    requires
        occurrences(toks, text) == 0,
    ensures
        forall|i: int| 0 <= i < toks.len() ==> !is_ident(#[trigger] toks[i], text),
    decreases toks.len(),
{
    if toks.len() > 0 {
        lemma_lacks(toks.drop_last(), text);
        assert forall|i: int| 0 <= i < toks.len() implies !is_ident(#[trigger] toks[i], text) by {
            if i < toks.len() - 1 {
                assert(toks.drop_last()[i] == toks[i]);
            }
        }
    }
}

proof fn lemma_calm_neutral(toks: Seq<Tok>)
    requires
        are_neutral(toks),
    ensures
        is_calm(toks),
{
    lemma_lacks(toks, "AsyncJoinPoint"@);
    lemma_lacks(toks, "Any"@);
    lemma_lacks(toks, "__aspect"@);
    assert forall|i: int| 0 <= i < toks.len() implies is_calm_at(toks, i) by {
        assert(!is_ident(toks[i], "AsyncJoinPoint"@));
    }
}

/// The piece at `i` is left as it is.
spec fn is_calm_piece(pieces: Seq<Piece>, i: int) -> bool {
    match pieces[i] {
        Piece::Word(word) => {
            ||| is_neutral(word@)
            ||| word@ == "Any"@ && i + 1 < pieces.len() && pieces[i + 1] == Alone(';')
            ||| word@ == "__aspect"@ && i + 1 < pieces.len() && pieces[i + 1] == Alone('=')
        },
        _ => true,
    }
}

spec fn are_calm_pieces(pieces: Seq<Piece>, n: nat) -> bool
    decreases n,
{
    n == 0 || (is_calm_piece(pieces, n - 1) && are_calm_pieces(pieces, (n - 1) as nat))
}

proof fn lemma_calm_pieces(pieces: Seq<Piece>, n: nat)
    requires
        are_calm_pieces(pieces, n),
    ensures
        forall|i: int| 0 <= i < n ==> is_calm_piece(pieces, i),
    decreases n,
{
    if n > 0 {
        lemma_calm_pieces(pieces, (n - 1) as nat);
    }
}

/// What fixed text spells is left as it is where all its pieces are.
broadcast proof fn lemma_calm_spelled(pieces: Seq<Piece>, at: Span)
    requires
        are_calm_pieces(pieces, pieces.len()),
    ensures
        #[trigger] is_calm(spell(pieces, at)),
{
    reveal(spell);
    lemma_special_words();
    lemma_calm_pieces(pieces, pieces.len());
    let toks = spell(pieces, at);
    assert forall|i: int| 0 <= i < toks.len() implies is_calm_at(toks, i) by {
        assert(is_calm_piece(pieces, i));
    }
}

broadcast group group_calm {
    lemma_calm_add,
    lemma_calm_one,
    lemma_calm_spelled,
}

/// The identifiers by which the two kinds of advice differ are three different ones.
proof fn lemma_special_words()
    ensures
        "AsyncJoinPoint"@.len() == 14 && "AsyncJoinPoint"@[0] == 'A',
        "Any"@.len() == 3 && "Any"@[0] == 'A',
        "Any"@[1] == 'n' && "Any"@[2] == 'y',
        "__aspect"@.len() == 8 && "__aspect"@[0] == '_' && "__aspect"@[1] == '_',
        "__aspect"@[2] == 'a',
{
    reveal_strlit("AsyncJoinPoint");
    reveal_strlit("Any");
    reveal_strlit("__aspect");
}

/// The words around advice, other than those by which the two kinds of it differ.
proof fn lemma_neutral_words()
    ensures
        is_neutral("Ok"@),
        is_neutral("as"@),
        is_neutral("Box"@),
        is_neutral("Err"@),
        is_neutral("any"@),
        is_neutral("dyn"@),
        is_neutral("let"@),
        is_neutral("new"@),
        is_neutral("std"@),
        is_neutral("use"@),
        is_neutral("vec"@),
        is_neutral("Self"@),
        is_neutral("args"@),
        is_neutral("core"@),
        is_neutral("file"@),
        is_neutral("line"@),
        is_neutral("self"@),
        is_neutral("__err"@),
        is_neutral("after"@),
        is_neutral("await"@),
        is_neutral("clone"@),
        is_neutral("match"@),
        is_neutral("before"@),
        is_neutral("format"@),
        is_neutral("__value"@),
        is_neutral("prelude"@),
        is_neutral("Location"@),
        is_neutral("__result"@),
        is_neutral("location"@),
        is_neutral("JoinPoint"@),
        is_neutral("execution"@),
        is_neutral("AspectError"@),
        is_neutral("after_error"@),
        is_neutral("aspect_core"@),
        is_neutral("module_path"@),
        is_neutral("__aspect_err"@),
        is_neutral("function_name"@),
        is_neutral("__after_context"@),
        is_neutral("__error_context"@),
        "as"@ != "dyn"@,
        "__result"@ != "dyn"@,
        "__aspect_err"@ != "dyn"@,
{
    lemma_special_words();
    reveal_strlit("Ok");
    reveal_strlit("as");
    reveal_strlit("Box");
    reveal_strlit("Err");
    reveal_strlit("any");
    reveal_strlit("dyn");
    reveal_strlit("let");
    reveal_strlit("new");
    reveal_strlit("std");
    reveal_strlit("use");
    reveal_strlit("vec");
    reveal_strlit("Self");
    reveal_strlit("args");
    reveal_strlit("core");
    reveal_strlit("file");
    reveal_strlit("line");
    reveal_strlit("self");
    reveal_strlit("__err");
    reveal_strlit("after");
    reveal_strlit("await");
    reveal_strlit("clone");
    reveal_strlit("match");
    reveal_strlit("before");
    reveal_strlit("format");
    reveal_strlit("__value");
    reveal_strlit("prelude");
    reveal_strlit("Location");
    reveal_strlit("__result");
    reveal_strlit("location");
    reveal_strlit("JoinPoint");
    reveal_strlit("execution");
    reveal_strlit("AspectError");
    reveal_strlit("after_error");
    reveal_strlit("aspect_core");
    reveal_strlit("module_path");
    reveal_strlit("__aspect_err");
    reveal_strlit("function_name");
    reveal_strlit("__after_context");
    reveal_strlit("__error_context");
    assert("Ok"@.len() == 2);
    assert("as"@.len() == 2);
    assert("Box"@.len() == 3 && "Box"@[0] == 'B');
    assert("Err"@.len() == 3 && "Err"@[0] == 'E');
    assert("any"@.len() == 3 && "any"@[0] == 'a');
    assert("dyn"@.len() == 3 && "dyn"@[0] == 'd');
    assert("let"@.len() == 3 && "let"@[0] == 'l');
    assert("new"@.len() == 3 && "new"@[0] == 'n');
    assert("std"@.len() == 3 && "std"@[0] == 's');
    assert("use"@.len() == 3 && "use"@[0] == 'u');
    assert("vec"@.len() == 3 && "vec"@[0] == 'v');
    assert("Self"@.len() == 4);
    assert("args"@.len() == 4);
    assert("core"@.len() == 4);
    assert("file"@.len() == 4);
    assert("line"@.len() == 4);
    assert("self"@.len() == 4);
    assert("__err"@.len() == 5);
    assert("after"@.len() == 5);
    assert("await"@.len() == 5);
    assert("clone"@.len() == 5);
    assert("match"@.len() == 5);
    assert("before"@.len() == 6);
    assert("format"@.len() == 6);
    assert("__value"@.len() == 7);
    assert("prelude"@.len() == 7);
    assert("Location"@.len() == 8 && "Location"@[0] == 'L');
    assert("__result"@.len() == 8 && "__result"@[2] == 'r');
    assert("location"@.len() == 8 && "location"@[0] == 'l');
    assert("JoinPoint"@.len() == 9);
    assert("execution"@.len() == 9);
    assert("AspectError"@.len() == 11);
    assert("after_error"@.len() == 11);
    assert("aspect_core"@.len() == 11);
    assert("module_path"@.len() == 11);
    assert("__aspect_err"@.len() == 12);
    assert("function_name"@.len() == 13);
    assert("__after_context"@.len() == 15);
    assert("__error_context"@.len() == 15);
}

/// Groups that have no arguments of advice.
spec fn plain_groups(depth: int) -> Seq<bool> {
    Seq::new(depth as nat, |i: int| false)
}

/// No bound that begins in `u` ends in `t`.
spec fn are_apart(u: Seq<Tok>, t: Seq<Tok>) -> bool {
    ||| u.len() == 0
    ||| forall|j: int| 0 <= j < 3 && j < t.len() ==> !is_ident(#[trigger] t[j], "Any"@)
    ||| ends_apart(u.last())
}

spec fn ends_apart(tok: Tok) -> bool {
    match tok {
        Tok::Open(delim, _) => delim != Paren,
        Tok::Punct(c, _, _) => c != '&',
        Tok::Ident(text, _) => text != "dyn"@,
        _ => true,
    }
}

/// What is calm stays as it is, and its groups have no arguments of advice.
proof fn lemma_relaxed_calm(u: Seq<Tok>, t: Seq<Tok>, base: Seq<bool>, depth: int)
    requires
        is_calm(u),
        depth >= 0,
        level(u, depth) >= 0,
        are_apart(u, t),
    ensures
        relaxed(u + t, base + plain_groups(depth)) == u + relaxed(
            t,
            base + plain_groups(level(u, depth)),
        ),
    decreases u.len(),
{
    let open = base + plain_groups(depth);
    let toks = u + t;
    if u.len() == 0 {
        assert(toks =~= t);
        assert(u + relaxed(t, open) =~= relaxed(t, open));
    } else {
        let x = u[0];
        let rest = u.drop_first();
        assert(u =~= seq![x] + rest);
        broadcast use crate::nesting::group_level;

        let next = level(seq![x], depth);
        assert(level(u, depth) == level(rest, next));
        assert(toks.skip(1) =~= rest + t);
        assert(is_calm(rest)) by {
            assert forall|i: int| 0 <= i < rest.len() implies is_calm_at(rest, i) by {
                assert(is_calm_at(u, i + 1));
            }
        }
        assert(are_apart(rest, t)) by {
            if rest.len() > 0 {
                assert(rest.last() == u.last());
            }
        }
        lemma_starts_nothing(u, t);
        lemma_relaxed_calm(rest, t, base, next);
        let tail = relaxed(t, base + plain_groups(level(u, depth)));
        assert(u + tail =~= seq![x] + (rest + tail));
        match x {
            Tok::Open(_, _) => {
                assert(open.push(false) =~= base + plain_groups(next));
            },
            Tok::Close => {
                assert(open.drop_last() =~= base + plain_groups(next));
            },
            _ => {},
        }
    }
}

/// Nothing that is changed begins with the first token of what is calm.
proof fn lemma_starts_nothing(u: Seq<Tok>, t: Seq<Tok>)
    requires
        is_calm(u),
        u.len() > 0,
        are_apart(u, t),
    ensures
        !starts_bounded_ref(u + t),
        !starts_bounds(u + t),
        !starts_advice(u + t),
        !is_ident(u[0], "AsyncJoinPoint"@),
{
    let toks = u + t;
    lemma_special_words();
    reveal_strlit("dyn");
    assert(is_calm_at(u, 0));
    if u.len() > 1 {
        assert(is_calm_at(u, 1));
    }
    if u.len() > 3 {
        assert(is_calm_at(u, 3));
    }
    let last = u.len() - 1;
    assert(toks[last] == u.last());
    if starts_bounds(toks) {
        if u.len() == 1 {
            assert(toks[1] == t[0]);
            assert(is_ident(t[0], "Any"@));
        } else {
            assert(toks[1] == u[1]);
        }
    }
    if starts_bounded_ref(toks) {
        let inner = toks.skip(2);
        assert(inner[0] == toks[2] && inner[1] == toks[3] && inner[2] == toks[4]);
        if u.len() <= 3 {
            assert(toks[3] == t[3 - u.len()]);
            assert(is_ident(t[3 - u.len()], "Any"@));
        } else {
            assert(toks[3] == u[3]);
        }
    }
    if starts_advice(toks) {
        assert(toks[1] == u[1]);
    }
}

/// The same for tokens whose groups are balanced.
proof fn lemma_relaxed_balanced(u: Seq<Tok>, t: Seq<Tok>, open: Seq<bool>)
    requires
        is_calm(u),
        balanced(u),
        are_apart(u, t),
    ensures
        relaxed(u + t, open) == u + relaxed(t, open),
{
    assert(open + plain_groups(0) =~= open);
    lemma_relaxed_calm(u, t, open, 0);
}

proof fn lemma_relaxed_bounds(t: Seq<Tok>, open: Seq<bool>, at: Span)
    ensures
        relaxed(dyn_any(true, at) + t, open) == dyn_any(false, at) + relaxed(t, open),
{
    reveal(spell);
    let toks = dyn_any(true, at) + t;
    assert(starts_bounds(toks));
    assert(toks.skip(6) =~= t);
    assert(seq![toks[0], toks[1]] =~= dyn_any(false, at));
}

proof fn lemma_relaxed_ref(t: Seq<Tok>, open: Seq<bool>, at: Span)
    ensures
        relaxed(any_ref(true, at) + t, open) == any_ref(false, at) + relaxed(t, open),
{
    reveal(spell);
    let toks = any_ref(true, at) + t;
    assert(starts_bounds(toks.skip(2)));
    assert(toks.skip(9) =~= t);
    assert(seq![toks[0], toks[2], toks[3]] =~= any_ref(false, at));
}

proof fn lemma_relaxed_boxed(value: Seq<Tok>, t: Seq<Tok>, open: Seq<bool>, at: Span)
    requires
        is_calm(value),
        balanced(value),
    ensures
        relaxed(boxed(value, true, at) + t, open) == boxed(value, false, at) + relaxed(t, open),
{
    broadcast use {group_calm, crate::nesting::group_level};

    lemma_neutral_words();
    reveal_with_fuel(are_calm_pieces, 6);
    reveal_with_fuel(depth_after, 6);
    let u = spell(seq![Word("Box"), Joint(':'), Alone(':'), Word("new"), Open(Paren)], at) + value
        + spell(seq![Close, Word("as"), Word("Box"), Alone('<')], at);
    let v = spell(seq![Alone('>')], at);
    assert(u.last() == Tok::Punct('<', false, at)) by {
        reveal(spell);
    }
    assert(v.last() == Tok::Punct('>', false, at)) by {
        reveal(spell);
    }
    assert(boxed(value, true, at) + t =~= u + (dyn_any(true, at) + (v + t)));
    lemma_relaxed_balanced(u, dyn_any(true, at) + (v + t), open);
    lemma_relaxed_bounds(v + t, open, at);
    lemma_relaxed_balanced(v, t, open);
    let tail = relaxed(t, open);
    assert(boxed(value, false, at) + tail =~= u + (dyn_any(false, at) + (v + tail)));
}

proof fn lemma_relaxed_boxed_clones(
    args: Seq<Seq<Tok>>,
    t: Seq<Tok>,
    open: Seq<bool>,
    at: Span,
)
    requires
        forall|i: int|
            0 <= i < args.len() ==> is_calm(#[trigger] args[i]) && balanced(args[i]),
    ensures
        relaxed(boxed_clones(args, true, at) + t, open) == boxed_clones(args, false, at) + relaxed(
            t,
            open,
        ),
    decreases args.len(),
{
    if args.len() == 0 {
        assert(boxed_clones(args, true, at) + t =~= t);
        assert(boxed_clones(args, false, at) + relaxed(t, open) =~= relaxed(t, open));
    } else {
        let value = args.last() + spell(seq![Alone('.'), Word("clone"), Open(Paren), Close], at);
        let comma = spell(seq![Alone(',')], at);
        assert(is_calm(value) && balanced(value) && is_calm(comma) && balanced(comma)) by {
            broadcast use {group_calm, crate::nesting::group_level};

            assert(is_calm(args[args.len() - 1]));
            lemma_neutral_words();
            reveal_with_fuel(are_calm_pieces, 5);
            reveal_with_fuel(depth_after, 5);
        }
        assert(ends_apart(comma.last())) by {
            reveal(spell);
        }
        lemma_relaxed_boxed(value, t, open, at);
        if args.len() > 1 {
            let front = boxed_clones(args.drop_last(), true, at);
            let last = boxed(value, true, at);
            lemma_relaxed_boxed_clones(args.drop_last(), comma + (last + t), open, at);
            lemma_relaxed_balanced(comma, last + t, open);
            assert(boxed_clones(args, true, at) + t =~= front + (comma + (last + t)));
            let tail = relaxed(t, open);
            assert(boxed_clones(args, false, at) + tail =~= boxed_clones(
                args.drop_last(),
                false,
                at,
            ) + (comma + (boxed(value, false, at) + tail)));
        }
    }
}

proof fn lemma_relaxed_args(args: Seq<Seq<Tok>>, t: Seq<Tok>, open: Seq<bool>, at: Span)
    requires
        forall|i: int|
            0 <= i < args.len() ==> is_calm(#[trigger] args[i]) && balanced(args[i]),
    ensures
        relaxed(args_vec(args, true, at) + t, open) == args_vec(args, false, at) + relaxed(t, open),
{
    let u = spell(seq![Word("vec"), Alone('!'), Open(Bracket)], at);
    let close = spell(seq![Close], at);
    let clones = boxed_clones(args, true, at);
    let inside = open + plain_groups(1);
    assert(open + plain_groups(0) =~= open);
    assert(is_calm(u) && level(u, 0) == 1 && is_calm(close) && level(close, 1) == 0) by {
        broadcast use {group_calm, crate::nesting::group_level};

        lemma_neutral_words();
        reveal_with_fuel(are_calm_pieces, 4);
        reveal_with_fuel(depth_after, 4);
    }
    assert(ends_apart(close.last())) by {
        reveal(spell);
    }
    assert(ends_apart(u.last())) by {
        reveal(spell);
    }
    assert(args_vec(args, true, at) + t =~= u + (clones + (close + t)));
    lemma_relaxed_calm(u, clones + (close + t), open, 0);
    lemma_relaxed_boxed_clones(args, close + t, inside, at);
    lemma_relaxed_calm(close, t, open, 1);
    let tail = relaxed(t, open);
    assert(args_vec(args, false, at) + tail =~= u + (boxed_clones(args, false, at) + (close
        + tail)));
}

/// What stands in a join point between its type and its arguments.
spec fn join_point_middle(fn_name: Seq<char>, at: Span) -> Seq<Tok> {
    spell(seq![Open(Brace), Word("function_name"), Alone(':')], at) + seq![Tok::Text(fn_name, at)]
        + spell(
        seq![
            Alone(','), Word("module_path"), Alone(':'), Word("module_path"), Alone('!'),
            Open(Paren), Close, Alone(','), Word("location"), Alone(':'), Word("Location"),
            Open(Brace), Word("file"), Alone(':'), Word("file"), Alone('!'), Open(Paren), Close,
            Alone(','), Word("line"), Alone(':'),
        ],
        at,
    ) + line_of_call(true, at) + spell(
        seq![Alone(','), Close, Alone(','), Word("args"), Alone(':')],
        at,
    )
}

proof fn lemma_join_point_middle(fn_name: Seq<char>, at: Span)
    ensures
        is_calm(join_point_middle(fn_name, at)),
        level(join_point_middle(fn_name, at), 0) == 1,
        ends_apart(join_point_middle(fn_name, at).last()),
{
    broadcast use {group_calm, crate::nesting::group_level};

    lemma_neutral_words();
    reveal_with_fuel(are_calm_pieces, 22);
    reveal_with_fuel(depth_after, 22);
    let end = spell(seq![Alone(','), Close, Alone(','), Word("args"), Alone(':')], at);
    assert(ends_apart(end.last()) && end.len() == 5) by {
        reveal(spell);
    }
    assert(join_point_middle(fn_name, at).last() == end.last());
}

#[verifier::rlimit(60)]
proof fn lemma_relaxed_join_point(
    fn_name: Seq<char>,
    args: Seq<Seq<Tok>>,
    t: Seq<Tok>,
    open: Seq<bool>,
    at: Span,
)
    requires
        forall|i: int|
            0 <= i < args.len() ==> is_calm(#[trigger] args[i]) && balanced(args[i]),
    ensures
        relaxed(join_point(true, true, fn_name, args_vec(args, true, at), at) + t, open)
            == join_point(false, true, fn_name, args_vec(args, false, at), at) + relaxed(t, open),
{
    let kind = join_point_type(true, at);
    let middle = join_point_middle(fn_name, at);
    let shown = args_vec(args, true, at);
    let end = spell(seq![Alone(','), Close], at);
    let inside = open + plain_groups(1);
    assert(open + plain_groups(0) =~= open);
    lemma_join_point_middle(fn_name, at);
    assert(is_calm(end) && level(end, 1) == 0) by {
        broadcast use {group_calm, crate::nesting::group_level};

        reveal_with_fuel(are_calm_pieces, 3);
        reveal_with_fuel(depth_after, 3);
    }
    assert(ends_apart(end.last())) by {
        reveal(spell);
    }
    let behind = middle + (shown + (end + t));
    assert(join_point(true, true, fn_name, shown, at) + t =~= kind + behind);
    lemma_relaxed_type(behind, open, at);
    lemma_relaxed_calm(middle, shown + (end + t), open, 0);
    lemma_relaxed_args(args, end + t, inside, at);
    lemma_relaxed_calm(end, t, open, 1);
    let tail = relaxed(t, open);
    assert(join_point(false, true, fn_name, args_vec(args, false, at), at) + tail
        =~= join_point_type(false, at) + (middle + (args_vec(args, false, at) + (end + tail))));
}

proof fn lemma_relaxed_type(t: Seq<Tok>, open: Seq<bool>, at: Span)
    ensures
        relaxed(join_point_type(true, at) + t, open) == join_point_type(false, at) + relaxed(
            t,
            open,
        ),
{
    reveal(spell);
    lemma_special_words();
    reveal_strlit("dyn");
    assert("dyn"@.len() == 3);
    let toks = join_point_type(true, at) + t;
    assert(toks[0] == Tok::Ident("AsyncJoinPoint"@, at));
    assert(!starts_bounds(toks) && !starts_bounded_ref(toks) && !starts_advice(toks));
    assert(toks.skip(1) =~= t);
    assert(seq![Tok::Ident("JoinPoint"@, at)] =~= join_point_type(false, at));
}

/// A call of advice begins: its arguments follow.
proof fn lemma_relaxed_advice_start(method: &'static str, t: Seq<Tok>, open: Seq<bool>, at: Span)
    requires
        method@ == "before"@ || method@ == "after"@ || method@ == "after_error"@,
    ensures
        relaxed(
            spell(seq![Word("__aspect"), Alone('.'), Word(method), Open(Paren)], at) + t,
            open,
        ) == spell(seq![Word("__aspect"), Alone('.'), Word(method), Open(Paren)], at) + relaxed(
            t,
            open.push(true),
        ),
{
    reveal(spell);
    lemma_special_words();
    reveal_strlit("dyn");
    assert("dyn"@.len() == 3);
    let start = spell(seq![Word("__aspect"), Alone('.'), Word(method), Open(Paren)], at);
    let toks = start + t;
    assert(is_call(toks, method@));
    assert(!starts_bounds(toks) && !starts_bounded_ref(toks));
    assert(toks.skip(4) =~= t);
    assert(toks.take(4) =~= start);
}

/// A call of advice ends: it is not awaited.
proof fn lemma_relaxed_advice_end(t: Seq<Tok>, open: Seq<bool>, at: Span)
    ensures
        relaxed(spell(seq![Close], at) + advice_end(true, at) + t, open.push(true)) == spell(
            seq![Close],
            at,
        ) + advice_end(false, at) + relaxed(t, open),
{
    let close = spell(seq![Close], at);
    let semicolon = spell(seq![Alone(';')], at);
    let toks = close + advice_end(true, at) + t;
    let inside = open.push(true);
    assert(relaxed(toks, inside) == close + relaxed(semicolon + t, open)) by {
        reveal(spell);
        assert(toks[0] is Close);
        assert(starts_await(toks.skip(1)));
        assert(!starts_bounds(toks) && !starts_bounded_ref(toks) && !starts_advice(toks));
        assert(toks.skip(3) =~= semicolon + t);
        assert(inside.drop_last() =~= open);
        assert(seq![toks[0]] =~= close);
    }
    assert(is_calm(semicolon) && balanced(semicolon)) by {
        broadcast use {group_calm, crate::nesting::group_level};

        reveal_with_fuel(are_calm_pieces, 2);
        reveal_with_fuel(depth_after, 2);
    }
    assert(ends_apart(semicolon.last())) by {
        reveal(spell);
    }
    lemma_relaxed_balanced(semicolon, t, open);
    let tail = relaxed(t, open);
    assert(close + advice_end(false, at) + tail =~= close + (semicolon + tail));
}

/// Wherever `a` stands, with `depth` groups open around it that have no arguments of advice, it is
/// relaxed to `b`, and `after` such groups are open behind it.
#[verifier::opaque]
spec fn relaxes(a: Seq<Tok>, b: Seq<Tok>, depth: int, after: int) -> bool {
    forall|t: Seq<Tok>, base: Seq<bool>| #[trigger]
        relaxed(a + t, base + plain_groups(depth)) == b + relaxed(t, base + plain_groups(after))
}

proof fn lemma_relaxes_add(
    a: Seq<Tok>,
    b: Seq<Tok>,
    c: Seq<Tok>,
    d: Seq<Tok>,
    depth: int,
    between: int,
    after: int,
)
    requires
        relaxes(a, b, depth, between),
        relaxes(c, d, between, after),
    ensures
        relaxes(a + c, b + d, depth, after),
{
    reveal(relaxes);
    assert forall|t: Seq<Tok>, base: Seq<bool>| #[trigger]
        relaxed(a + c + t, base + plain_groups(depth)) == b + d + relaxed(
            t,
            base + plain_groups(after),
        ) by {
        assert(a + c + t =~= a + (c + t));
        let tail = relaxed(t, base + plain_groups(after));
        assert(b + d + tail =~= b + (d + tail));
    }
}

proof fn lemma_relaxes_deeper(a: Seq<Tok>, b: Seq<Tok>, depth: int)
    requires
        relaxes(a, b, 0, 0),
        depth >= 0,
    ensures
        relaxes(a, b, depth, depth),
{
    reveal(relaxes);
    assert forall|t: Seq<Tok>, base: Seq<bool>| #[trigger]
        relaxed(a + t, base + plain_groups(depth)) == b + relaxed(
            t,
            base + plain_groups(depth),
        ) by {
        let open = base + plain_groups(depth);
        assert(open + plain_groups(0) =~= open);
    }
}

proof fn lemma_relaxes_calm(u: Seq<Tok>, depth: int, after: int)
    requires
        is_calm(u),
        u.len() > 0,
        ends_apart(u.last()),
        depth >= 0,
        after >= 0,
        level(u, depth) == after,
    ensures
        relaxes(u, u, depth, after),
{
    reveal(relaxes);
    assert forall|t: Seq<Tok>, base: Seq<bool>| #[trigger]
        relaxed(u + t, base + plain_groups(depth)) == u + relaxed(
            t,
            base + plain_groups(after),
        ) by {
        lemma_relaxed_calm(u, t, base, depth);
    }
}

proof fn lemma_relaxes_join_point(fn_name: Seq<char>, args: Seq<Seq<Tok>>, at: Span)
    requires
        forall|i: int|
            0 <= i < args.len() ==> is_calm(#[trigger] args[i]) && balanced(args[i]),
    ensures
        relaxes(
            join_point(true, true, fn_name, args_vec(args, true, at), at),
            join_point(false, true, fn_name, args_vec(args, false, at), at),
            0,
            0,
        ),
{
    reveal(relaxes);
    let strict = join_point(true, true, fn_name, args_vec(args, true, at), at);
    let lax = join_point(false, true, fn_name, args_vec(args, false, at), at);
    assert forall|t: Seq<Tok>, base: Seq<bool>| #[trigger]
        relaxed(strict + t, base + plain_groups(0)) == lax + relaxed(
            t,
            base + plain_groups(0),
        ) by {
        lemma_relaxed_join_point(fn_name, args, t, base + plain_groups(0), at);
    }
}

proof fn lemma_join_point_starts_apart(fn_name: Seq<char>, args: Seq<Tok>, at: Span)
    ensures
        starts_apart(join_point(true, true, fn_name, args, at)),
{
    reveal(spell);
    lemma_special_words();
    lemma_neutral_words();
    let jp = join_point(true, true, fn_name, args, at);
    assert(jp[0] == Tok::Ident("AsyncJoinPoint"@, at));
    assert(jp[1] is Open);
    assert(jp[2] == Tok::Ident("function_name"@, at));
}

/// No bound that begins before the tokens ends in them.
spec fn starts_apart(toks: Seq<Tok>) -> bool {
    &&& toks.len() >= 3
    &&& !is_ident(toks[0], "Any"@)
    &&& !is_ident(toks[1], "Any"@)
    &&& !is_ident(toks[2], "Any"@)
}

/// `__aspect.METHOD(`
spec fn advice_start(method: &'static str, at: Span) -> Seq<Tok> {
    spell(seq![Word("__aspect"), Alone('.'), Word(method), Open(Paren)], at)
}

/// A call of advice, of which the arguments are relaxed.
proof fn lemma_relaxes_advice(
    method: &'static str,
    args: Seq<Tok>,
    lax_args: Seq<Tok>,
    at: Span,
)
    requires
        method@ == "before"@ || method@ == "after"@ || method@ == "after_error"@,
        relaxes(args, lax_args, 0, 0),
    ensures
        relaxes(
            advice_start(method, at) + args + spell(seq![Close], at) + advice_end(true, at),
            advice_start(method, at) + lax_args + spell(seq![Close], at) + advice_end(false, at),
            0,
            0,
        ),
{
    let start = advice_start(method, at);
    let close = spell(seq![Close], at);
    let strict_end = advice_end(true, at);
    let lax_end = advice_end(false, at);
    let whole = start + args + close + strict_end;
    let lax_whole = start + lax_args + close + lax_end;
    reveal(relaxes);
    assert forall|t: Seq<Tok>, base: Seq<bool>| #[trigger]
        relaxed(whole + t, base + plain_groups(0)) == lax_whole + relaxed(
            t,
            base + plain_groups(0),
        ) by {
        let open = base + plain_groups(0);
        let inside = open.push(true);
        assert(inside + plain_groups(0) =~= inside);
        let behind = close + strict_end + t;
        assert(whole + t =~= start + (args + behind));
        lemma_relaxed_advice_start(method, args + behind, open, at);
        assert(relaxed(args + behind, inside + plain_groups(0)) == lax_args + relaxed(
            behind,
            inside + plain_groups(0),
        ));
        lemma_relaxed_advice_end(t, open, at);
        let tail = relaxed(t, open);
        assert(lax_whole + tail =~= start + (lax_args + (close + lax_end + tail)));
    }
}

proof fn lemma_relaxes_before(strict: Seq<Tok>, lax: Seq<Tok>, at: Span)
    requires
        relaxes(strict, lax, 0, 0),
        starts_apart(strict),
    ensures
        relaxes(before_advice(strict, true, at), before_advice(lax, false, at), 0, 0),
{
    let by_ref = spell(seq![Alone('&')], at);
    assert(is_calm(by_ref) && balanced(by_ref)) by {
        broadcast use {group_calm, crate::nesting::group_level};

        reveal_with_fuel(are_calm_pieces, 2);
        reveal_with_fuel(depth_after, 2);
    }
    lemma_relaxes_behind(by_ref, strict, lax);
    lemma_relaxes_advice("before", by_ref + strict, by_ref + lax, at);
    lemma_before_parts(strict, true, at);
    lemma_before_parts(lax, false, at);
}

proof fn lemma_before_parts(jp: Seq<Tok>, send: bool, at: Span)
    ensures
        before_advice(jp, send, at) == advice_start("before", at) + (spell(seq![Alone('&')], at)
            + jp) + spell(seq![Close], at) + advice_end(send, at),
{
    let by_ref = spell(seq![Alone('&')], at);
    assert(spell(
        seq![Word("__aspect"), Alone('.'), Word("before"), Open(Paren), Alone('&')],
        at,
    ) =~= advice_start("before", at) + by_ref) by {
        reveal(spell);
    }
    assert(before_advice(jp, send, at) =~= advice_start("before", at) + (by_ref + jp) + spell(
        seq![Close],
        at,
    ) + advice_end(send, at));
}

/// What stands behind the join point in the advice after a call.
spec fn after_tail(value: Seq<Tok>, send: bool, at: Span) -> Seq<Tok> {
    spell(
        seq![
            Alone(';'), Word("__aspect"), Alone('.'), Word("after"), Open(Paren), Alone('&'),
            Word("__after_context"), Alone(','), Alone('&'),
        ],
        at,
    ) + value + spell(seq![Word("as")], at) + any_ref(send, at) + spell(seq![Close], at)
        + advice_end(send, at)
}

proof fn lemma_after_tail(jp: Seq<Tok>, value: Seq<Tok>, send: bool, at: Span)
    ensures
        after_advice(jp, value, send, at) == spell(
            seq![Word("let"), Word("__after_context"), Alone('=')],
            at,
        ) + jp + after_tail(value, send, at),
{
    assert(after_advice(jp, value, send, at) =~= spell(
        seq![Word("let"), Word("__after_context"), Alone('=')],
        at,
    ) + jp + after_tail(value, send, at));
}

/// What `after` is shown before the value is cast.
spec fn after_args(value: Seq<Tok>, at: Span) -> Seq<Tok> {
    spell(seq![Alone('&'), Word("__after_context"), Alone(','), Alone('&')], at) + value + spell(
        seq![Word("as")],
        at,
    )
}

proof fn lemma_after_parts(value: Seq<Tok>, send: bool, at: Span)
    ensures
        after_tail(value, send, at) == spell(seq![Alone(';')], at) + (advice_start("after", at) + (
        after_args(value, at) + any_ref(send, at)) + spell(seq![Close], at) + advice_end(send, at)),
{
    let semicolon = spell(seq![Alone(';')], at);
    let start = advice_start("after", at);
    let seen = spell(seq![Alone('&'), Word("__after_context"), Alone(','), Alone('&')], at);
    assert(spell(
        seq![
            Alone(';'), Word("__aspect"), Alone('.'), Word("after"), Open(Paren), Alone('&'),
            Word("__after_context"), Alone(','), Alone('&'),
        ],
        at,
    ) =~= semicolon + start + seen) by {
        reveal(spell);
    }
    assert(after_tail(value, send, at) =~= semicolon + (start + (after_args(value, at) + any_ref(
        send,
        at,
    )) + spell(seq![Close], at) + advice_end(send, at)));
}

proof fn lemma_relaxes_ref(at: Span)
    ensures
        relaxes(any_ref(true, at), any_ref(false, at), 0, 0),
{
    reveal(relaxes);
    assert forall|t: Seq<Tok>, base: Seq<bool>| #[trigger]
        relaxed(any_ref(true, at) + t, base + plain_groups(0)) == any_ref(false, at) + relaxed(
            t,
            base + plain_groups(0),
        ) by {
        lemma_relaxed_ref(t, base + plain_groups(0), at);
    }
}

proof fn lemma_relaxes_semicolon(at: Span)
    ensures
        relaxes(spell(seq![Alone(';')], at), spell(seq![Alone(';')], at), 0, 0),
{
    let semicolon = spell(seq![Alone(';')], at);
    assert(is_calm(semicolon) && balanced(semicolon)) by {
        broadcast use {group_calm, crate::nesting::group_level};

        reveal_with_fuel(are_calm_pieces, 2);
        reveal_with_fuel(depth_after, 2);
    }
    assert(semicolon.len() > 0 && ends_apart(semicolon.last())) by {
        reveal(spell);
    }
    lemma_relaxes_calm(semicolon, 0, 0);
}

proof fn lemma_relaxes_after_tail(value: Seq<Tok>, at: Span)
    requires
        is_calm(value),
        balanced(value),
    ensures
        relaxes(after_tail(value, true, at), after_tail(value, false, at), 0, 0),
{
    let semicolon = spell(seq![Alone(';')], at);
    let start = advice_start("after", at);
    let close = spell(seq![Close], at);
    let args = after_args(value, at);
    let strict = args + any_ref(true, at);
    let lax = args + any_ref(false, at);
    assert(is_calm(args) && balanced(args)) by {
        broadcast use {group_calm, crate::nesting::group_level};

        lemma_neutral_words();
        reveal_with_fuel(are_calm_pieces, 5);
        reveal_with_fuel(depth_after, 5);
    }
    assert(args.len() > 0 && ends_apart(args.last())) by {
        reveal(spell);
        lemma_neutral_words();
        assert(args.last() == Tok::Ident("as"@, at));
    }
    lemma_relaxes_calm(args, 0, 0);
    lemma_relaxes_ref(at);
    lemma_relaxes_add(args, args, any_ref(true, at), any_ref(false, at), 0, 0, 0);
    lemma_relaxes_advice("after", strict, lax, at);
    lemma_relaxes_semicolon(at);
    lemma_relaxes_add(
        semicolon,
        semicolon,
        start + strict + close + advice_end(true, at),
        start + lax + close + advice_end(false, at),
        0,
        0,
        0,
    );
    lemma_after_parts(value, true, at);
    lemma_after_parts(value, false, at);
}

proof fn lemma_relaxes_after(strict: Seq<Tok>, lax: Seq<Tok>, is_result: bool, at: Span)
    requires
        relaxes(strict, lax, 0, 0),
    ensures
        relaxes(
            after_advice(strict, outcome(is_result, at), true, at),
            after_advice(lax, outcome(is_result, at), false, at),
            0,
            0,
        ),
{
    let value = outcome(is_result, at);
    let bind = spell(seq![Word("let"), Word("__after_context"), Alone('=')], at);
    assert(is_calm(bind) && balanced(bind) && is_calm(value) && balanced(value)) by {
        broadcast use {group_calm, crate::nesting::group_level};

        lemma_neutral_words();
        reveal_with_fuel(are_calm_pieces, 4);
        reveal_with_fuel(depth_after, 4);
    }
    assert(bind.len() > 0 && ends_apart(bind.last())) by {
        reveal(spell);
    }
    lemma_relaxes_calm(bind, 0, 0);
    lemma_relaxes_add(bind, bind, strict, lax, 0, 0, 0);
    lemma_relaxes_after_tail(value, at);
    let strict_tail = after_tail(value, true, at);
    let lax_tail = after_tail(value, false, at);
    lemma_relaxes_add(bind + strict, bind + lax, strict_tail, lax_tail, 0, 0, 0);
    lemma_after_tail(strict, value, true, at);
    lemma_after_tail(lax, value, false, at);
}

/// What stands behind the join point in the advice after an error.
spec fn error_tail(send: bool, at: Span) -> Seq<Tok> {
    spell(seq![Alone(';'), Word("let"), Word("__aspect_err"), Alone('=')], at) + execution_error(at)
        + spell(
        seq![
            Alone(';'), Word("__aspect"), Alone('.'), Word("after_error"), Open(Paren), Alone('&'),
            Word("__error_context"), Alone(','), Alone('&'), Word("__aspect_err"), Close,
        ],
        at,
    ) + advice_end(send, at)
}

proof fn lemma_error_tail(jp: Seq<Tok>, send: bool, at: Span)
    ensures
        error_advice(jp, send, at) == spell(
            seq![Word("let"), Word("__error_context"), Alone('=')],
            at,
        ) + jp + error_tail(send, at),
{
    assert(error_advice(jp, send, at) =~= spell(
        seq![Word("let"), Word("__error_context"), Alone('=')],
        at,
    ) + jp + error_tail(send, at));
}

/// The error that advice is shown, made and bound.
spec fn error_made(at: Span) -> Seq<Tok> {
    spell(seq![Alone(';'), Word("let"), Word("__aspect_err"), Alone('=')], at) + execution_error(at)
        + spell(seq![Alone(';')], at)
}

/// What `after_error` is shown.
spec fn error_args(at: Span) -> Seq<Tok> {
    spell(
        seq![
            Alone('&'), Word("__error_context"), Alone(','), Alone('&'), Word("__aspect_err"),
        ],
        at,
    )
}

proof fn lemma_error_parts(send: bool, at: Span)
    ensures
        error_tail(send, at) == error_made(at) + (advice_start("after_error", at) + error_args(at)
            + spell(seq![Close], at) + advice_end(send, at)),
{
    let semicolon = spell(seq![Alone(';')], at);
    let start = advice_start("after_error", at);
    let close = spell(seq![Close], at);
    assert(spell(
        seq![
            Alone(';'), Word("__aspect"), Alone('.'), Word("after_error"), Open(Paren), Alone('&'),
            Word("__error_context"), Alone(','), Alone('&'), Word("__aspect_err"), Close,
        ],
        at,
    ) =~= semicolon + start + error_args(at) + close) by {
        reveal(spell);
    }
    assert(error_tail(send, at) =~= error_made(at) + (start + error_args(at) + close + advice_end(
        send,
        at,
    )));
}

proof fn lemma_relaxes_error_tail(at: Span)
    ensures
        relaxes(error_tail(true, at), error_tail(false, at), 0, 0),
{
    let made = error_made(at);
    let args = error_args(at);
    let start = advice_start("after_error", at);
    let close = spell(seq![Close], at);
    assert(is_calm(made) && balanced(made) && is_calm(args) && balanced(args)) by {
        broadcast use {group_calm, crate::nesting::group_level};

        lemma_neutral_words();
        reveal_with_fuel(are_calm_pieces, 14);
        reveal_with_fuel(depth_after, 14);
    }
    assert(made.len() > 0 && ends_apart(made.last()) && args.len() > 0 && ends_apart(
        args.last(),
    )) by {
        reveal(spell);
        lemma_neutral_words();
    }
    lemma_relaxes_calm(args, 0, 0);
    lemma_relaxes_advice("after_error", args, args, at);
    lemma_relaxes_calm(made, 0, 0);
    lemma_relaxes_add(
        made,
        made,
        start + args + close + advice_end(true, at),
        start + args + close + advice_end(false, at),
        0,
        0,
        0,
    );
    lemma_error_parts(true, at);
    lemma_error_parts(false, at);
}

proof fn lemma_relaxes_error(strict: Seq<Tok>, lax: Seq<Tok>, at: Span)
    requires
        relaxes(strict, lax, 0, 0),
    ensures
        relaxes(error_advice(strict, true, at), error_advice(lax, false, at), 0, 0),
{
    let bind = spell(seq![Word("let"), Word("__error_context"), Alone('=')], at);
    assert(is_calm(bind) && balanced(bind)) by {
        broadcast use {group_calm, crate::nesting::group_level};

        lemma_neutral_words();
        reveal_with_fuel(are_calm_pieces, 4);
        reveal_with_fuel(depth_after, 4);
    }
    assert(bind.len() > 0 && ends_apart(bind.last())) by {
        reveal(spell);
    }
    lemma_relaxes_calm(bind, 0, 0);
    lemma_relaxes_add(bind, bind, strict, lax, 0, 0, 0);
    lemma_relaxes_error_tail(at);
    let strict_tail = error_tail(true, at);
    let lax_tail = error_tail(false, at);
    lemma_relaxes_add(bind + strict, bind + lax, strict_tail, lax_tail, 0, 0, 0);
    lemma_error_tail(strict, true, at);
    lemma_error_tail(lax, false, at);
}

/// A match on an awaited call, of which both arms are relaxed.
proof fn lemma_relaxes_arms(
    call: Seq<Tok>,
    after: Seq<Tok>,
    lax_after: Seq<Tok>,
    error: Seq<Tok>,
    lax_error: Seq<Tok>,
    at: Span,
)
    requires
        is_calm(call),
        balanced(call),
        relaxes(after, lax_after, 0, 0),
        relaxes(error, lax_error, 0, 0),
    ensures
        relaxes(
            result_start(call, at) + after + result_middle(at) + error + result_end(at),
            result_start(call, at) + lax_after + result_middle(at) + lax_error + result_end(at),
            0,
            0,
        ),
{
    let u = result_start(call, at);
    let v = result_middle(at);
    let w = result_end(at);
    assert(is_calm(u) && level(u, 0) == 2 && is_calm(v) && level(v, 2) == 2 && is_calm(w) && level(
        w,
        2,
    ) == 0) by {
        broadcast use {group_calm, crate::nesting::group_level};

        lemma_neutral_words();
        reveal_with_fuel(are_calm_pieces, 13);
        reveal_with_fuel(depth_after, 13);
    }
    assert(u.len() > 0 && v.len() > 0 && w.len() > 0) by {
        reveal(spell);
    }
    assert(ends_apart(u.last()) && ends_apart(v.last()) && ends_apart(w.last())) by {
        reveal(spell);
    }
    lemma_relaxes_calm(u, 0, 2);
    lemma_relaxes_calm(v, 2, 2);
    lemma_relaxes_calm(w, 2, 0);
    lemma_relaxes_deeper(after, lax_after, 2);
    lemma_relaxes_deeper(error, lax_error, 2);
    lemma_relaxes_add(u, u, after, lax_after, 0, 2, 2);
    lemma_relaxes_add(u + after, u + lax_after, v, v, 0, 2, 2);
    lemma_relaxes_add(u + after + v, u + lax_after + v, error, lax_error, 0, 2, 2);
    lemma_relaxes_add(
        u + after + v + error,
        u + lax_after + v + lax_error,
        w,
        w,
        0,
        2,
        0,
    );
}

spec fn result_start(call: Seq<Tok>, at: Span) -> Seq<Tok> {
    spell(seq![Word("match")], at) + call + spell(
        seq![
            Alone('.'), Word("await"), Open(Brace), Word("Ok"), Open(Paren), Word("__value"), Close,
            Joint('='), Alone('>'), Open(Brace),
        ],
        at,
    )
}

spec fn result_middle(at: Span) -> Seq<Tok> {
    spell(
        seq![
            Word("Ok"), Open(Paren), Word("__value"), Close, Close, Word("Err"), Open(Paren),
            Word("__err"), Close, Joint('='), Alone('>'), Open(Brace),
        ],
        at,
    )
}

spec fn result_end(at: Span) -> Seq<Tok> {
    spell(seq![Word("Err"), Open(Paren), Word("__err"), Close, Close, Close], at)
}

proof fn lemma_relaxes_advised_result(
    call: Seq<Tok>,
    strict: Seq<Tok>,
    lax: Seq<Tok>,
    at: Span,
)
    requires
        is_calm(call),
        balanced(call),
        relaxes(strict, lax, 0, 0),
    ensures
        relaxes(advised_result(call, strict, true, at), advised_result(call, lax, false, at), 0, 0),
{
    let value = outcome(true, at);
    lemma_relaxes_after(strict, lax, true, at);
    lemma_relaxes_error(strict, lax, at);
    lemma_relaxes_arms(
        call,
        after_advice(strict, value, true, at),
        after_advice(lax, value, false, at),
        error_advice(strict, true, at),
        error_advice(lax, false, at),
        at,
    );
}

proof fn lemma_relaxes_advised_value(
    call: Seq<Tok>,
    strict: Seq<Tok>,
    lax: Seq<Tok>,
    at: Span,
)
    requires
        is_calm(call),
        balanced(call),
        relaxes(strict, lax, 0, 0),
    ensures
        relaxes(advised_value(call, strict, true, at), advised_value(call, lax, false, at), 0, 0),
{
    let u = spell(seq![Word("let"), Word("__result"), Alone('=')], at) + call + spell(
        seq![Alone('.'), Word("await"), Alone(';')],
        at,
    );
    let w = spell(seq![Word("__result")], at);
    assert(is_calm(u) && balanced(u) && is_calm(w) && balanced(w)) by {
        broadcast use {group_calm, crate::nesting::group_level};

        lemma_neutral_words();
        reveal_with_fuel(are_calm_pieces, 4);
        reveal_with_fuel(depth_after, 4);
    }
    assert(u.len() > 0 && w.len() > 0 && ends_apart(u.last()) && ends_apart(w.last())) by {
        reveal(spell);
        lemma_neutral_words();
    }
    let value = outcome(false, at);
    lemma_relaxes_after(strict, lax, false, at);
    lemma_relaxes_calm(u, 0, 0);
    lemma_relaxes_calm(w, 0, 0);
    let after = after_advice(strict, value, true, at);
    let lax_after = after_advice(lax, value, false, at);
    lemma_relaxes_add(u, u, after, lax_after, 0, 0, 0);
    lemma_relaxes_add(u + after, u + lax_after, w, w, 0, 0, 0);
}

proof fn lemma_captures_are_calm(names: Seq<Name>, at: Span)
    requires
        forall|i: int| 0 <= i < names.len() ==> is_neutral(#[trigger] names[i].text),
    ensures
        is_calm(captures(names, at)),
        balanced(captures(names, at)),
    decreases names.len(),
{
    broadcast use {group_calm, crate::nesting::group_level};

    if names.len() > 0 {
        lemma_captures_are_calm(names.drop_last(), at);
        lemma_capture_name(names.len() - 1, at);
        lemma_neutral_words();
        reveal_with_fuel(are_calm_pieces, 6);
        reveal_with_fuel(depth_after, 6);
        assert(is_neutral(names[names.len() - 1].text));
    }
}

proof fn lemma_capture_name(index: int, at: Span)
    ensures
        is_neutral(capture_name(index, at).text),
{
    lemma_special_words();
    reveal_strlit("__aspect_arg_");
    let text = capture_name(index, at).text;
    assert(text[0] == '_');
    assert(text.len() > 8);
}

proof fn lemma_call_args_are_calm(pats: Seq<PatternView>, follows: bool, at: Span)
    requires
        forall|i: int| 0 <= i < pats.len() ==> is_neutral_pat(#[trigger] pats[i]),
    ensures
        is_calm(call_args(pats, follows, at)),
        balanced(call_args(pats, follows, at)),
    decreases pats.len(),
{
    broadcast use {group_calm, crate::nesting::group_level};

    if pats.len() > 0 {
        let last = pats[pats.len() - 1];
        assert(is_neutral_pat(last));
        lemma_call_args_are_calm(pats.drop_last(), follows, at);
        lemma_calm_neutral(last.tokens);
        assert(is_calm(call_arg(last)) && balanced(call_arg(last)));
        reveal_with_fuel(are_calm_pieces, 2);
        reveal_with_fuel(depth_after, 2);
    }
}

proof fn lemma_call_is_calm(name: Name, pats: Seq<PatternView>, has_receiver: bool, at: Span)
    requires
        is_neutral(name.text),
        forall|i: int| 0 <= i < pats.len() ==> is_neutral_pat(#[trigger] pats[i]),
    ensures
        is_calm(original_call(name, pats, has_receiver, at)),
        balanced(original_call(name, pats, has_receiver, at)),
{
    broadcast use {group_calm, crate::nesting::group_level};

    lemma_neutral_words();
    reveal_with_fuel(are_calm_pieces, 4);
    reveal_with_fuel(depth_after, 4);
    lemma_call_args_are_calm(pats, has_receiver, at);
}

proof fn lemma_start_is_calm(expr: Seq<Tok>, at: Span)
    requires
        are_neutral(expr),
        balanced(expr),
    ensures
        is_calm(imports(at) + let_aspect(expr, at)),
        balanced(imports(at) + let_aspect(expr, at)),
{
    broadcast use {group_calm, crate::nesting::group_level};

    lemma_neutral_words();
    lemma_special_words();
    lemma_calm_neutral(expr);
    reveal_with_fuel(are_calm_pieces, 23);
    reveal_with_fuel(depth_after, 23);
    assert(is_calm(imports(at)));
    assert(balanced(imports(at)));
    assert(is_calm(let_aspect(expr, at)));
    assert(balanced(let_aspect(expr, at)));
}

/// Advice on an asynchronous function comes in two kinds, which differ in nothing but what lets it
/// cross threads. The body for an asynchronous aspect that has no `around` of its own, once it is
/// relaxed, is the body for any other aspect, where nothing that is handed in holds one of the
/// identifiers by which they differ.
pub proof fn law_two_kinds_of_advice(
    expr: Seq<Tok>,
    names: Seq<Name>,
    fn_name: Seq<char>,
    name: Name,
    pats: Seq<PatternView>,
    has_receiver: bool,
    is_result: bool,
    returns_impl_trait: bool,
    at: Span,
)
    requires
        are_neutral(expr),
        balanced(expr),
        is_neutral(name.text),
        forall|i: int| 0 <= i < names.len() ==> is_neutral(#[trigger] names[i].text),
        forall|i: int| 0 <= i < pats.len() ==> is_neutral_pat(#[trigger] pats[i]),
    ensures
        relaxed(
            async_advice(
                expr,
                captures(names, at),
                captured_join_point(fn_name, names.len(), true, at),
                original_call(name, pats, has_receiver, at),
                is_result,
                returns_impl_trait,
                false,
                at,
            ),
            Seq::empty(),
        ) == lifecycle(
            expr,
            captures(names, at),
            captured_join_point(fn_name, names.len(), false, at),
            original_call(name, pats, has_receiver, at),
            is_result,
            false,
            at,
        ),
{
    let call = original_call(name, pats, has_receiver, at);
    let kept = captures(names, at);
    let args = singletons(capture_names(names.len(), at));
    let strict = captured_join_point(fn_name, names.len(), true, at);
    let lax = captured_join_point(fn_name, names.len(), false, at);
    lemma_call_is_calm(name, pats, has_receiver, at);
    lemma_captures_are_calm(names, at);
    lemma_start_is_calm(expr, at);
    assert forall|i: int| 0 <= i < args.len() implies is_calm(#[trigger] args[i]) && balanced(
        args[i],
    ) by {
        broadcast use {group_calm, crate::nesting::group_level};

        assert(args[i] == seq![capture_name(i, at).tok()]);
        lemma_capture_name(i, at);
    }
    lemma_relaxes_join_point(fn_name, args, at);
    lemma_join_point_starts_apart(fn_name, args_vec(args, true, at), at);
    lemma_relaxes_lifecycle(expr, kept, strict, lax, call, is_result, at);
    lemma_relaxes_whole(
        lifecycle(expr, kept, strict, call, is_result, true, at),
        lifecycle(expr, kept, lax, call, is_result, false, at),
    );
}

proof fn lemma_relaxes_whole(a: Seq<Tok>, b: Seq<Tok>)
    requires
        relaxes(a, b, 0, 0),
    ensures
        relaxed(a, Seq::empty()) == b,
{
    reveal(relaxes);
    let none = Seq::<bool>::empty();
    let empty = Seq::<Tok>::empty();
    assert(none + plain_groups(0) =~= none);
    assert(relaxed(a + empty, none + plain_groups(0)) == b + relaxed(
        empty,
        none + plain_groups(0),
    ));
    assert(a + empty =~= a);
    assert(b + empty =~= b);
}

proof fn lemma_relaxes_lifecycle(
    expr: Seq<Tok>,
    kept: Seq<Tok>,
    strict: Seq<Tok>,
    lax: Seq<Tok>,
    call: Seq<Tok>,
    is_result: bool,
    at: Span,
)
    requires
        is_calm(imports(at) + let_aspect(expr, at)),
        balanced(imports(at) + let_aspect(expr, at)),
        is_calm(kept),
        balanced(kept),
        relaxes(strict, lax, 0, 0),
        starts_apart(strict),
        is_calm(call),
        balanced(call),
    ensures
        relaxes(
            lifecycle(expr, kept, strict, call, is_result, true, at),
            lifecycle(expr, kept, lax, call, is_result, false, at),
            0,
            0,
        ),
{
    let before = before_advice(strict, true, at);
    let lax_before = before_advice(lax, false, at);
    let start = imports(at) + let_aspect(expr, at);
    let u = start + kept;
    assert(is_calm(u) && balanced(u)) by {
        broadcast use {lemma_calm_add, crate::nesting::group_level};

    }
    lemma_relaxes_before(strict, lax, at);
    assert(starts_apart(before)) by {
        reveal(spell);
        lemma_special_words();
        lemma_neutral_words();
        assert(before[0] == Tok::Ident("__aspect"@, at));
        assert(is_char(before[1], '.'));
        assert(before[2] == Tok::Ident("before"@, at));
    }
    lemma_relaxes_behind(u, before, lax_before);
    if is_result {
        lemma_relaxes_advised_result(call, strict, lax, at);
        lemma_relaxes_add(
            u + before,
            u + lax_before,
            advised_result(call, strict, true, at),
            advised_result(call, lax, false, at),
            0,
            0,
            0,
        );
    } else {
        lemma_relaxes_advised_value(call, strict, lax, at);
        lemma_relaxes_add(
            u + before,
            u + lax_before,
            advised_value(call, strict, true, at),
            advised_value(call, lax, false, at),
            0,
            0,
            0,
        );
    }
}

/// What is calm may end in anything where no bound is completed by what follows it.
proof fn lemma_relaxes_behind(u: Seq<Tok>, a: Seq<Tok>, b: Seq<Tok>)
    requires
        is_calm(u),
        balanced(u),
        starts_apart(a),
        relaxes(a, b, 0, 0),
    ensures
        relaxes(u + a, u + b, 0, 0),
{
    reveal(relaxes);
    assert forall|t: Seq<Tok>, base: Seq<bool>| #[trigger]
        relaxed(u + a + t, base + plain_groups(0)) == u + b + relaxed(
            t,
            base + plain_groups(0),
        ) by {
        let open = base + plain_groups(0);
        assert(u + a + t =~= u + (a + t));
        lemma_relaxed_balanced(u, a + t, open);
        let tail = relaxed(t, open);
        assert(relaxed(a + t, open) == b + tail);
        assert(u + b + tail =~= u + (b + tail));
    }
}


} // verus!
