//! The words of the source text that weaving produces.

use crate::tokens::{is_word, is_word_char};
use vstd::prelude::*;

verus! {

/// The first `n` characters can stand in a word.
spec fn word_prefix(text: Seq<char>, n: nat) -> bool
    decreases n,
{
    n == 0 || (is_word_char(text[n - 1]) && word_prefix(text, (n - 1) as nat))
}

proof fn lemma_word_prefix(text: Seq<char>, n: nat)
    requires
        word_prefix(text, n),
    ensures
        forall|i: int| 0 <= i < n ==> is_word_char(#[trigger] text[i]),
    decreases n,
{
    if n > 0 {
        lemma_word_prefix(text, (n - 1) as nat);
    }
}

/// Every word of the produced source text is one.
pub proof fn lemma_words()
    ensures
        is_word("T"@),
        is_word("_"@),
        is_word("Ok"@),
        is_word("as"@),
        is_word("fn"@),
        is_word("Any"@),
        is_word("Box"@),
        is_word("Err"@),
        is_word("any"@),
        is_word("dyn"@),
        is_word("let"@),
        is_word("new"@),
        is_word("pin"@),
        is_word("std"@),
        is_word("use"@),
        is_word("vec"@),
        is_word("Self"@),
        is_word("Send"@),
        is_word("Sync"@),
        is_word("args"@),
        is_word("core"@),
        is_word("file"@),
        is_word("into"@),
        is_word("line"@),
        is_word("move"@),
        is_word("self"@),
        is_word("__err"@),
        is_word("__pjp"@),
        is_word("__val"@),
        is_word("after"@),
        is_word("async"@),
        is_word("await"@),
        is_word("boxed"@),
        is_word("clone"@),
        is_word("match"@),
        is_word("panic"@),
        is_word("__args"@),
        is_word("around"@),
        is_word("before"@),
        is_word("expect"@),
        is_word("format"@),
        is_word("static"@),
        is_word("__inner"@),
        is_word("__value"@),
        is_word("prelude"@),
        is_word("Location"@),
        is_word("__aspect"@),
        is_word("__result"@),
        is_word("downcast"@),
        is_word("location"@),
        is_word("JoinPoint"@),
        is_word("__context"@),
        is_word("execution"@),
        is_word("AspectError"@),
        is_word("after_error"@),
        is_word("aspect_core"@),
        is_word("module_path"@),
        is_word("__aspect_err"@),
        is_word("compile_error"@),
        is_word("function_name"@),
        is_word("AsyncJoinPoint"@),
        is_word("__boxed_result"@),
        is_word("__after_context"@),
        is_word("__error_context"@),
        is_word("ProceedingJoinPoint"@),
        is_word("AsyncProceedingJoinPoint"@),
        is_word("__async_aspect_take_result"@),
        is_word("__aspect_arg_"@),
        is_word("__aspect_original_"@),
        is_word("__async_aspect_original_"@),
{
    reveal_with_fuel(word_prefix, 30);
    reveal_strlit("T");
    lemma_word_prefix("T"@, 1);
    reveal_strlit("_");
    lemma_word_prefix("_"@, 1);
    reveal_strlit("Ok");
    lemma_word_prefix("Ok"@, 2);
    reveal_strlit("as");
    lemma_word_prefix("as"@, 2);
    reveal_strlit("fn");
    lemma_word_prefix("fn"@, 2);
    reveal_strlit("Any");
    lemma_word_prefix("Any"@, 3);
    reveal_strlit("Box");
    lemma_word_prefix("Box"@, 3);
    reveal_strlit("Err");
    lemma_word_prefix("Err"@, 3);
    reveal_strlit("any");
    lemma_word_prefix("any"@, 3);
    reveal_strlit("dyn");
    lemma_word_prefix("dyn"@, 3);
    reveal_strlit("let");
    lemma_word_prefix("let"@, 3);
    reveal_strlit("new");
    lemma_word_prefix("new"@, 3);
    reveal_strlit("pin");
    lemma_word_prefix("pin"@, 3);
    reveal_strlit("std");
    lemma_word_prefix("std"@, 3);
    reveal_strlit("use");
    lemma_word_prefix("use"@, 3);
    reveal_strlit("vec");
    lemma_word_prefix("vec"@, 3);
    reveal_strlit("Self");
    lemma_word_prefix("Self"@, 4);
    reveal_strlit("Send");
    lemma_word_prefix("Send"@, 4);
    reveal_strlit("Sync");
    lemma_word_prefix("Sync"@, 4);
    reveal_strlit("args");
    lemma_word_prefix("args"@, 4);
    reveal_strlit("core");
    lemma_word_prefix("core"@, 4);
    reveal_strlit("file");
    lemma_word_prefix("file"@, 4);
    reveal_strlit("into");
    lemma_word_prefix("into"@, 4);
    reveal_strlit("line");
    lemma_word_prefix("line"@, 4);
    reveal_strlit("move");
    lemma_word_prefix("move"@, 4);
    reveal_strlit("self");
    lemma_word_prefix("self"@, 4);
    reveal_strlit("__err");
    lemma_word_prefix("__err"@, 5);
    reveal_strlit("__pjp");
    lemma_word_prefix("__pjp"@, 5);
    reveal_strlit("__val");
    lemma_word_prefix("__val"@, 5);
    reveal_strlit("after");
    lemma_word_prefix("after"@, 5);
    reveal_strlit("async");
    lemma_word_prefix("async"@, 5);
    reveal_strlit("await");
    lemma_word_prefix("await"@, 5);
    reveal_strlit("boxed");
    lemma_word_prefix("boxed"@, 5);
    reveal_strlit("clone");
    lemma_word_prefix("clone"@, 5);
    reveal_strlit("match");
    lemma_word_prefix("match"@, 5);
    reveal_strlit("panic");
    lemma_word_prefix("panic"@, 5);
    reveal_strlit("__args");
    lemma_word_prefix("__args"@, 6);
    reveal_strlit("around");
    lemma_word_prefix("around"@, 6);
    reveal_strlit("before");
    lemma_word_prefix("before"@, 6);
    reveal_strlit("expect");
    lemma_word_prefix("expect"@, 6);
    reveal_strlit("format");
    lemma_word_prefix("format"@, 6);
    reveal_strlit("static");
    lemma_word_prefix("static"@, 6);
    reveal_strlit("__inner");
    lemma_word_prefix("__inner"@, 7);
    reveal_strlit("__value");
    lemma_word_prefix("__value"@, 7);
    reveal_strlit("prelude");
    lemma_word_prefix("prelude"@, 7);
    reveal_strlit("Location");
    lemma_word_prefix("Location"@, 8);
    reveal_strlit("__aspect");
    lemma_word_prefix("__aspect"@, 8);
    reveal_strlit("__result");
    lemma_word_prefix("__result"@, 8);
    reveal_strlit("downcast");
    lemma_word_prefix("downcast"@, 8);
    reveal_strlit("location");
    lemma_word_prefix("location"@, 8);
    reveal_strlit("JoinPoint");
    lemma_word_prefix("JoinPoint"@, 9);
    reveal_strlit("__context");
    lemma_word_prefix("__context"@, 9);
    reveal_strlit("execution");
    lemma_word_prefix("execution"@, 9);
    reveal_strlit("AspectError");
    lemma_word_prefix("AspectError"@, 11);
    reveal_strlit("after_error");
    lemma_word_prefix("after_error"@, 11);
    reveal_strlit("aspect_core");
    lemma_word_prefix("aspect_core"@, 11);
    reveal_strlit("module_path");
    lemma_word_prefix("module_path"@, 11);
    reveal_strlit("__aspect_err");
    lemma_word_prefix("__aspect_err"@, 12);
    reveal_strlit("compile_error");
    lemma_word_prefix("compile_error"@, 13);
    reveal_strlit("function_name");
    lemma_word_prefix("function_name"@, 13);
    reveal_strlit("AsyncJoinPoint");
    lemma_word_prefix("AsyncJoinPoint"@, 14);
    reveal_strlit("__boxed_result");
    lemma_word_prefix("__boxed_result"@, 14);
    reveal_strlit("__after_context");
    lemma_word_prefix("__after_context"@, 15);
    reveal_strlit("__error_context");
    lemma_word_prefix("__error_context"@, 15);
    reveal_strlit("ProceedingJoinPoint");
    lemma_word_prefix("ProceedingJoinPoint"@, 19);
    reveal_strlit("AsyncProceedingJoinPoint");
    lemma_word_prefix("AsyncProceedingJoinPoint"@, 24);
    reveal_strlit("__async_aspect_take_result");
    lemma_word_prefix("__async_aspect_take_result"@, 26);
    reveal_strlit("__aspect_arg_");
    lemma_word_prefix("__aspect_arg_"@, 13);
    reveal_strlit("__aspect_original_");
    lemma_word_prefix("__aspect_original_"@, 18);
    reveal_strlit("__async_aspect_original_");
    lemma_word_prefix("__async_aspect_original_"@, 24);
}

} // verus!
