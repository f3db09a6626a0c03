//! The laws of weaving, on concrete functions.

use aspect_codegen::codegen::{
    generate_aspect_wrapper, generate_async_arg_captures, generate_async_around_call,
    generate_async_aspect_call, generate_async_aspect_wrapper, generate_original_call,
};
use aspect_codegen::reading::{read_aspect, read_item, read_pat};
use aspect_codegen::syntax::Pattern;
use proc_macro2::{Ident, Span, TokenStream, TokenTree};
use syn::parse::Parser;

fn woven(source: &str) -> TokenStream {
    let func: syn::ItemFn = syn::parse_str(source).unwrap();
    let expr: syn::Expr = syn::parse_str("Logger").unwrap();
    generate_aspect_wrapper(&read_aspect(&expr, false), &read_item(&func))
}

fn async_woven(source: &str, custom: bool) -> TokenStream {
    let func: syn::ItemFn = syn::parse_str(source).unwrap();
    let expr: syn::Expr = syn::parse_str("Logger").unwrap();
    generate_async_aspect_wrapper(&read_aspect(&expr, custom), &read_item(&func))
}

fn occurrences(tokens: TokenStream, text: &str) -> usize {
    let mut count = 0;
    for tree in tokens {
        match tree {
            TokenTree::Ident(ident) => {
                if ident == text {
                    count += 1;
                }
            }
            TokenTree::Group(group) => count += occurrences(group.stream(), text),
            _ => {}
        }
    }
    count
}

fn counts(tokens: &TokenStream, words: &[&str]) -> Vec<usize> {
    words.iter().map(|word| occurrences(tokens.clone(), word)).collect()
}

const ADVICE: [&str; 6] = [
    "before",
    "after",
    "after_error",
    "around",
    "ProceedingJoinPoint",
    "AsyncProceedingJoinPoint",
];

fn calls(tokens: &TokenStream) -> Vec<usize> {
    let text = tokens.to_string();
    ["before", "after", "after_error", "around"]
        .iter()
        .map(|method| text.matches(&format!("__aspect . {} (", method)).count())
        .collect()
}

#[test]
fn advice_is_never_duplicated() {
    let value = "async fn demo(a: Clock) -> i32 { a.before().after().around() }";
    let result = "async fn demo(a: Clock) -> Result<i32, E> { a.before().after().after_error() }";
    let opaque = "async fn demo(a: Clock) -> impl Debug { a.before().after().around() }";
    let plain = "fn demo(a: Clock) -> i32 { a.before().after().around() }";
    assert_eq!(calls(&woven(value)), [1, 1, 0, 0]);
    assert_eq!(calls(&woven(result)), [1, 1, 1, 0]);
    assert_eq!(calls(&woven(plain)), [0, 0, 0, 1]);
    assert_eq!(calls(&async_woven(value, false)), [1, 1, 0, 0]);
    assert_eq!(calls(&async_woven(result, false)), [1, 1, 1, 0]);
    assert_eq!(calls(&async_woven(opaque, false)), [1, 1, 0, 0]);
    assert_eq!(calls(&async_woven(value, true)), [0, 0, 0, 1]);
    assert_eq!(calls(&async_woven(result, true)), [0, 0, 0, 1]);
    assert_eq!(calls(&async_woven(opaque, true)), [0, 0, 0, 0]);

    let text = async_woven(result, false).to_string();
    assert!(text.contains("args : vec ! [Box :: new (__aspect_arg_0 . clone ()) as Box < dyn Any + Send + Sync >] , }) . await ;"));
    assert!(text.contains("& __value as & (dyn Any + Send + Sync)) . await ;"));
    assert!(text.contains("(& __error_context , & __aspect_err) . await ;"));
}

#[test]
fn occurrences_of_the_aspect() {
    let value = "async fn demo(a: i32) -> i32 { a }";
    let result = "async fn demo(a: i32) -> Result<i32, E> { Ok(a) }";
    let opaque = "async fn demo(a: i32) -> impl Debug { a }";
    assert_eq!(occurrences(woven(value), "__aspect"), 3);
    assert_eq!(occurrences(woven(result), "__aspect"), 4);
    assert_eq!(occurrences(woven("fn demo() {}"), "__aspect"), 2);
    assert_eq!(occurrences(async_woven(result, false), "__aspect"), 4);
    assert_eq!(occurrences(async_woven(result, true), "__aspect"), 2);
    assert_eq!(occurrences(async_woven(opaque, true), "__aspect"), 0);
}

#[test]
fn two_kinds_of_advice() {
    let at = Span::call_site();
    let ident = |text: &str| Ident::new(text, at);
    let pat = read_pat(&syn::Pat::parse_single.parse_str("Query(q)").unwrap());
    let expr: TokenStream = "Logger::new(1)".parse().unwrap();
    for is_result in [false, true] {
        for method in [false, true] {
            let plain = generate_async_around_call(
                &expr,
                &ident("hidden"),
                &ident("shown"),
                &vec![&pat],
                &vec![ident("q")],
                is_result,
                method,
                at,
            );
            let asynchronous = generate_async_aspect_call(
                &expr,
                &ident("hidden"),
                &ident("shown"),
                &vec![&pat],
                &vec![ident("q")],
                is_result,
                false,
                false,
                method,
                at,
            );
            let relaxed = asynchronous
                .to_string()
                .replace("AsyncJoinPoint", "JoinPoint")
                .replace("& (dyn Any + Send + Sync)", "& dyn Any")
                .replace("dyn Any + Send + Sync", "dyn Any")
                .replace("}) . await ;", "}) ;")
                .replace("as & dyn Any) . await ;", "as & dyn Any) ;")
                .replace("& __aspect_err) . await ;", "& __aspect_err) ;");
            assert_eq!(relaxed, plain.to_string());
        }
    }
}

#[test]
fn advice_words_are_never_duplicated() {
    let value = "async fn demo(a: i32) -> i32 { a }";
    let result = "async fn demo(a: i32) -> Result<i32, E> { Ok(a) }";
    let opaque = "async fn demo(a: i32) -> impl Debug { a }";
    assert_eq!(counts(&woven(value), &ADVICE), [1, 1, 0, 0, 0, 0]);
    assert_eq!(counts(&woven(result), &ADVICE), [1, 1, 1, 0, 0, 0]);
    assert_eq!(counts(&woven("fn demo(a: i32) -> i32 { a }"), &ADVICE), [0, 0, 0, 1, 1, 0]);
    assert_eq!(counts(&woven("fn demo() -> Result<(), E> { f() }"), &ADVICE), [0, 0, 0, 1, 1, 0]);
    assert_eq!(counts(&async_woven(value, false), &ADVICE), [1, 1, 0, 0, 0, 0]);
    assert_eq!(counts(&async_woven(result, false), &ADVICE), [1, 1, 1, 0, 0, 0]);
    assert_eq!(counts(&async_woven(opaque, false), &ADVICE), [1, 1, 0, 0, 0, 0]);
    assert_eq!(counts(&async_woven(value, true), &ADVICE), [0, 0, 0, 1, 0, 1]);
    assert_eq!(counts(&async_woven(result, true), &ADVICE), [0, 0, 0, 1, 0, 1]);
    assert_eq!(counts(&async_woven(opaque, true), &ADVICE), [0, 0, 0, 0, 0, 0]);
}

#[test]
fn function_is_called_once() {
    let value = "async fn demo(a: i32) -> i32 { a }";
    let opaque = "async fn demo(a: i32) -> impl Debug { a }";
    assert_eq!(occurrences(woven(value), "__aspect_original_demo"), 2);
    assert_eq!(occurrences(async_woven(value, false), "__async_aspect_original_demo"), 2);
    assert_eq!(occurrences(async_woven(value, true), "__async_aspect_original_demo"), 2);
    assert_eq!(occurrences(async_woven(opaque, true), "__async_aspect_original_demo"), 1);
}

#[test]
fn no_word_comes_from_elsewhere() {
    let source = "async fn demo(a: i32) -> impl IntoResponse { a + 1 }";
    let foreign = ["tokio", "block_in_place", "axum", "into_response", "response", "spawn"];
    assert_eq!(counts(&woven(source), &foreign), [0; 6]);
    assert_eq!(counts(&async_woven(source, false), &foreign), [0; 6]);
    assert_eq!(counts(&async_woven(source, true), &foreign), [0; 6]);
    // Twice in the signatures, and nowhere else.
    assert_eq!(occurrences(woven(source), "IntoResponse"), 2);
}

#[test]
fn advice_keeps_its_order() {
    let tokens = woven("async fn demo(a: i32) -> Result<i32, E> { Ok(a) }").to_string();
    let before = tokens.find("__aspect . before (& JoinPoint").unwrap();
    let call = tokens.find("__aspect_original_demo (a) . await").unwrap();
    let after = tokens.find("__aspect . after (& __after_context").unwrap();
    let error = tokens.find("__aspect . after_error (& __error_context , & __aspect_err)").unwrap();
    assert!(before < call && call < after && call < error);

    let tokens = async_woven("async fn demo(&self) -> u8 { 1 }", false).to_string();
    let before = tokens.find("__aspect . before (& AsyncJoinPoint").unwrap();
    let call = tokens.find("Self :: __async_aspect_original_demo (self) . await").unwrap();
    let after = tokens.find("__aspect . after (& __after_context").unwrap();
    assert!(before < call && call < after);
}

#[test]
fn calls_go_around() {
    let tokens = woven("fn demo(a: i32) -> i32 { a }").to_string();
    assert!(tokens.contains("let __pjp = ProceedingJoinPoint :: new ("));
    assert!(tokens.contains("match __aspect . around (__pjp) {"));

    let tokens = async_woven("async fn demo(a: i32) -> i32 { a }", true).to_string();
    assert!(tokens.contains("let __pjp = AsyncProceedingJoinPoint :: new ("));
    assert!(tokens.contains("match __aspect . around (__pjp) . await {"));
    assert!(tokens.contains("Box :: new (__result) as Box < dyn Any + Send + Sync >"));
}

#[test]
fn impl_trait_is_refused() {
    let tokens = async_woven("async fn demo(&self) -> impl Debug { 1 }", true).to_string();
    assert!(tokens.contains("async fn demo (& self) -> impl Debug { compile_error ! ("));
    let tokens = async_woven("async fn demo() -> impl Debug { 1 }", false).to_string();
    assert!(!tokens.contains("compile_error"));
}

#[test]
fn binding_mode_does_not_reach_the_call() {
    let pattern = |source: &str| -> Pattern {
        read_pat(&syn::Pat::parse_single.parse_str(source).unwrap())
    };
    let name = Ident::new("f", Span::call_site());
    let call = |a: &str, b: &str| {
        let (a, b) = (pattern(a), pattern(b));
        generate_original_call(&name, &vec![&a, &b], true, Span::call_site()).to_string()
    };
    assert_eq!(call("mut a", "ref b"), call("a", "b"));
    assert_eq!(call("ref mut a", "Query(b)"), call("a", "Query(b)"));

    let shown = |source: &str| {
        let text = woven(source).to_string();
        let start = text.find("let __args = ").unwrap();
        let end = text.find("let __context = ").unwrap();
        text[start..end].to_string()
    };
    assert_eq!(
        shown("fn f(mut a: u8, ref b: u8) -> u8 { a }"),
        shown("fn f(a: u8, b: u8) -> u8 { a }")
    );
}

#[test]
fn hidden_names_are_distinct() {
    let source = "fn demo() {}";
    assert_eq!(occurrences(woven(source), "demo"), 1);
    assert_eq!(occurrences(woven(source), "__aspect_original_demo"), 2);
    assert_eq!(occurrences(woven(source), "__async_aspect_original_demo"), 0);
    assert_eq!(occurrences(async_woven(source, false), "__aspect_original_demo"), 0);
    assert_eq!(occurrences(async_woven(source, false), "__async_aspect_original_demo"), 2);
}

#[test]
fn kept_arguments_have_their_own_variables() {
    let ident = Ident::new("a", Span::call_site());
    let (kept, _) = generate_async_arg_captures(&vec![ident; 120], Span::call_site());
    for i in 0..kept.len() {
        for j in 0..i {
            assert_ne!(kept[i], kept[j]);
        }
    }
}

#[test]
fn placement_of_the_function() {
    let method = woven("pub fn demo(&self) {}").to_string();
    assert!(method.starts_with("fn __aspect_original_demo (& self) { } pub fn demo (& self) {"));
    let associated = woven("pub fn demo(a: u8) {}").to_string();
    assert!(associated
        .starts_with("pub fn demo (a : u8) { fn __aspect_original_demo (a : u8) { } use ::"));
}

#[test]
fn arguments_are_kept_before_the_call() {
    let source = "async fn demo(Path(id): Path<u64>, body: String) -> usize { body.len() }";
    for tokens in [woven(source), async_woven(source, false), async_woven(source, true)] {
        let text = tokens.to_string();
        let first = text.find("let __aspect_arg_0 = id . clone () ;").unwrap();
        let second = text.find("let __aspect_arg_1 = body . clone () ;").unwrap();
        let shown = text.find("args : vec ! [Box :: new (__aspect_arg_0 . clone ())").unwrap();
        let call = text.find("_original_demo (Path (id) , body) . await").unwrap();
        assert!(first < second && second < shown && shown < call);
    }
}

#[test]
fn groups_are_balanced() {
    let sources = [
        "fn demo(a: [u8; 2]) -> Result<u8, E> { if a[0] > 1 { f(a) } else { Ok(a[1]) } }",
        "async fn demo(&self, (a, b): (u8, u8)) -> u8 { a + b }",
    ];
    for source in sources {
        for tokens in [woven(source), async_woven(source, false), async_woven(source, true)] {
            let mut open: Vec<char> = Vec::new();
            for c in tokens.to_string().chars().filter(|c| "()[]{}".contains(*c)) {
                match c {
                    ')' => assert_eq!(open.pop(), Some('(')),
                    ']' => assert_eq!(open.pop(), Some('[')),
                    '}' => assert_eq!(open.pop(), Some('{')),
                    _ => open.push(c),
                }
            }
            assert!(open.is_empty());
        }
    }
}
