use aspect_codegen::codegen::{collect_pat_idents, generate_async_args, is_result_type};
use aspect_codegen::codegen::{generate_aspect_wrapper, generate_async_aspect_wrapper};
use aspect_codegen::reading::{read_aspect, read_item, read_pat, read_signature};
use aspect_codegen::syntax::{AspectInfo, FnItem, Pattern, ReturnType, Ty};
use proc_macro2::{Ident, Span};
use syn::parse::Parser;

fn aspect(expr: &str) -> AspectInfo {
    let expr: syn::Expr = syn::parse_str(expr).unwrap();
    read_aspect(&expr, false)
}

fn function(source: &str) -> FnItem {
    let item: syn::ItemFn = syn::parse_str(source).unwrap();
    read_item(&item)
}

fn pattern(source: &str) -> Pattern {
    read_pat(&syn::Pat::parse_single.parse_str(source).unwrap())
}

fn output_type(source: &str) -> Ty {
    let item: syn::ItemFn = syn::parse_str(&format!("fn f() -> {} {{}}", source)).unwrap();
    match read_signature(&item.sig).output {
        ReturnType::Type(_, ty) => ty,
        ReturnType::Default => panic!("no return type"),
    }
}

#[test]
fn test_is_result_type() {
    let result_type = output_type("Result<i32, String>");
    assert!(is_result_type(&result_type));

    let non_result_type = output_type("i32");
    assert!(!is_result_type(&non_result_type));
}

#[test]
fn test_collect_pat_idents_tuple_struct() {
    let pat = pattern("Query(params)");
    let mut out = Vec::new();
    collect_pat_idents(&pat, &mut out);
    assert_eq!(out.len(), 1);
    assert_eq!(out[0], "params");
}

#[test]
fn test_generate_async_args_uses_cloned_original_values() {
    let args = vec![Ident::new("a", Span::call_site())];
    let tokens = generate_async_args(&args, Span::call_site()).to_string();

    assert!(tokens.contains("Box :: new (a . clone ()) as Box < dyn Any >"));
}

#[test]
fn test_generate_async_wrapper_uses_around() {
    let func = function("async fn demo(a: i32) -> i32 { a + 1 }");
    let aspect_info = aspect("Logger");
    let tokens = generate_aspect_wrapper(&aspect_info, &func).to_string();

    assert!(tokens.contains("__aspect . before (& JoinPoint"));
    assert!(tokens.contains("__aspect . after (& __after_context"));
    assert!(!tokens.contains("tokio :: task :: block_in_place"));
}

#[test]
fn test_generate_async_aspect_wrapper_uses_async_joinpoint() {
    let func = function("async fn demo(a: i32) -> i32 { a + 1 }");
    let mut aspect_info = aspect("Logger");
    aspect_info.has_custom_async_around = true;
    let tokens = generate_async_aspect_wrapper(&aspect_info, &func).to_string();

    assert!(tokens.contains("AsyncProceedingJoinPoint :: new"));
    assert!(tokens.contains("__aspect . around (__pjp) . await"));
    assert!(tokens.contains("Box < dyn Any + Send + Sync >"));
}

#[test]
fn test_generate_async_aspect_wrapper_uses_around_for_impl_trait() {
    let func = function("async fn demo(a: i32) -> impl IntoResponse { a + 1 }");
    let aspect_info = aspect("Logger");
    let tokens = generate_async_aspect_wrapper(&aspect_info, &func).to_string();

    assert!(!tokens.contains("AsyncProceedingJoinPoint :: new"));
    assert!(!tokens.contains("__aspect . around (__pjp) . await"));
    assert!(tokens.contains("__aspect . before (& AsyncJoinPoint"));
    assert!(tokens.contains("__aspect . after (& __after_context"));
    assert!(!tokens.contains("axum :: response"));
}

#[test]
fn test_generate_async_wrapper_has_no_block_on_dependency() {
    let func = function("async fn demo(a: i32) -> i32 { a + 1 }");
    let aspect_info = aspect("Logger");
    let tokens = generate_aspect_wrapper(&aspect_info, &func).to_string();

    assert!(!tokens.contains("ProceedingJoinPoint :: new"));
    assert!(!tokens.contains("__aspect . around (__pjp)"));
    assert!(!tokens.contains("tokio :: task :: block_in_place"));
}

#[test]
fn test_generate_async_wrapper_for_impl_trait_has_no_axum_coupling() {
    let func = function("async fn demo(a: i32) -> impl IntoResponse { a + 1 }");
    let aspect_info = aspect("Logger");
    let tokens = generate_aspect_wrapper(&aspect_info, &func).to_string();

    assert!(tokens.contains("__aspect . before (& JoinPoint"));
    assert!(tokens.contains("__aspect . after (& __after_context"));
    assert!(!tokens.contains(":: axum :: response"));
    assert!(!tokens.contains("IntoResponse :: into_response"));
    assert!(!tokens.contains("block_in_place"));
}

#[test]
fn test_async_wrappers_do_not_duplicate_after_calls() {
    let func = function("async fn demo(a: i32) -> i32 { a + 1 }");
    let aspect_info = aspect("Logger");

    let sync_tokens = generate_aspect_wrapper(&aspect_info, &func).to_string();
    let async_tokens = generate_async_aspect_wrapper(&aspect_info, &func).to_string();

    assert_eq!(sync_tokens.matches("__aspect . around (__pjp)").count(), 0);
    assert_eq!(sync_tokens.matches("__aspect . after_error (").count(), 0);
    assert_eq!(
        sync_tokens
            .matches("__aspect . after (& __after_context")
            .count(),
        1
    );
    assert_eq!(
        async_tokens
            .matches("__aspect . after (& __after_context")
            .count(),
        1
    );
    assert_eq!(async_tokens.matches("__aspect . after_error (").count(), 0);
}

#[test]
fn test_generate_async_aspect_wrapper_keeps_lifecycle_for_non_response_impl_trait() {
    let func = function("async fn demo(a: i32) -> impl core::fmt::Debug { a + 1 }");
    let aspect_info = aspect("Logger");
    let tokens = generate_async_aspect_wrapper(&aspect_info, &func).to_string();

    assert!(!tokens.contains("AsyncProceedingJoinPoint :: new"));
    assert!(tokens.contains("__aspect . before (& AsyncJoinPoint"));
    assert!(tokens.contains("__aspect . after (& __after_context"));
    assert!(!tokens.contains("__aspect . around (__pjp) . await"));
}

#[test]
fn test_generate_async_aspect_wrapper_calls_original_method_with_receiver() {
    let func = function("async fn query(&self, id: u64) -> String { format!(\"{}\", id) }");
    let aspect_info = aspect("Logger");
    let tokens = generate_async_aspect_wrapper(&aspect_info, &func).to_string();

    assert!(tokens.contains("Self :: __async_aspect_original_query (self , id) . await"));
}

#[test]
fn test_generate_sync_wrapper_calls_original_method_with_receiver() {
    let func = function("fn query(&self, id: u64) -> String { format!(\"{}\", id) }");
    let aspect_info = aspect("Logger");
    let tokens = generate_aspect_wrapper(&aspect_info, &func).to_string();

    assert!(tokens.contains("Self :: __aspect_original_query (self , id)"));
}

#[test]
fn test_generate_async_aspect_wrapper_no_receiver_embeds_original_inline() {
    let func = function("pub async fn process(x: u64) -> u64 { x + 1 }");
    let aspect_info = aspect("Logger");
    let tokens = generate_async_aspect_wrapper(&aspect_info, &func).to_string();

    assert!(!tokens.contains("Self :: __async_aspect_original_process"));
    assert!(tokens.contains("__async_aspect_original_process (x) . await"));
}

#[test]
fn test_generate_aspect_wrapper_no_receiver_embeds_original_inline() {
    let func = function("pub fn compute(x: u64) -> u64 { x + 1 }");
    let aspect_info = aspect("Logger");
    let tokens = generate_aspect_wrapper(&aspect_info, &func).to_string();

    assert!(!tokens.contains("Self :: __aspect_original_compute"));
    assert!(tokens.contains("__aspect_original_compute (x)"));
}

#[test]
fn test_async_aspect_wrapper_strips_mut_binding_in_call() {
    let func = function("pub async fn update(rb: &str, mut item: u64) -> u64 { item }");
    let aspect_info = aspect("Logger");
    let tokens = generate_async_aspect_wrapper(&aspect_info, &func).to_string();

    assert!(tokens.contains("__async_aspect_original_update (rb , item) . await"));
    assert!(!tokens.contains("(rb , mut item)"));
}

#[test]
fn test_aspect_wrapper_strips_mut_binding_in_call_with_receiver() {
    let func = function("fn update(&self, mut item: u64) -> u64 { item }");
    let aspect_info = aspect("Logger");
    let tokens = generate_aspect_wrapper(&aspect_info, &func).to_string();

    assert!(tokens.contains("Self :: __aspect_original_update (self , item)"));
    assert!(!tokens.contains("Self :: __aspect_original_update (self , mut item)"));
}
