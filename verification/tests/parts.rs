//! The parts that expansions are made of.

use aspect_codegen::codegen::{
    collect_pat_idents, generate_async_arg_captures, generate_async_args,
    generate_async_aspect_call, generate_async_around_call, generate_async_send_args,
    generate_original_call, generate_sync_args, generate_sync_around_call, has_receiver,
    is_result_type, pat_to_call_arg,
};
use aspect_codegen::numerals::decimal;
use aspect_codegen::reading::{read_arg, read_aspect, read_item, read_pat, read_signature};
use aspect_codegen::syntax::{Param, Pattern, PatternShape, ReturnType, Ty, TyShape};
use proc_macro2::{Ident, Span, TokenStream};
use syn::parse::Parser;
use syn::punctuated::Punctuated;

fn pattern(source: &str) -> Pattern {
    read_pat(&syn::Pat::parse_multi.parse_str(source).unwrap())
}

fn item(source: &str) -> syn::ItemFn {
    syn::parse_str(source).unwrap()
}

fn output_type(source: &str) -> Ty {
    match read_signature(&item(&format!("fn f() -> {} {{}}", source)).sig).output {
        ReturnType::Type(arrow, ty) => {
            assert_eq!(arrow.to_string(), "->");
            ty
        }
        ReturnType::Default => panic!("no return type"),
    }
}

fn ident(text: &str) -> Ident {
    Ident::new(text, Span::call_site())
}

fn names(source: &str) -> Vec<String> {
    let mut out = Vec::new();
    collect_pat_idents(&pattern(source), &mut out);
    out.iter().map(|ident| ident.to_string()).collect()
}

fn stream(source: &str) -> TokenStream {
    source.parse().unwrap()
}

#[test]
fn names_that_patterns_bind() {
    assert_eq!(names("x"), ["x"]);
    assert_eq!(names("mut x"), ["x"]);
    assert_eq!(names("ref mut x"), ["x"]);
    assert_eq!(names("&x"), ["x"]);
    assert_eq!(names("(x)"), ["x"]);
    assert_eq!(names("(a, b, c)"), ["a", "b", "c"]);
    assert_eq!(names("Pair(a, (b, c))"), ["a", "b", "c"]);
    assert_eq!(names("Point { x, y: (a, b), .. }"), ["x", "a", "b"]);
    assert_eq!(names("[a, .., b]"), ["a", "b"]);
    assert_eq!(names("_"), Vec::<String>::new());
    assert_eq!(names("1"), Vec::<String>::new());
    assert_eq!(names("None::<u8>"), Vec::<String>::new());
}

#[test]
fn names_behind_a_binding_are_not_collected() {
    assert_eq!(names("all @ (a, b)"), ["all"]);
}

#[test]
fn names_of_the_first_alternative_only() {
    assert_eq!(names("Left(a) | Right(b)"), ["a"]);
}

#[test]
fn names_of_a_pattern_with_a_type() {
    let typed = syn::Pat::Type(syn::PatType {
        attrs: Vec::new(),
        pat: Box::new(syn::Pat::parse_single.parse_str("(a, b)").unwrap()),
        colon_token: Default::default(),
        ty: Box::new(syn::parse_str("(u8, u8)").unwrap()),
    });
    let read = read_pat(&typed);
    assert!(matches!(read.shape, PatternShape::Type(_)));
    let mut out = vec![ident("first")];
    collect_pat_idents(&read, &mut out);
    assert_eq!(out, ["first", "a", "b"]);
}

#[test]
fn shapes_of_patterns() {
    assert!(matches!(pattern("x").shape, PatternShape::Ident(_, false)));
    assert!(matches!(pattern("x @ 1").shape, PatternShape::Ident(_, true)));
    assert!(matches!(pattern("&x").shape, PatternShape::Reference(_)));
    assert!(matches!(pattern("(x)").shape, PatternShape::Paren(_)));
    assert!(matches!(pattern("(x,)").shape, PatternShape::Tuple(_)));
    assert!(matches!(pattern("P(x)").shape, PatternShape::TupleStruct(_)));
    assert!(matches!(pattern("P { x }").shape, PatternShape::Struct(_)));
    assert!(matches!(pattern("[x]").shape, PatternShape::Slice(_)));
    assert!(matches!(pattern("A | B").shape, PatternShape::Or(_)));
    assert!(matches!(pattern("_").shape, PatternShape::Other));
    assert_eq!(pattern("P { x, y: 1 }").tokens.to_string(), "P { x , y : 1 }");
}

#[test]
fn arguments_that_hand_parameters_on() {
    let arg = |source: &str| pat_to_call_arg(&pattern(source)).to_string();
    assert_eq!(arg("item"), "item");
    assert_eq!(arg("mut item"), "item");
    assert_eq!(arg("ref item"), "item");
    assert_eq!(arg("ref mut item"), "item");
    assert_eq!(arg("Query(params)"), "Query (params)");
    assert_eq!(arg("(a, b)"), "(a , b)");
    assert_eq!(arg("all @ 1"), "all @ 1");
}

#[test]
fn calls_of_the_function_behind_the_wrapper() {
    let a = pattern("mut a");
    let b = pattern("Query(b)");
    let at = Span::call_site();
    let name = ident("f");
    let call = |pats: &Vec<&Pattern>, method: bool| {
        generate_original_call(&name, pats, method, at).to_string()
    };
    assert_eq!(call(&vec![], false), "f ()");
    assert_eq!(call(&vec![&a], false), "f (a)");
    assert_eq!(call(&vec![&a, &b], false), "f (a , Query (b))");
    assert_eq!(call(&vec![], true), "Self :: f (self)");
    assert_eq!(call(&vec![&a], true), "Self :: f (self , a)");
    assert_eq!(call(&vec![&a, &b], true), "Self :: f (self , a , Query (b))");
}

#[test]
fn arguments_in_a_join_point() {
    let at = Span::call_site();
    let a = pattern("mut a");
    let b = pattern("Query(b)");
    assert_eq!(generate_sync_args(&vec![], at).to_string(), "vec ! []");
    assert_eq!(
        generate_sync_args(&vec![&a, &b], at).to_string(),
        "vec ! [Box :: new (a . clone ()) as Box < dyn Any > , \
         Box :: new (Query (b) . clone ()) as Box < dyn Any >]"
    );
    let idents = vec![ident("x"), ident("y")];
    assert_eq!(
        generate_async_args(&idents, at).to_string(),
        "vec ! [Box :: new (x . clone ()) as Box < dyn Any > , \
         Box :: new (y . clone ()) as Box < dyn Any >]"
    );
    assert_eq!(
        generate_async_send_args(&idents, at).to_string(),
        "vec ! [Box :: new (x . clone ()) as Box < dyn Any + Send + Sync > , \
         Box :: new (y . clone ()) as Box < dyn Any + Send + Sync >]"
    );
}

#[test]
fn arguments_in_a_join_point_are_expressions() {
    let pats = [
        pattern("a"),
        pattern("mut b"),
        pattern("ref c"),
        pattern("ref mut d"),
        pattern("(e, f)"),
        pattern("Query(g)"),
    ];
    let tokens = generate_sync_args(&pats.iter().collect(), Span::call_site());
    let parsed: syn::ExprMacro = syn::parse2(tokens).unwrap();
    let args = Punctuated::<syn::Expr, syn::token::Comma>::parse_terminated
        .parse2(parsed.mac.tokens)
        .unwrap();
    assert_eq!(args.len(), 6);
    for arg in args {
        assert!(matches!(arg, syn::Expr::Cast(_)));
    }
}

#[test]
fn variables_that_keep_arguments() {
    let idents: Vec<Ident> = (0..12).map(|i| ident(&format!("p{}", i))).collect();
    let (kept, captures) = generate_async_arg_captures(&idents, Span::call_site());
    assert_eq!(kept.len(), 12);
    assert_eq!(kept[0], "__aspect_arg_0");
    assert_eq!(kept[9], "__aspect_arg_9");
    assert_eq!(kept[10], "__aspect_arg_10");
    assert_eq!(kept[11], "__aspect_arg_11");
    let text = captures.to_string();
    assert!(text.starts_with("let __aspect_arg_0 = p0 . clone () ; let __aspect_arg_1 = p1 ."));
    assert!(text.ends_with("let __aspect_arg_11 = p11 . clone () ;"));

    let (kept, captures) = generate_async_arg_captures(&Vec::new(), Span::call_site());
    assert!(kept.is_empty());
    assert_eq!(captures.to_string(), "");
}

#[test]
fn types_that_are_named_result() {
    assert!(is_result_type(&output_type("Result<(), E>")));
    assert!(is_result_type(&output_type("Result")));
    assert!(is_result_type(&output_type("std::io::Result<u8>")));
    assert!(!is_result_type(&output_type("Result::Alias")));
    assert!(!is_result_type(&output_type("MyResult<u8>")));
    assert!(!is_result_type(&output_type("Option<Result<u8, E>>")));
    assert!(!is_result_type(&output_type("&Result<u8, E>")));
    assert!(!is_result_type(&output_type("impl Result")));
    assert!(!is_result_type(&output_type("r#Result<u8, E>")));
}

#[test]
fn forms_of_types() {
    match output_type("a::b::C<u8>").shape {
        TyShape::Path(segments) => assert_eq!(segments, ["a", "b", "C"]),
        _ => panic!("not a path"),
    }
    assert!(matches!(output_type("impl Trait + Send").shape, TyShape::ImplTrait));
    assert!(matches!(output_type("Box<impl Trait>").shape, TyShape::Path(_)));
    assert!(matches!(output_type("(u8, u8)").shape, TyShape::Other));
    assert_eq!(output_type("a::C<u8>").tokens.to_string(), "a :: C < u8 >");
}

#[test]
fn receivers() {
    assert!(has_receiver(&read_item(&item("fn f(&self) {}"))));
    assert!(has_receiver(&read_item(&item("fn f(mut self, a: u8) {}"))));
    assert!(has_receiver(&read_item(&item("fn f(self: Box<Self>) {}"))));
    assert!(!has_receiver(&read_item(&item("fn f(this: &Self) {}"))));
    assert!(!has_receiver(&read_item(&item("fn f() {}"))));

    let func = item("fn f(&self, (a, b): P) {}");
    assert!(matches!(read_arg(&func.sig.inputs[0]), Param::Receiver));
    assert!(matches!(
        read_arg(&func.sig.inputs[1]),
        Param::Typed(Pattern { shape: PatternShape::Tuple(_), .. })
    ));
}

#[test]
fn parts_of_a_function_item() {
    let read = read_item(&item(
        "#[a] pub(super) const unsafe extern \"C\" fn f<T>(x: T, y: ...) -> u8 where T: U { #![b] x; 1 }",
    ));
    assert_eq!(read.attrs.len(), 2);
    assert!(!read.attrs[0].inner);
    assert_eq!(read.attrs[0].tokens.to_string(), "# [a]");
    assert!(read.attrs[1].inner);
    assert_eq!(read.attrs[1].tokens.to_string(), "# ! [b]");
    assert_eq!(read.vis.to_string(), "pub (super)");
    assert_eq!(read.sig.constness.to_string(), "const");
    assert!(read.sig.asyncness.is_none());
    assert_eq!(read.sig.unsafety.to_string(), "unsafe");
    assert_eq!(read.sig.abi.to_string(), "extern \"C\"");
    assert_eq!(read.sig.fn_token.to_string(), "fn");
    assert_eq!(read.sig.ident, "f");
    assert_eq!(read.sig.generics.to_string(), "< T >");
    assert_eq!(read.sig.inputs.len(), 1);
    assert_eq!(read.sig.input_tokens.to_string(), "x : T ,");
    assert!(read.sig.inputs_ended);
    assert_eq!(read.sig.variadic.unwrap().to_string(), "y : ...");
    assert_eq!(read.sig.where_clause.to_string(), "where T : U");
    assert_eq!(read.stmts.to_string(), "x ; 1");

    let read = read_item(&item("async fn g(x: u8) {}"));
    assert_eq!(read.sig.asyncness.unwrap().to_string(), "async");
    assert!(!read.sig.inputs_ended);
    assert!(read.sig.variadic.is_none());
    assert!(matches!(read.sig.output, ReturnType::Default));
    assert_eq!(read.vis.to_string(), "");
    assert_eq!(read.stmts.to_string(), "");
}

#[test]
fn expression_of_an_aspect() {
    let expr: syn::Expr = syn::parse_str("Timer { limit: 3 }").unwrap();
    let read = read_aspect(&expr, true);
    assert_eq!(read.aspect_expr.to_string(), "Timer { limit : 3 }");
    assert!(read.has_custom_async_around);
    assert!(!read_aspect(&expr, false).has_custom_async_around);
}

#[test]
fn numerals() {
    assert_eq!(decimal(0), "0");
    assert_eq!(decimal(7), "7");
    assert_eq!(decimal(10), "10");
    assert_eq!(decimal(1905), "1905");
    assert_eq!(decimal(usize::MAX), format!("{}", usize::MAX));
}

#[test]
fn names_are_quoted_as_they_print() {
    let at = Span::call_site();
    let body = generate_sync_around_call(
        &stream("A"),
        &ident("hidden"),
        &Ident::new_raw("type", at),
        &vec![],
        false,
        false,
        at,
    );
    assert!(body.to_string().contains("function_name : \"r#type\""));
}

#[test]
fn bodies_by_their_flags() {
    let at = Span::call_site();
    let a = pattern("a");
    let pats = vec![&a];
    let idents = vec![ident("a")];
    let advised = |is_result: bool| {
        generate_async_around_call(
            &stream("A"),
            &ident("hidden"),
            &ident("shown"),
            &pats,
            &idents,
            is_result,
            true,
            at,
        )
        .to_string()
    };
    assert!(advised(true).contains("match Self :: hidden (self , a) . await {"));
    assert!(advised(false).contains("let __result = Self :: hidden (self , a) . await ;"));

    let async_body = |is_result: bool, impl_trait: bool, custom: bool| {
        generate_async_aspect_call(
            &stream("A"),
            &ident("hidden"),
            &ident("shown"),
            &pats,
            &idents,
            is_result,
            impl_trait,
            custom,
            false,
            at,
        )
        .to_string()
    };
    assert!(async_body(false, true, true).starts_with("compile_error ! ("));
    assert!(async_body(true, true, true).contains("__aspect . around (__pjp) . await"));
    assert!(async_body(false, true, false).contains("__aspect . before (& AsyncJoinPoint"));
    assert!(async_body(false, false, true).contains("fn __async_aspect_take_result < T"));
    assert!(!async_body(true, false, true).contains("__async_aspect_take_result"));
}
