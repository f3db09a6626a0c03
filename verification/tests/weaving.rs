//! Whole expansions, token by token.

use aspect_codegen::codegen::{generate_aspect_wrapper, generate_async_aspect_wrapper};
use aspect_codegen::reading::{read_aspect, read_item};
use aspect_codegen::syntax::AspectInfo;
use aspect_codegen::weaving::{is_plain_ident, weave_aspect, weave_async_aspect};
use proc_macro2::{Ident, Span, TokenStream};
use quote::ToTokens;

fn aspect(expr: &str, has_custom_async_around: bool) -> AspectInfo {
    let expr: syn::Expr = syn::parse_str(expr).unwrap();
    read_aspect(&expr, has_custom_async_around)
}

fn item(source: &str) -> syn::ItemFn {
    syn::parse_str(source).unwrap()
}

fn woven(source: &str) -> TokenStream {
    generate_aspect_wrapper(&aspect("Logger", false), &read_item(&item(source)))
}

fn async_woven(source: &str, custom: bool) -> TokenStream {
    generate_async_aspect_wrapper(&aspect("Logger", custom), &read_item(&item(source)))
}

fn same(tokens: &TokenStream, expected: &str) {
    let printed = tokens.to_string();
    let left: Vec<&str> = printed.split_whitespace().collect();
    let right: Vec<&str> = expected.split_whitespace().collect();
    assert_eq!(left.join(" "), right.join(" "));
}

/// The function behind the wrapper, as `syn` prints it.
fn renamed(source: &str, prefix: &str) -> String {
    let mut func = item(source);
    func.sig.ident = Ident::new(&format!("{}{}", prefix, func.sig.ident), Span::call_site());
    func.vis = syn::Visibility::Inherited;
    func.to_token_stream().to_string()
}

#[test]
fn function_that_returns_a_value() {
    same(
        &woven("pub fn add(a: i32, b: i32) -> i32 { a + b }"),
        r#"
        pub fn add (a : i32 , b : i32) -> i32 {
            fn __aspect_original_add (a : i32 , b : i32) -> i32 { a + b }
            use :: aspect_core :: prelude :: * ;
            use :: std :: any :: Any ;
            let __aspect = Logger ;
            let __args = vec ! [Box :: new (a . clone ()) as Box < dyn Any > ,
                Box :: new (b . clone ()) as Box < dyn Any >] ;
            let __context = JoinPoint {
                function_name : "add" ,
                module_path : module_path ! () ,
                location : Location { file : file ! () , line : line ! () , } ,
                args : __args ,
            } ;
            let __pjp = ProceedingJoinPoint :: new (|| {
                let __result = __aspect_original_add (a , b) ;
                Ok (Box :: new (__result) as Box < dyn Any >)
            } , __context ,) ;
            match __aspect . around (__pjp) {
                Ok (__boxed_result) => {
                    * __boxed_result . downcast :: < _ > () . expect ("aspect around() returned wrong type")
                }
                Err (__err) => { panic ! ("aspect around() failed: {:?}" , __err) ; }
            }
        }
        "#,
    );
}

#[test]
fn function_that_returns_a_result() {
    same(
        &woven("fn get() -> Result<u8, String> { Ok(1) }"),
        r#"
        fn get () -> Result < u8 , String > {
            fn __aspect_original_get () -> Result < u8 , String > { Ok (1) }
            use :: aspect_core :: prelude :: * ;
            use :: std :: any :: Any ;
            let __aspect = Logger ;
            let __args = vec ! [] ;
            let __context = JoinPoint {
                function_name : "get" ,
                module_path : module_path ! () ,
                location : Location { file : file ! () , line : line ! () , } ,
                args : __args ,
            } ;
            let __pjp = ProceedingJoinPoint :: new (|| {
                match __aspect_original_get () {
                    Ok (__val) => Ok (Box :: new (__val) as Box < dyn Any >) ,
                    Err (__err) => Err (AspectError :: execution (format ! ("{:?}" , __err))) ,
                }
            } , __context ,) ;
            match __aspect . around (__pjp) {
                Ok (__boxed_result) => {
                    let __inner = * __boxed_result . downcast :: < _ > () . expect ("aspect around() returned wrong type") ;
                    Ok (__inner)
                }
                Err (__err) => { Err (format ! ("{:?}" , __err) . into ()) }
            }
        }
        "#,
    );
}

#[test]
fn asynchronous_function_that_returns_a_value() {
    same(
        &woven("async fn twice(a: i32) -> i32 { a + a }"),
        r#"
        async fn twice (a : i32) -> i32 {
            async fn __aspect_original_twice (a : i32) -> i32 { a + a }
            use :: aspect_core :: prelude :: * ;
            use :: std :: any :: Any ;
            let __aspect = Logger ;
            let __aspect_arg_0 = a . clone () ;
            __aspect . before (& JoinPoint {
                function_name : "twice" ,
                module_path : module_path ! () ,
                location : Location { file : file ! () , line : :: core :: line ! () , } ,
                args : vec ! [Box :: new (__aspect_arg_0 . clone ()) as Box < dyn Any >] ,
            }) ;
            let __result = __aspect_original_twice (a) . await ;
            let __after_context = JoinPoint {
                function_name : "twice" ,
                module_path : module_path ! () ,
                location : Location { file : file ! () , line : :: core :: line ! () , } ,
                args : vec ! [Box :: new (__aspect_arg_0 . clone ()) as Box < dyn Any >] ,
            } ;
            __aspect . after (& __after_context , & __result as & dyn Any) ;
            __result
        }
        "#,
    );
}

#[test]
fn asynchronous_function_that_returns_a_result() {
    same(
        &woven("async fn get() -> io::Result<u8> { Ok(1) }"),
        r#"
        async fn get () -> io :: Result < u8 > {
            async fn __aspect_original_get () -> io :: Result < u8 > { Ok (1) }
            use :: aspect_core :: prelude :: * ;
            use :: std :: any :: Any ;
            let __aspect = Logger ;
            __aspect . before (& JoinPoint {
                function_name : "get" ,
                module_path : module_path ! () ,
                location : Location { file : file ! () , line : :: core :: line ! () , } ,
                args : vec ! [] ,
            }) ;
            match __aspect_original_get () . await {
                Ok (__value) => {
                    let __after_context = JoinPoint {
                        function_name : "get" ,
                        module_path : module_path ! () ,
                        location : Location { file : file ! () , line : :: core :: line ! () , } ,
                        args : vec ! [] ,
                    } ;
                    __aspect . after (& __after_context , & __value as & dyn Any) ;
                    Ok (__value)
                }
                Err (__err) => {
                    let __error_context = JoinPoint {
                        function_name : "get" ,
                        module_path : module_path ! () ,
                        location : Location { file : file ! () , line : :: core :: line ! () , } ,
                        args : vec ! [] ,
                    } ;
                    let __aspect_err = AspectError :: execution (format ! ("{:?}" , __err)) ;
                    __aspect . after_error (& __error_context , & __aspect_err) ;
                    Err (__err)
                }
            }
        }
        "#,
    );
}

#[test]
fn asynchronous_aspect_on_a_value() {
    same(
        &async_woven("async fn unit((a, b): (u8, u8)) { drop(a + b) }", false),
        r#"
        async fn unit ((a , b) : (u8 , u8)) {
            async fn __async_aspect_original_unit ((a , b) : (u8 , u8)) { drop (a + b) }
            use :: aspect_core :: prelude :: * ;
            use :: std :: any :: Any ;
            let __aspect = Logger ;
            let __aspect_arg_0 = a . clone () ;
            let __aspect_arg_1 = b . clone () ;
            __aspect . before (& AsyncJoinPoint {
                function_name : "unit" ,
                module_path : module_path ! () ,
                location : Location { file : file ! () , line : :: core :: line ! () , } ,
                args : vec ! [Box :: new (__aspect_arg_0 . clone ()) as Box < dyn Any + Send + Sync > ,
                    Box :: new (__aspect_arg_1 . clone ()) as Box < dyn Any + Send + Sync >] ,
            }) . await ;
            let __result = __async_aspect_original_unit ((a , b)) . await ;
            let __after_context = AsyncJoinPoint {
                function_name : "unit" ,
                module_path : module_path ! () ,
                location : Location { file : file ! () , line : :: core :: line ! () , } ,
                args : vec ! [Box :: new (__aspect_arg_0 . clone ()) as Box < dyn Any + Send + Sync > ,
                    Box :: new (__aspect_arg_1 . clone ()) as Box < dyn Any + Send + Sync >] ,
            } ;
            __aspect . after (& __after_context , & __result as & (dyn Any + Send + Sync)) . await ;
            __result
        }
        "#,
    );
}

#[test]
fn asynchronous_aspect_on_a_result() {
    same(
        &async_woven("async fn get() -> Result<(), E> { Ok(()) }", false),
        r#"
        async fn get () -> Result < () , E > {
            async fn __async_aspect_original_get () -> Result < () , E > { Ok (()) }
            use :: aspect_core :: prelude :: * ;
            use :: std :: any :: Any ;
            let __aspect = Logger ;
            __aspect . before (& AsyncJoinPoint {
                function_name : "get" ,
                module_path : module_path ! () ,
                location : Location { file : file ! () , line : :: core :: line ! () , } ,
                args : vec ! [] ,
            }) . await ;
            match __async_aspect_original_get () . await {
                Ok (__value) => {
                    let __after_context = AsyncJoinPoint {
                        function_name : "get" ,
                        module_path : module_path ! () ,
                        location : Location { file : file ! () , line : :: core :: line ! () , } ,
                        args : vec ! [] ,
                    } ;
                    __aspect . after (& __after_context , & __value as & (dyn Any + Send + Sync)) . await ;
                    Ok (__value)
                }
                Err (__err) => {
                    let __error_context = AsyncJoinPoint {
                        function_name : "get" ,
                        module_path : module_path ! () ,
                        location : Location { file : file ! () , line : :: core :: line ! () , } ,
                        args : vec ! [] ,
                    } ;
                    let __aspect_err = AspectError :: execution (format ! ("{:?}" , __err)) ;
                    __aspect . after_error (& __error_context , & __aspect_err) . await ;
                    Err (__err)
                }
            }
        }
        "#,
    );
}

#[test]
fn own_around_on_a_value() {
    same(
        &async_woven("async fn twice(mut a: i32) -> i32 { a *= 2; a }", true),
        r#"
        async fn twice (mut a : i32) -> i32 {
            async fn __async_aspect_original_twice (mut a : i32) -> i32 { a *= 2 ; a }
            use :: aspect_core :: prelude :: * ;
            use :: std :: any :: Any ;
            fn __async_aspect_take_result < T : 'static + Send > (boxed : Box < dyn Any + Send + Sync >) -> T {
                * boxed . downcast :: < T > () . expect ("async aspect around() returned wrong type")
            }
            let __aspect = Logger ;
            let __aspect_arg_0 = a . clone () ;
            let __context = AsyncJoinPoint {
                function_name : "twice" ,
                module_path : module_path ! () ,
                location : Location { file : file ! () , line : :: core :: line ! () , } ,
                args : vec ! [Box :: new (__aspect_arg_0 . clone ()) as Box < dyn Any + Send + Sync >] ,
            } ;
            let __pjp = AsyncProceedingJoinPoint :: new (move || {
                Box :: pin (async move {
                    let __result = __async_aspect_original_twice (a) . await ;
                    Ok (Box :: new (__result) as Box < dyn Any + Send + Sync >)
                })
            } , __context ,) ;
            match __aspect . around (__pjp) . await {
                Ok (__boxed_result) => {
                    let __result = __async_aspect_take_result (__boxed_result) ;
                    __result
                }
                Err (__err) => panic ! ("async aspect around() failed: {:?}" , __err)
            }
        }
        "#,
    );
}

#[test]
fn own_around_on_a_result() {
    same(
        &async_woven("async fn get() -> Result<u8, E> { Ok(1) }", true),
        r#"
        async fn get () -> Result < u8 , E > {
            async fn __async_aspect_original_get () -> Result < u8 , E > { Ok (1) }
            use :: aspect_core :: prelude :: * ;
            use :: std :: any :: Any ;
            let __aspect = Logger ;
            let __context = AsyncJoinPoint {
                function_name : "get" ,
                module_path : module_path ! () ,
                location : Location { file : file ! () , line : :: core :: line ! () , } ,
                args : vec ! [] ,
            } ;
            let __pjp = AsyncProceedingJoinPoint :: new (move || {
                Box :: pin (async move {
                    match __async_aspect_original_get () . await {
                        Ok (__val) => Ok (Box :: new (__val) as Box < dyn Any + Send + Sync >) ,
                        Err (__err) => Err (AspectError :: execution (format ! ("{:?}" , __err))) ,
                    }
                })
            } , __context ,) ;
            match __aspect . around (__pjp) . await {
                Ok (__boxed_result) => {
                    let __result = * __boxed_result . downcast :: < _ > () . expect ("async aspect around() returned wrong type") ;
                    Ok (__result)
                }
                Err (__err) => Err (format ! ("{:?}" , __err) . into ())
            }
        }
        "#,
    );
}

#[test]
fn own_around_on_impl_trait_is_an_error() {
    same(
        &async_woven("async fn demo(a: u8) -> impl Display { a }", true),
        r#"
        async fn demo (a : u8) -> impl Display {
            async fn __async_aspect_original_demo (a : u8) -> impl Display { a }
            compile_error ! ("async aspects that override around() cannot be applied to async fn returning impl Trait; use a concrete return type or rely on before/after/after_error only") ;
        }
        "#,
    );
}

#[test]
fn method_stands_beside_its_wrapper() {
    same(
        &woven("pub(crate) fn size(&self) -> usize { self.0 }"),
        r#"
        fn __aspect_original_size (& self) -> usize { self . 0 }
        pub (crate) fn size (& self) -> usize {
            use :: aspect_core :: prelude :: * ;
            use :: std :: any :: Any ;
            let __aspect = Logger ;
            let __args = vec ! [] ;
            let __context = JoinPoint {
                function_name : "size" ,
                module_path : module_path ! () ,
                location : Location { file : file ! () , line : line ! () , } ,
                args : __args ,
            } ;
            let __pjp = ProceedingJoinPoint :: new (|| {
                let __result = Self :: __aspect_original_size (self) ;
                Ok (Box :: new (__result) as Box < dyn Any >)
            } , __context ,) ;
            match __aspect . around (__pjp) {
                Ok (__boxed_result) => {
                    * __boxed_result . downcast :: < _ > () . expect ("aspect around() returned wrong type")
                }
                Err (__err) => { panic ! ("aspect around() failed: {:?}" , __err) ; }
            }
        }
        "#,
    );
}

#[test]
fn function_behind_the_wrapper_is_printed_as_by_syn() {
    let sources = [
        "pub fn plain() {}",
        "#[inline] #[must_use] pub fn attributed(a: u8) -> u8 { #![allow(unused)] a }",
        "pub const unsafe extern \"C\" fn qualified(a: u8,) -> u8 { a }",
        "fn generic<'a, T: Clone, const N: usize>(a: &'a [T; N]) -> T where T: 'a { a[0].clone() }",
        "unsafe extern \"C\" fn variadic(a: u8, args: ...) {}",
        "unsafe extern \"C\" fn trailing(a: u8, args: ...,) {}",
        "unsafe extern \"C\" fn only(args: ...) {}",
        "async fn waits(mut a: u8, ref b: u8, Query(c): Query, _: u8) -> u8 { let x = a; x }",
        "fn method(self: Box<Self>, [a, ..]: [u8; 3]) -> Result<u8, E> { Ok(a) }",
    ];
    for source in sources {
        let tokens = woven(source).to_string();
        assert!(tokens.contains(&renamed(source, "__aspect_original_")), "{}", tokens);
        let tokens = async_woven(source, true).to_string();
        assert!(tokens.contains(&renamed(source, "__async_aspect_original_")), "{}", tokens);
    }
}

#[test]
fn variadic_parameter_is_separated() {
    let mut func = item("unsafe extern \"C\" fn variadic(a: u8, args: ...) {}");
    assert!(func.sig.inputs.pop_punct().is_some());
    let tokens = generate_aspect_wrapper(&aspect("Logger", false), &read_item(&func)).to_string();
    assert!(tokens.contains("unsafe extern \"C\" fn __aspect_original_variadic (a : u8 , args : ...) { }"));

    func.sig.inputs.clear();
    let tokens = generate_aspect_wrapper(&aspect("Logger", false), &read_item(&func)).to_string();
    assert!(tokens.contains("unsafe extern \"C\" fn __aspect_original_variadic (args : ...) { }"));
}

#[test]
fn wrapper_keeps_signature_but_no_qualifiers() {
    let source =
        "#[inline] pub const unsafe extern \"C\" fn f<T: Copy>(a: T,) -> T where T: Send { a }";
    let tokens = woven(source).to_string();
    assert!(tokens.starts_with("pub fn f < T : Copy > (a : T ,) -> T where T : Send {"));
    let tokens = async_woven(source, false).to_string();
    assert!(tokens.starts_with("pub async fn f < T : Copy > (a : T ,) -> T where T : Send {"));

    let variadic = woven("pub unsafe extern \"C\" fn v(a: u8, args: ...) {}").to_string();
    assert!(variadic.starts_with("pub fn v (a : u8 ,) {"));
}

#[test]
fn expansions_are_functions() {
    let sources = [
        "pub fn add(a: i32, b: i32) -> i32 { a + b }",
        "fn get() -> Result<u8, String> { Ok(1) }",
        "fn change(mut a: Vec<u8>, ref b: u8, ref mut c: u8) -> Vec<u8> { a.push(*b); a }",
        "async fn twice(a: i32) -> i32 { a + a }",
        "async fn load(Path(id): Path<u64>) -> Result<u8, E> { Ok(1) }",
        "async fn show<T: Show>(a: T) -> impl Show { a }",
    ];
    for source in sources {
        assert!(syn::parse2::<syn::ItemFn>(woven(source)).is_ok());
        assert!(syn::parse2::<syn::ItemFn>(async_woven(source, false)).is_ok());
        assert!(syn::parse2::<syn::ItemFn>(async_woven(source, true)).is_ok());
    }
    let methods = [
        "pub fn size(&self) -> usize { self.0 }",
        "async fn send(&mut self, mut m: M) -> Result<(), E> { Ok(()) }",
    ];
    for source in methods {
        let block = format!("impl S {{ {} }}", async_woven(source, true));
        let parsed: syn::ItemImpl = syn::parse_str(&block).unwrap();
        assert_eq!(parsed.items.len(), 2);
    }
}

#[test]
fn bindings_are_shown_by_their_names() {
    let tokens = woven("fn update(&self, mut item: u64, ref other: u8) -> u64 { item }").to_string();
    assert!(tokens.contains(
        "let __args = vec ! [Box :: new (item . clone ()) as Box < dyn Any > , \
         Box :: new (other . clone ()) as Box < dyn Any >] ;"
    ));
    assert!(tokens.contains("Self :: __aspect_original_update (self , item , other)"));
    // Only the two declarations keep them.
    assert_eq!(tokens.matches("mut item").count(), 2);
    assert_eq!(tokens.matches("mut item : u64").count(), 2);
    assert_eq!(tokens.matches("ref other").count(), 2);
}

#[test]
fn aspect_is_the_expression_that_was_given() {
    let func = read_item(&item("fn f() {}"));
    let tokens = generate_aspect_wrapper(&aspect("Timer::new(\"t\", 3)", false), &func).to_string();
    assert!(tokens.contains("let __aspect = Timer :: new (\"t\" , 3) ;"));
}

#[test]
fn raw_names_are_not_woven() {
    let raw = item("fn r#type() {}");
    assert!(weave_aspect(&aspect("Logger", false), &raw).is_none());
    assert!(weave_async_aspect(&aspect("Logger", false), &raw).is_none());
}

#[test]
fn plain_names_are_woven() {
    let source = "async fn demo(a: u8) -> u8 { a }";
    let tokens = weave_aspect(&aspect("Logger", false), &item(source)).unwrap();
    assert_eq!(tokens.to_string(), woven(source).to_string());
    let tokens = weave_async_aspect(&aspect("Logger", true), &item(source)).unwrap();
    assert_eq!(tokens.to_string(), async_woven(source, true).to_string());
}

#[test]
fn plain_identifiers() {
    assert!(is_plain_ident(&Ident::new("demo", Span::call_site())));
    assert!(is_plain_ident(&Ident::new("größe", Span::call_site())));
    assert!(is_plain_ident(&Ident::new("_", Span::call_site())));
    assert!(!is_plain_ident(&Ident::new_raw("type", Span::call_site())));
}

#[test]
fn name_outside_ascii() {
    let tokens = woven("fn größe(ä: u8) -> u8 { ä }").to_string();
    assert!(tokens.contains("__aspect_original_größe (ä)"));
    assert!(tokens.contains("function_name : \"größe\""));
}
