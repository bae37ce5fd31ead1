use proc_macro2::TokenStream;
use verified_macros::item::{expand_item, item_outcome, qualify_fn, qualify_impl, qualify_item};
use verified_macros::{verified_item, Diagnostic, Expansion, Origin};

fn text_of(ts: TokenStream) -> String {
    ts.to_string()
}

fn stream(source: &str) -> TokenStream {
    source.parse::<TokenStream>().unwrap()
}

fn item(source: &str) -> syn::Item {
    syn::parse_str::<syn::Item>(source).unwrap()
}

#[test]
fn test_verified_function() {
    let item: syn::Item = item(
        "fn foo(x: i32) -> i32 {
            x + 1
        }",
    );
    let expanded = match item {
        syn::Item::Fn(_) => qualify_item(item).into_tokens(),
        _ => panic!("Expected Item::Fn"),
    };
    let expected = stream(
        "unsafe fn foo(x: i32) -> i32 {
            x + 1
        }",
    );
    assert_eq!(
        text_of(expanded),
        text_of(expected),
        "Verified attribute should make function unsafe"
    );
}

#[test]
fn test_verified_impl() {
    let item: syn::Item = item(
        "impl MyType {
            fn bar(&self) {}
        }",
    );
    let expanded = match item {
        syn::Item::Impl(_) => qualify_item(item).into_tokens(),
        _ => panic!("Expected Item::Impl"),
    };
    let expected = stream(
        "unsafe impl MyType {
            fn bar(&self) {}
        }",
    );
    assert_eq!(
        text_of(expanded),
        text_of(expected),
        "Verified attribute should make impl unsafe"
    );
}

#[test]
fn test_verified_unsupported() {
    let item: syn::Item = item("struct MyStruct;");
    let output = match item {
        syn::Item::Fn(_) | syn::Item::Impl(_) => panic!("Expected unsupported item"),
        item => qualify_item(item).into_tokens(),
    };
    let output_str = text_of(output);
    assert!(
        output_str.contains("error")
            && output_str.contains("only supported on functions and impls"),
        "Verified attribute on struct should produce error"
    );
}

#[test]
fn the_attribute_qualifies_a_function() {
    let output = verified_item(TokenStream::new(), stream("fn foo(x: i32) -> i32 { x + 1 }"));
    assert_eq!(
        output.to_string(),
        stream("unsafe fn foo(x: i32) -> i32 { x + 1 }").to_string()
    );
    assert_eq!(
        output.to_string(),
        "unsafe fn foo (x : i32) -> i32 { x + 1 }"
    );
}

#[test]
fn the_attribute_qualifies_an_implementation() {
    let output = verified_item(TokenStream::new(), stream("impl MyType { fn bar(&self) {} }"));
    assert_eq!(
        output.to_string(),
        stream("unsafe impl MyType { fn bar(&self) {} }").to_string()
    );
}

#[test]
fn the_attribute_ignores_its_arguments() {
    let bare = verified_item(TokenStream::new(), stream("fn f() {}"));
    let with_arguments = verified_item(stream("anything, at = \"all\""), stream("fn f() {}"));
    assert_eq!(bare.to_string(), with_arguments.to_string());
}

#[test]
fn the_qualifier_goes_where_the_grammar_wants_it() {
    let output = verified_item(
        TokenStream::new(),
        stream("#[inline] pub(crate) const fn f<T: Copy>(x: T, y: u8) -> T where T: Send { x }"),
    );
    assert_eq!(
        output.to_string(),
        stream(
            "#[inline] pub(crate) const unsafe fn f<T: Copy>(x: T, y: u8) -> T where T: Send { x }"
        )
        .to_string()
    );
    let output = verified_item(
        TokenStream::new(),
        stream("impl<T> Trait for Wrapper<T> where T: Copy { type A = T; fn m(&self) {} }"),
    );
    assert_eq!(
        output.to_string(),
        stream("unsafe impl<T> Trait for Wrapper<T> where T: Copy { type A = T; fn m(&self) {} }")
            .to_string()
    );
}

#[test]
fn only_the_qualifier_of_a_function_changes() {
    let before = match item("pub async fn g(a: u8, b: &str) -> bool { a > 0 }") {
        syn::Item::Fn(function) => function,
        _ => panic!("a function was written"),
    };
    let after = qualify_fn(before.clone(), Default::default());
    assert!(before.sig.unsafety.is_none());
    assert!(after.sig.unsafety.is_some());
    assert_eq!(after.sig.ident, before.sig.ident);
    assert_eq!(after.sig.inputs.len(), before.sig.inputs.len());
    assert_eq!(after.sig.asyncness.is_some(), before.sig.asyncness.is_some());
    assert_eq!(after.block.stmts.len(), before.block.stmts.len());
    let mut cleared = after;
    cleared.sig.unsafety = None;
    assert_eq!(
        quote::ToTokens::to_token_stream(&cleared).to_string(),
        quote::ToTokens::to_token_stream(&before).to_string()
    );
}

#[test]
fn only_the_qualifier_of_an_implementation_changes() {
    let before = match item("impl<T> Tr for S<T> { const N: u8 = 1; fn m(&self) -> u8 { 2 } }") {
        syn::Item::Impl(implementation) => implementation,
        _ => panic!("an implementation was written"),
    };
    let after = qualify_impl(before.clone(), Default::default());
    assert!(before.unsafety.is_none());
    assert!(after.unsafety.is_some());
    assert_eq!(after.items.len(), before.items.len());
    let mut cleared = after;
    cleared.unsafety = None;
    assert_eq!(
        quote::ToTokens::to_token_stream(&cleared).to_string(),
        quote::ToTokens::to_token_stream(&before).to_string()
    );
}

#[test]
fn qualifying_twice_is_qualifying_once() {
    let once = verified_item(TokenStream::new(), stream("fn foo() {}"));
    let twice = verified_item(TokenStream::new(), once.clone());
    assert_eq!(once.to_string(), twice.to_string());
    assert_eq!(twice.to_string(), "unsafe fn foo () { }");
    let once = verified_item(TokenStream::new(), stream("unsafe impl Send for X {}"));
    assert_eq!(once.to_string(), stream("unsafe impl Send for X {}").to_string());
}

#[test]
fn every_other_kind_is_refused() {
    let others = [
        "struct MyStruct;",
        "enum E { A, B }",
        "trait T { fn m(&self); }",
        "const C: u8 = 1;",
        "static S: u8 = 1;",
        "mod m { fn inner() {} }",
        "use std::fmt;",
        "type A = u8;",
        "union U { a: u8 }",
        "extern crate alloc;",
        "macro_rules! m { () => {} }",
        "extern \"C\" { fn f(); }",
    ];
    for source in others {
        match qualify_item(item(source)) {
            Expansion::Refused(diagnostic) => {
                assert_eq!(
                    diagnostic.message,
                    "#[verified_item] only supported on functions and impls"
                );
                match diagnostic.origin {
                    Origin::Item(refused) => assert_eq!(
                        quote::ToTokens::to_token_stream(&refused).to_string(),
                        stream(source).to_string()
                    ),
                    Origin::Tokens(_) => panic!("the message must point at the declaration"),
                }
            }
            _ => panic!("{} must be refused", source),
        }
        let output = verified_item(TokenStream::new(), stream(source)).to_string();
        assert_eq!(
            output,
            ":: core :: compile_error ! { \"#[verified_item] only supported on functions and impls\" }"
        );
        assert!(!output.contains("unsafe"));
    }
}

#[test]
fn tokens_that_are_no_declaration_are_reported_with_the_parsers_words() {
    let broken = "let x = 1;";
    let reason = syn::parse_str::<syn::Item>(broken).err().unwrap().to_string();
    assert!(!reason.is_empty());
    match expand_item(stream(broken)) {
        Expansion::Refused(diagnostic) => {
            assert_eq!(diagnostic.message, format!("Failed to parse item: {}", reason));
            match diagnostic.origin {
                Origin::Tokens(origin) => assert_eq!(origin.to_string(), "let x = 1 ;"),
                Origin::Item(_) => panic!("the message must point at the input"),
            }
        }
        _ => panic!("tokens that are no declaration must be refused"),
    }
    let output = verified_item(TokenStream::new(), stream(broken)).to_string();
    assert!(output.contains("compile_error"));
    assert!(output.contains("Failed to parse item:"));
    assert!(output.contains(&reason));
}

#[test]
fn two_declarations_are_no_declaration() {
    let output = verified_item(TokenStream::new(), stream("fn a() {} fn b() {}")).to_string();
    assert!(output.contains("Failed to parse item:"));
    let output = verified_item(TokenStream::new(), TokenStream::new()).to_string();
    assert!(output.contains("Failed to parse item:"));
}

#[test]
fn a_parser_failure_handed_in_is_reported_as_it_is() {
    let failure = syn::Error::new(proc_macro2::Span::call_site(), "expected a declaration");
    match item_outcome(stream("a b"), Err(failure)) {
        Expansion::Refused(diagnostic) => {
            assert_eq!(diagnostic.message, "Failed to parse item: expected a declaration");
        }
        _ => panic!("a failure must be refused"),
    }
    let output = item_outcome(stream("ignored"), Ok(item("fn f() {}"))).into_tokens();
    assert_eq!(output.to_string(), stream("unsafe fn f() {}").to_string());
}

#[test]
fn a_diagnostic_becomes_a_compile_error_with_its_message() {
    let diagnostic = Diagnostic::new(
        String::from("plain words, nothing else"),
        Origin::Tokens(stream("some tokens")),
    );
    assert_eq!(diagnostic.message, "plain words, nothing else");
    let output = diagnostic.into_compile_error().to_string();
    assert_eq!(
        output,
        ":: core :: compile_error ! { \"plain words, nothing else\" }"
    );
    let empty = Diagnostic::new(String::from("nothing to point at"), Origin::Tokens(TokenStream::new()));
    assert!(empty.into_compile_error().to_string().contains("nothing to point at"));
    let quoted = Diagnostic::new(String::from("say \"no\""), Origin::Item(item("struct S;")));
    let output = quoted.into_compile_error().to_string();
    assert!(output.contains("compile_error"));
    assert!(output.contains("say \\\"no\\\""));
}
