//! Qualifying a declaration: a function or an implementation block gets its
//! qualifier set and is otherwise left as it was; every other declaration
//! is refused.

use crate::diagnostic::{Diagnostic, DiagnosticView, Origin};
use crate::expansion::{emitted, Expansion, ExpansionView};
use crate::syntax::{
    error_message, error_text, parse_item, parsed_item, printed_fn, printed_impl, token_text,
    unsafe_token,
};
use crate::text::{
    error_marker, item_failure_message, item_failure_text, lemma_mentions_within,
    lemma_unsupported_text, mentions, supported_kinds_phrase, unsupported_message,
    unsupported_text,
};
use proc_macro2::TokenStream;
use vstd::prelude::*;

verus! {

/// The function `function` with `token` as its qualifier.
pub open spec fn fn_qualified(function: syn::ItemFn, token: syn::token::Unsafe) -> syn::ItemFn {
    syn::ItemFn { sig: syn::Signature { unsafety: Some(token), ..function.sig }, ..function }
}

/// The implementation block `implementation` with `token` as its qualifier.
pub open spec fn impl_qualified(
    implementation: syn::ItemImpl,
    token: syn::token::Unsafe,
) -> syn::ItemImpl {
    syn::ItemImpl { unsafety: Some(token), ..implementation }
}

/// What qualifying the declaration `item` may come to.
pub open spec fn item_qualifies_to(item: syn::Item, outcome: ExpansionView) -> bool {
    match item {
        syn::Item::Fn(function) => {
            &&& outcome matches ExpansionView::Function(qualified)
            &&& qualified.sig.unsafety matches Some(token)
            &&& qualified == fn_qualified(function, token)
        },
        syn::Item::Impl(implementation) => {
            &&& outcome matches ExpansionView::Implementation(qualified)
            &&& qualified.unsafety matches Some(token)
            &&& qualified == impl_qualified(implementation, token)
        },
        _ => outcome == ExpansionView::Refused(
            DiagnosticView { message: unsupported_text(), origin: Origin::Item(item) },
        ),
    }
}

/// What the expansion of `input` may come to, where `parsed` is what the
/// parser made of it.
pub open spec fn item_expands_to(
    input: TokenStream,
    parsed: Result<syn::Item, syn::Error>,
    outcome: ExpansionView,
) -> bool {
    match parsed {
        Ok(item) => item_qualifies_to(item, outcome),
        Err(error) => outcome == ExpansionView::Refused(
            DiagnosticView {
                message: item_failure_text(error_text(error)),
                origin: Origin::Tokens(input),
            },
        ),
    }
}

/// Sets the qualifier of a function declaration.
pub fn qualify_fn(function: syn::ItemFn, token: syn::token::Unsafe) -> (qualified: syn::ItemFn)
    ensures
        qualified == fn_qualified(function, token),
{
    let mut qualified = function;
    qualified.sig.unsafety = Some(token);
    qualified
}

/// Sets the qualifier of an implementation block.
pub fn qualify_impl(
    implementation: syn::ItemImpl,
    token: syn::token::Unsafe,
) -> (qualified: syn::ItemImpl)
    ensures
        qualified == impl_qualified(implementation, token),
{
    let mut qualified = implementation;
    qualified.unsafety = Some(token);
    qualified
}

/// Qualifies a declaration, or refuses it where it is neither a function
/// nor an implementation block.
pub fn qualify_item(item: syn::Item) -> (outcome: Expansion)
    ensures
        item_qualifies_to(item, outcome@),
{
    match item {
        syn::Item::Fn(function) => Expansion::Function(qualify_fn(function, unsafe_token())),
        syn::Item::Impl(implementation) => {
            Expansion::Implementation(qualify_impl(implementation, unsafe_token()))
        },
        other => {
            let message = unsupported_message();
            Expansion::Refused(Diagnostic::new(message, Origin::Item(other)))
        },
    }
}

/// Decides the expansion of `input` from what the parser made of it.
pub fn item_outcome(
    input: TokenStream,
    parsed: Result<syn::Item, syn::Error>,
) -> (outcome: Expansion)
    ensures
        item_expands_to(input, parsed, outcome@),
{
    match parsed {
        Ok(item) => qualify_item(item),
        Err(error) => {
            let reason = error_message(&error);
            let message = item_failure_message(reason.as_str());
            Expansion::Refused(Diagnostic::new(message, Origin::Tokens(input)))
        },
    }
}

/// Parses `input` as one declaration and qualifies it.
pub fn expand_item(input: TokenStream) -> (outcome: Expansion)
    ensures
        item_expands_to(input, parsed_item(input), outcome@),
{
    let parsed = parse_item(&input);
    item_outcome(input, parsed)
}

/// The attribute: the declaration in `input` with its qualifier set, or the
/// compile error that says why not. The attribute takes no arguments of its
/// own; `_args` is not looked at.
pub fn verified_item(_args: TokenStream, input: TokenStream) -> (output: TokenStream)
    ensures
        exists|outcome: ExpansionView| #[trigger]
            item_expands_to(input, parsed_item(input), outcome) && emitted(outcome, output),
{
    let outcome = expand_item(input);
    let output = outcome.into_tokens();
    assert(item_expands_to(input, parsed_item(input), outcome@) && emitted(outcome@, output));
    output
}

/// Qualifying a function changes its qualifier and nothing else: the
/// attributes, the visibility, every other part of the signature and the
/// body are those of the declaration that came in.
pub proof fn lemma_fn_qualified_flag_only(function: syn::ItemFn, token: syn::token::Unsafe)
    ensures
        fn_qualified(function, token).sig.unsafety == Some(token),
        fn_qualified(function, token).attrs == function.attrs,
        fn_qualified(function, token).vis == function.vis,
        fn_qualified(function, token).block == function.block,
        fn_qualified(function, token).sig.constness == function.sig.constness,
        fn_qualified(function, token).sig.asyncness == function.sig.asyncness,
        fn_qualified(function, token).sig.abi == function.sig.abi,
        fn_qualified(function, token).sig.fn_token == function.sig.fn_token,
        fn_qualified(function, token).sig.ident == function.sig.ident,
        fn_qualified(function, token).sig.generics == function.sig.generics,
        fn_qualified(function, token).sig.paren_token == function.sig.paren_token,
        fn_qualified(function, token).sig.inputs == function.sig.inputs,
        fn_qualified(function, token).sig.variadic == function.sig.variadic,
        fn_qualified(function, token).sig.output == function.sig.output,
{
}

/// Qualifying an implementation block changes its qualifier and nothing
/// else: the header and every member are those of the block that came in.
pub proof fn lemma_impl_qualified_flag_only(
    implementation: syn::ItemImpl,
    token: syn::token::Unsafe,
)
    ensures
        impl_qualified(implementation, token).unsafety == Some(token),
        impl_qualified(implementation, token).attrs == implementation.attrs,
        impl_qualified(implementation, token).defaultness == implementation.defaultness,
        impl_qualified(implementation, token).impl_token == implementation.impl_token,
        impl_qualified(implementation, token).generics == implementation.generics,
        impl_qualified(implementation, token).trait_ == implementation.trait_,
        impl_qualified(implementation, token).self_ty == implementation.self_ty,
        impl_qualified(implementation, token).brace_token == implementation.brace_token,
        impl_qualified(implementation, token).items == implementation.items,
{
}

/// For a function declaration, what goes back to the host is that
/// declaration, printed, with its qualifier set and nothing else changed.
pub proof fn lemma_function_expansion(
    function: syn::ItemFn,
    outcome: ExpansionView,
    output: TokenStream,
)
    requires
        item_qualifies_to(syn::Item::Fn(function), outcome),
        emitted(outcome, output),
    ensures
        outcome matches ExpansionView::Function(qualified) && {
            &&& qualified.sig.unsafety matches Some(token)
            &&& qualified == fn_qualified(function, token)
            &&& output == printed_fn(qualified)
        },
{
}

/// For an implementation block, what goes back to the host is that block,
/// printed, with its qualifier set and nothing else changed.
pub proof fn lemma_implementation_expansion(
    implementation: syn::ItemImpl,
    outcome: ExpansionView,
    output: TokenStream,
)
    requires
        item_qualifies_to(syn::Item::Impl(implementation), outcome),
        emitted(outcome, output),
    ensures
        outcome matches ExpansionView::Implementation(qualified) && {
            &&& qualified.unsafety matches Some(token)
            &&& qualified == impl_qualified(implementation, token)
            &&& output == printed_impl(qualified)
        },
{
}

/// Qualifying a function that is qualified already gives what qualifying it
/// once gives: the qualifier is set, and is not there twice.
pub proof fn lemma_fn_qualified_again(
    function: syn::ItemFn,
    first: syn::token::Unsafe,
    second: syn::token::Unsafe,
)
    ensures
        fn_qualified(fn_qualified(function, first), second) == fn_qualified(function, second),
{
}

/// Qualifying an implementation block that is qualified already gives what
/// qualifying it once gives.
pub proof fn lemma_impl_qualified_again(
    implementation: syn::ItemImpl,
    first: syn::token::Unsafe,
    second: syn::token::Unsafe,
)
    ensures
        impl_qualified(impl_qualified(implementation, first), second) == impl_qualified(
            implementation,
            second,
        ),
{
}

/// A declaration that is neither a function nor an implementation block is
/// never handed back, qualified or not: the expansion is a refusal, and the
/// tokens that go to the host raise a compile error whose text says which
/// kinds are supported.
pub proof fn lemma_other_kinds_refused(
    item: syn::Item,
    outcome: ExpansionView,
    output: TokenStream,
)
    requires
        !(item is Fn),
        !(item is Impl),
        item_qualifies_to(item, outcome),
        emitted(outcome, output),
    ensures
        outcome == ExpansionView::Refused(
            DiagnosticView { message: unsupported_text(), origin: Origin::Item(item) },
        ),
        mentions(token_text(output), error_marker()),
        mentions(token_text(output), supported_kinds_phrase()),
{
    lemma_unsupported_text();
    lemma_mentions_within(token_text(output), unsupported_text(), supported_kinds_phrase());
}

} // verus!
