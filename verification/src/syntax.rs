//! The syntax tree and the token streams that the library works on.
//!
//! The parser, the printer and the tokenizer belong to `syn`, `quote` and
//! `proc_macro2`. This module declares their types, gives names to what
//! they compute, and holds the calls into them.
//!
//! The types that the library looks into or builds (a declaration, a
//! function, its signature, an implementation block, a qualified block)
//! are declared with the variants and fields that `syn` gives them; every
//! other type is carried as it is. A token stream or a syntax tree holds
//! places in the source that no text stands for, so the names take and give
//! the values themselves; only `token_text` and `error_text` give plain
//! text.
//!
//! Nothing stated here is proved: the contracts of this module are what the
//! rest of the library assumes of those crates.

use crate::text::{error_marker, is_plain, mentions};
use vstd::prelude::*;

verus! {

/// `proc_macro2::TokenStream`, a sequence of token trees, carried as it is.
#[verifier::external_type_specification]
#[verifier::external_body]
pub struct ExTokenStream(proc_macro2::TokenStream);

/// `proc_macro2::LexError`, the failure of the tokenizer, carried as it is.
#[verifier::external_type_specification]
#[verifier::external_body]
pub struct ExLexError(proc_macro2::LexError);

/// `syn::Error`, the failure of the parser, carried as it is.
#[verifier::external_type_specification]
#[verifier::external_body]
pub struct ExError(syn::Error);

/// `syn::Item`, a declaration, with its variants as `syn` defines them.
#[verifier::external_type_specification]
pub struct ExItem(syn::Item);

/// `syn::ItemFn`, a function declaration, with its fields as `syn` defines
/// them.
#[verifier::external_type_specification]
pub struct ExItemFn(syn::ItemFn);

/// `syn::Signature`, the header of a function, with its fields as `syn`
/// defines them.
#[verifier::external_type_specification]
pub struct ExSignature(syn::Signature);

/// `syn::ItemImpl`, an implementation block, with its fields as `syn` defines
/// them.
#[verifier::external_type_specification]
pub struct ExItemImpl(syn::ItemImpl);

/// `syn::ExprUnsafe`, a qualified block, with its fields as `syn` defines
/// them.
#[verifier::external_type_specification]
pub struct ExExprUnsafe(syn::ExprUnsafe);

/// `syn::Block`, a braced sequence of statements, carried as it is.
#[verifier::external_type_specification]
#[verifier::external_body]
pub struct ExBlock(syn::Block);

/// `syn::Attribute`, carried as it is.
#[verifier::external_type_specification]
#[verifier::external_body]
pub struct ExAttribute(syn::Attribute);

/// `syn::Visibility`, carried as it is.
#[verifier::external_type_specification]
#[verifier::external_body]
pub struct ExVisibility(syn::Visibility);

/// `syn::Abi`, carried as it is.
#[verifier::external_type_specification]
#[verifier::external_body]
pub struct ExAbi(syn::Abi);

/// `syn::Generics`, carried as it is.
#[verifier::external_type_specification]
#[verifier::external_body]
pub struct ExGenerics(syn::Generics);

/// `syn::FnArg`, a parameter of a function, carried as it is.
#[verifier::external_type_specification]
#[verifier::external_body]
pub struct ExFnArg(syn::FnArg);

/// `syn::Variadic`, carried as it is.
#[verifier::external_type_specification]
#[verifier::external_body]
pub struct ExVariadic(syn::Variadic);

/// `syn::ReturnType`, carried as it is.
#[verifier::external_type_specification]
#[verifier::external_body]
pub struct ExReturnType(syn::ReturnType);

/// `syn::Path`, carried as it is.
#[verifier::external_type_specification]
#[verifier::external_body]
pub struct ExPath(syn::Path);

/// `syn::Type`, carried as it is.
#[verifier::external_type_specification]
#[verifier::external_body]
pub struct ExType(syn::Type);

/// `syn::ImplItem`, a member of an implementation block, carried as it is.
#[verifier::external_type_specification]
#[verifier::external_body]
pub struct ExImplItem(syn::ImplItem);

/// `proc_macro2::Ident`, carried as it is.
#[verifier::external_type_specification]
#[verifier::external_body]
pub struct ExIdent(proc_macro2::Ident);

/// `syn::punctuated::Punctuated`, a separated list, carried as it is.
#[verifier::external_type_specification]
#[verifier::external_body]
#[verifier::reject_recursive_types(T)]
#[verifier::reject_recursive_types(P)]
pub struct ExPunctuated<T, P>(syn::punctuated::Punctuated<T, P>);

/// `syn::token::Unsafe`, the qualifier keyword, carried as it is.
#[verifier::external_type_specification]
#[verifier::external_body]
pub struct ExUnsafe(syn::token::Unsafe);

/// `syn::token::Const`, carried as it is.
#[verifier::external_type_specification]
#[verifier::external_body]
pub struct ExConst(syn::token::Const);

/// `syn::token::Async`, carried as it is.
#[verifier::external_type_specification]
#[verifier::external_body]
pub struct ExAsync(syn::token::Async);

/// `syn::token::Fn`, carried as it is.
#[verifier::external_type_specification]
#[verifier::external_body]
pub struct ExFn(syn::token::Fn);

/// `syn::token::Paren`, carried as it is.
#[verifier::external_type_specification]
#[verifier::external_body]
pub struct ExParen(syn::token::Paren);

/// `syn::token::Comma`, carried as it is.
#[verifier::external_type_specification]
#[verifier::external_body]
pub struct ExComma(syn::token::Comma);

/// `syn::token::Default`, carried as it is.
#[verifier::external_type_specification]
#[verifier::external_body]
pub struct ExDefault(syn::token::Default);

/// `syn::token::Impl`, carried as it is.
#[verifier::external_type_specification]
#[verifier::external_body]
pub struct ExImpl(syn::token::Impl);

/// `syn::token::Not`, carried as it is.
#[verifier::external_type_specification]
#[verifier::external_body]
pub struct ExNot(syn::token::Not);

/// `syn::token::For`, carried as it is.
#[verifier::external_type_specification]
#[verifier::external_body]
pub struct ExFor(syn::token::For);

/// `syn::token::Brace`, carried as it is.
#[verifier::external_type_specification]
#[verifier::external_body]
pub struct ExBrace(syn::token::Brace);

/// `syn::ItemConst`, carried as it is.
#[verifier::external_type_specification]
#[verifier::external_body]
pub struct ExItemConst(syn::ItemConst);

/// `syn::ItemEnum`, carried as it is.
#[verifier::external_type_specification]
#[verifier::external_body]
pub struct ExItemEnum(syn::ItemEnum);

/// `syn::ItemExternCrate`, carried as it is.
#[verifier::external_type_specification]
#[verifier::external_body]
pub struct ExItemExternCrate(syn::ItemExternCrate);

/// `syn::ItemForeignMod`, carried as it is.
#[verifier::external_type_specification]
#[verifier::external_body]
pub struct ExItemForeignMod(syn::ItemForeignMod);

/// `syn::ItemMacro`, carried as it is.
#[verifier::external_type_specification]
#[verifier::external_body]
pub struct ExItemMacro(syn::ItemMacro);

/// `syn::ItemMod`, carried as it is.
#[verifier::external_type_specification]
#[verifier::external_body]
pub struct ExItemMod(syn::ItemMod);

/// `syn::ItemStatic`, carried as it is.
#[verifier::external_type_specification]
#[verifier::external_body]
pub struct ExItemStatic(syn::ItemStatic);

/// `syn::ItemStruct`, carried as it is.
#[verifier::external_type_specification]
#[verifier::external_body]
pub struct ExItemStruct(syn::ItemStruct);

/// `syn::ItemTrait`, carried as it is.
#[verifier::external_type_specification]
#[verifier::external_body]
pub struct ExItemTrait(syn::ItemTrait);

/// `syn::ItemTraitAlias`, carried as it is.
#[verifier::external_type_specification]
#[verifier::external_body]
pub struct ExItemTraitAlias(syn::ItemTraitAlias);

/// `syn::ItemType`, carried as it is.
#[verifier::external_type_specification]
#[verifier::external_body]
pub struct ExItemType(syn::ItemType);

/// `syn::ItemUnion`, carried as it is.
#[verifier::external_type_specification]
#[verifier::external_body]
pub struct ExItemUnion(syn::ItemUnion);

/// `syn::ItemUse`, carried as it is.
#[verifier::external_type_specification]
#[verifier::external_body]
pub struct ExItemUse(syn::ItemUse);

/// The text of a token stream: what `Display` writes for it.
pub uninterp spec fn token_text(tokens: proc_macro2::TokenStream) -> Seq<char>;

/// The message of a parser failure: what `Display` writes for it.
pub uninterp spec fn error_text(error: syn::Error) -> Seq<char>;

/// What `syn::parse2::<syn::Block>` returns for a token stream.
pub uninterp spec fn parsed_block(tokens: proc_macro2::TokenStream) -> Result<
    syn::Block,
    syn::Error,
>;

/// What `syn::parse2::<syn::Item>` returns for a token stream.
pub uninterp spec fn parsed_item(tokens: proc_macro2::TokenStream) -> Result<syn::Item, syn::Error>;

/// The tokens that `quote::ToTokens` prints for a qualified block.
pub uninterp spec fn printed_block(block: syn::ExprUnsafe) -> proc_macro2::TokenStream;

/// The tokens that `quote::ToTokens` prints for a function declaration.
pub uninterp spec fn printed_fn(function: syn::ItemFn) -> proc_macro2::TokenStream;

/// The tokens that `quote::ToTokens` prints for an implementation block.
pub uninterp spec fn printed_impl(implementation: syn::ItemImpl) -> proc_macro2::TokenStream;

/// `<proc_macro2::TokenStream as Display>`, through `to_string`: the text of
/// the stream.
#[verifier::external_body]
pub(crate) fn render(tokens: &proc_macro2::TokenStream) -> (text: String)
    ensures
        text@ == token_text(*tokens),
{
    tokens.to_string()
}

/// `<proc_macro2::TokenStream as FromStr>::from_str`: breaks a text into
/// tokens, or fails. Which tokens come back depends on whether a compiler
/// hosts the call, so nothing is claimed of them.
#[verifier::external_body]
pub(crate) fn tokenize(text: &str) -> (lexed: Result<
    proc_macro2::TokenStream,
    proc_macro2::LexError,
>) {
    <proc_macro2::TokenStream as std::str::FromStr>::from_str(text)
}

/// `syn::parse2::<syn::Block>`: parses the whole stream as one braced block,
/// or fails.
#[verifier::external_body]
pub(crate) fn parse_block(tokens: proc_macro2::TokenStream) -> (parsed: Result<
    syn::Block,
    syn::Error,
>)
    ensures
        parsed == parsed_block(tokens),
{
    syn::parse2::<syn::Block>(tokens)
}

/// `syn::parse2::<syn::Item>`, on a copy of the stream: parses the whole
/// stream as one declaration, or fails.
#[verifier::external_body]
pub(crate) fn parse_item(tokens: &proc_macro2::TokenStream) -> (parsed: Result<
    syn::Item,
    syn::Error,
>)
    ensures
        parsed == parsed_item(*tokens),
{
    syn::parse2::<syn::Item>(tokens.clone())
}

/// `<syn::Error as Display>`, through `to_string`: the message of the
/// failure.
#[verifier::external_body]
pub(crate) fn error_message(error: &syn::Error) -> (message: String)
    ensures
        message@ == error_text(*error),
{
    error.to_string()
}

/// `<syn::token::Unsafe as Default>::default`: the qualifier keyword, placed
/// at the call site of the running expansion. Nothing is claimed of it.
#[verifier::external_body]
pub(crate) fn unsafe_token() -> (token: syn::token::Unsafe) {
    <syn::token::Unsafe as std::default::Default>::default()
}

/// `syn::Error::new_spanned`: a failure that points at `tokens` and whose
/// message is `message`. The contract speaks of the message only.
#[verifier::external_body]
pub(crate) fn new_spanned(tokens: proc_macro2::TokenStream, message: &str) -> (error: syn::Error)
    ensures
        error_text(error) == message@,
{
    syn::Error::new_spanned(tokens, message)
}

/// `syn::Error::to_compile_error`: an invocation of `compile_error!` whose
/// argument is the message as a string literal. The text of the result
/// names the macro, and shows a message of plain characters as it is.
#[verifier::external_body]
pub(crate) fn error_tokens(error: &syn::Error) -> (tokens: proc_macro2::TokenStream)
    ensures
        mentions(token_text(tokens), error_marker()),
        is_plain(error_text(*error)) ==> mentions(token_text(tokens), error_text(*error)),
{
    error.to_compile_error()
}

/// `<syn::ExprUnsafe as quote::ToTokens>::to_token_stream`: the tokens of a
/// qualified block.
#[verifier::external_body]
pub(crate) fn print_block(block: &syn::ExprUnsafe) -> (tokens: proc_macro2::TokenStream)
    ensures
        tokens == printed_block(*block),
{
    quote::ToTokens::to_token_stream(block)
}

/// `<syn::ItemFn as quote::ToTokens>::to_token_stream`: the tokens of a
/// function declaration.
#[verifier::external_body]
pub(crate) fn print_fn(function: &syn::ItemFn) -> (tokens: proc_macro2::TokenStream)
    ensures
        tokens == printed_fn(*function),
{
    quote::ToTokens::to_token_stream(function)
}

/// `<syn::ItemImpl as quote::ToTokens>::to_token_stream`: the tokens of an
/// implementation block.
#[verifier::external_body]
pub(crate) fn print_impl(implementation: &syn::ItemImpl) -> (tokens: proc_macro2::TokenStream)
    ensures
        tokens == printed_impl(*implementation),
{
    quote::ToTokens::to_token_stream(implementation)
}

/// `<syn::Item as quote::ToTokens>::to_token_stream`: the tokens of a
/// declaration of any kind. Nothing is claimed of them.
#[verifier::external_body]
pub(crate) fn print_item(item: &syn::Item) -> (tokens: proc_macro2::TokenStream) {
    quote::ToTokens::to_token_stream(item)
}

} // verus!
