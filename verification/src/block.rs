//! Wrapping a sequence of statements: the statements are put between
//! braces, read as one block, and the block is put behind the qualifier
//! keyword, whole.

use crate::diagnostic::{reports, Diagnostic, DiagnosticView, Origin};
use crate::expansion::{emitted, Expansion, ExpansionView};
use crate::syntax::{
    error_message, error_text, parse_block, parsed_block, printed_block, render, token_text,
    tokenize, unsafe_token,
};
use crate::text::{
    block_failure_message, block_failure_prefix, block_failure_text, brace_wrap, braced,
    error_marker, is_plain, lemma_fixed_texts_plain, lemma_mentions_parts,
    lemma_mentions_within, lemma_plain_parts, lex_failure_message, lex_failure_text, mentions,
};
use proc_macro2::{LexError, TokenStream};
use vstd::prelude::*;

verus! {

/// `qualified` is `block` behind the qualifier keyword `token`: the block is
/// held whole, and nothing is attached to it.
pub open spec fn block_qualified(
    block: syn::Block,
    token: syn::token::Unsafe,
    qualified: syn::ExprUnsafe,
) -> bool {
    &&& qualified.block == block
    &&& qualified.unsafe_token == token
    &&& qualified.attrs@ == Seq::<syn::Attribute>::empty()
}

/// What the expansion of `input` may come to, where `parsed` is what the
/// parser made of the braced statements.
pub open spec fn block_expands_to(
    input: TokenStream,
    parsed: Result<syn::Block, syn::Error>,
    outcome: ExpansionView,
) -> bool {
    match parsed {
        Ok(block) => {
            &&& outcome matches ExpansionView::Block(qualified)
            &&& block_qualified(block, qualified.unsafe_token, qualified)
        },
        Err(error) => outcome == ExpansionView::Refused(
            DiagnosticView {
                message: block_failure_text(error_text(error)),
                origin: Origin::Tokens(input),
            },
        ),
    }
}

/// What the expansion of `input` may come to, where `lexed` is what the
/// tokenizer made of the braced statements.
pub open spec fn lexed_expands_to(
    input: TokenStream,
    lexed: Result<TokenStream, LexError>,
    outcome: ExpansionView,
) -> bool {
    match lexed {
        Ok(stream) => block_expands_to(input, parsed_block(stream), outcome),
        Err(_) => outcome == ExpansionView::Refused(
            DiagnosticView { message: lex_failure_text(), origin: Origin::Tokens(input) },
        ),
    }
}

/// The text that is handed to the tokenizer: the statements of `input`
/// between braces.
pub fn block_source(input: &TokenStream) -> (source: String)
    ensures
        source@ == braced(token_text(*input)),
{
    let text = render(input);
    brace_wrap(text.as_str())
}

/// Puts a block behind the qualifier keyword.
pub fn qualify_block(block: syn::Block, token: syn::token::Unsafe) -> (qualified: syn::ExprUnsafe)
    ensures
        block_qualified(block, token, qualified),
{
    syn::ExprUnsafe { attrs: Vec::new(), unsafe_token: token, block }
}

/// Decides the expansion of `input` from what the parser made of the braced
/// statements.
pub fn block_outcome(
    input: TokenStream,
    parsed: Result<syn::Block, syn::Error>,
) -> (outcome: Expansion)
    ensures
        block_expands_to(input, parsed, outcome@),
{
    match parsed {
        Ok(block) => Expansion::Block(qualify_block(block, unsafe_token())),
        Err(error) => {
            let reason = error_message(&error);
            let message = block_failure_message(reason.as_str());
            Expansion::Refused(Diagnostic::new(message, Origin::Tokens(input)))
        },
    }
}

/// Decides the expansion of `input` from what the tokenizer made of the
/// braced statements.
pub fn lexed_outcome(
    input: TokenStream,
    lexed: Result<TokenStream, LexError>,
) -> (outcome: Expansion)
    ensures
        lexed_expands_to(input, lexed, outcome@),
{
    match lexed {
        Ok(stream) => {
            let parsed = parse_block(stream);
            block_outcome(input, parsed)
        },
        Err(_) => {
            let message = lex_failure_message();
            Expansion::Refused(Diagnostic::new(message, Origin::Tokens(input)))
        },
    }
}

/// Wraps the statements of `input` in a qualified block. The tokenizer
/// answers for its host, so the contract holds for whatever it returned.
pub fn expand_block(input: TokenStream) -> (outcome: Expansion)
    ensures
        exists|lexed: Result<TokenStream, LexError>| lexed_expands_to(input, lexed, outcome@),
{
    let source = block_source(&input);
    let lexed = tokenize(source.as_str());
    let outcome = lexed_outcome(input, lexed);
    assert(lexed_expands_to(input, lexed, outcome@));
    outcome
}

/// The macro: the statements of `input` in a qualified block, or the
/// compile error that says why not.
pub fn verified(input: TokenStream) -> (output: TokenStream)
    ensures
        exists|lexed: Result<TokenStream, LexError>, outcome: ExpansionView|
            #[trigger] lexed_expands_to(input, lexed, outcome) && emitted(outcome, output),
{
    let outcome = expand_block(input);
    let output = outcome.into_tokens();
    let ghost lexed = choose|lexed: Result<TokenStream, LexError>|
        lexed_expands_to(input, lexed, outcome@);
    assert(lexed_expands_to(input, lexed, outcome@) && emitted(outcome@, output));
    output
}

/// Where the braced statements tokenize and parse, what goes back to the
/// host is the qualifier keyword, then the block that the parser read, and
/// nothing else: no statement is dropped, moved or added on the way.
pub proof fn lemma_wrapping_structure(
    input: TokenStream,
    stream: TokenStream,
    block: syn::Block,
    outcome: ExpansionView,
    output: TokenStream,
)
    requires
        parsed_block(stream) == Ok::<syn::Block, syn::Error>(block),
        lexed_expands_to(input, Ok(stream), outcome),
        emitted(outcome, output),
    ensures
        outcome matches ExpansionView::Block(qualified) && {
            &&& qualified.block == block
            &&& qualified.attrs@ == Seq::<syn::Attribute>::empty()
            &&& output == printed_block(qualified)
        },
{
}

/// Where the braced statements are a block, that block is what stands
/// behind the qualifier keyword: whatever it holds, qualified blocks among
/// it, is neither taken apart nor merged with the new qualifier.
pub proof fn lemma_block_kept_whole(
    input: TokenStream,
    block: syn::Block,
    outcome: ExpansionView,
)
    requires
        block_expands_to(input, Ok(block), outcome),
    ensures
        outcome matches ExpansionView::Block(qualified) && qualified.block == block,
{
}

/// Where the braced statements are no block, the message is the fixed
/// prefix followed by the parser's own words, unchanged, and it is about
/// the input.
pub proof fn lemma_block_failure_keeps_reason(
    input: TokenStream,
    error: syn::Error,
    outcome: ExpansionView,
)
    requires
        block_expands_to(input, Err(error), outcome),
    ensures
        outcome matches ExpansionView::Refused(diagnostic) && {
            &&& diagnostic.origin == Origin::Tokens(input)
            &&& block_failure_prefix().is_prefix_of(diagnostic.message)
            &&& diagnostic.message.skip(block_failure_prefix().len() as int) == error_text(error)
        },
{
    let message = block_failure_text(error_text(error));
    assert(message.skip(block_failure_prefix().len() as int) =~= error_text(error));
}

/// Where the parser's own words are plain characters, the compile error
/// for statements that are no block shows the fixed prefix and those words.
pub proof fn lemma_block_failure_reported(reason: Seq<char>, text: Seq<char>)
    requires
        is_plain(reason),
        reports(text, block_failure_text(reason)),
    ensures
        mentions(text, error_marker()),
        mentions(text, block_failure_prefix()),
        mentions(text, reason),
{
    lemma_fixed_texts_plain();
    lemma_plain_parts(block_failure_prefix(), reason);
    lemma_mentions_parts(block_failure_prefix(), reason);
    lemma_mentions_within(text, block_failure_text(reason), block_failure_prefix());
    lemma_mentions_within(text, block_failure_text(reason), reason);
}

} // verus!
