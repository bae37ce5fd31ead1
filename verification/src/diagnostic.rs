//! Diagnostics: what the library says when it refuses an input, and where in
//! the source the message belongs.

use crate::syntax::{error_text, error_tokens, new_spanned, print_item, token_text};
use crate::text::{error_marker, is_plain, mentions};
use vstd::prelude::*;

verus! {

/// The source that a diagnostic points at.
pub enum Origin {
    /// The tokens handed to the expansion.
    Tokens(proc_macro2::TokenStream),
    /// A declaration that was parsed and then refused.
    Item(syn::Item),
}

/// A refusal: a message, and the source that it is about.
pub struct Diagnostic {
    pub message: String,
    pub origin: Origin,
}

/// A diagnostic with its message as a sequence of characters.
pub struct DiagnosticView {
    pub message: Seq<char>,
    pub origin: Origin,
}

impl View for Diagnostic {
    type V = DiagnosticView;

    open spec fn view(&self) -> DiagnosticView {
        DiagnosticView { message: self.message@, origin: self.origin }
    }
}

/// `text` is what a diagnostic with `message` may look like once it is put
/// into tokens: it names the macro that raises a compile error, and it shows
/// a message of plain characters as it is.
pub open spec fn reports(text: Seq<char>, message: Seq<char>) -> bool {
    &&& mentions(text, error_marker())
    &&& is_plain(message) ==> mentions(text, message)
}

impl Diagnostic {
    /// A diagnostic that says `message` about `origin`.
    pub fn new(message: String, origin: Origin) -> (diagnostic: Diagnostic)
        ensures
            diagnostic@ == (DiagnosticView { message: message@, origin }),
    {
        Diagnostic { message, origin }
    }

    /// The tokens that make the compiler report this diagnostic at its
    /// origin. The place is carried by the tokens and shows in no text, so
    /// the contract speaks of the message only.
    pub fn into_compile_error(self) -> (tokens: proc_macro2::TokenStream)
        ensures
            reports(token_text(tokens), self@.message),
    {
        let site = match self.origin {
            Origin::Tokens(tokens) => tokens,
            Origin::Item(item) => print_item(&item),
        };
        let error = new_spanned(site, self.message.as_str());
        error_tokens(&error)
    }
}

} // verus!
