//! What an expansion comes to: the input with its qualifier, or a refusal.

use crate::diagnostic::{reports, Diagnostic, DiagnosticView};
use crate::syntax::{
    print_block, print_fn, print_impl, printed_block, printed_fn, printed_impl, token_text,
};
use vstd::prelude::*;

verus! {

/// The result of one expansion.
pub enum Expansion {
    /// A block behind the qualifier keyword.
    Block(syn::ExprUnsafe),
    /// A function declaration whose qualifier is set.
    Function(syn::ItemFn),
    /// An implementation block whose qualifier is set.
    Implementation(syn::ItemImpl),
    /// The input was refused.
    Refused(Diagnostic),
}

/// An expansion, with the message of a refusal as a sequence of characters.
pub enum ExpansionView {
    Block(syn::ExprUnsafe),
    Function(syn::ItemFn),
    Implementation(syn::ItemImpl),
    Refused(DiagnosticView),
}

impl View for Expansion {
    type V = ExpansionView;

    open spec fn view(&self) -> ExpansionView {
        match *self {
            Expansion::Block(block) => ExpansionView::Block(block),
            Expansion::Function(function) => ExpansionView::Function(function),
            Expansion::Implementation(implementation) => ExpansionView::Implementation(
                implementation,
            ),
            Expansion::Refused(diagnostic) => ExpansionView::Refused(diagnostic@),
        }
    }
}

/// `tokens` is what the host is handed for `expansion`: the printed syntax
/// tree where the input was qualified, and a compile error that carries the
/// message where it was refused.
pub open spec fn emitted(expansion: ExpansionView, tokens: proc_macro2::TokenStream) -> bool {
    match expansion {
        ExpansionView::Block(block) => tokens == printed_block(block),
        ExpansionView::Function(function) => tokens == printed_fn(function),
        ExpansionView::Implementation(implementation) => tokens == printed_impl(implementation),
        ExpansionView::Refused(diagnostic) => reports(token_text(tokens), diagnostic.message),
    }
}

impl Expansion {
    /// The tokens to hand back to the host.
    pub fn into_tokens(self) -> (tokens: proc_macro2::TokenStream)
        ensures
            emitted(self@, tokens),
    {
        match self {
            Expansion::Block(block) => print_block(&block),
            Expansion::Function(function) => print_fn(&function),
            Expansion::Implementation(implementation) => print_impl(&implementation),
            Expansion::Refused(diagnostic) => diagnostic.into_compile_error(),
        }
    }
}

} // verus!
