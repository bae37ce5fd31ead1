//! Two expansions that mark code as exempt from the compiler's safety
//! checks and leave it otherwise as it was written: `verified` wraps a
//! sequence of statements in a qualified block, and `verified_item` sets
//! the qualifier of a function or an implementation block.
//!
//! Both take tokens and give tokens. What they decide on the way is a value
//! of [`Expansion`]: the qualified syntax tree, or a [`Diagnostic`] that
//! reaches the user as a compile error.

pub mod block;
pub mod diagnostic;
pub mod expansion;
pub mod item;
pub mod syntax;
pub mod text;

pub use block::verified;
pub use diagnostic::{Diagnostic, Origin};
pub use expansion::Expansion;
pub use item::verified_item;
