//! The token stream of a Nix source text.

pub mod compare;
pub mod debug;
pub mod tokens;

pub use self::tokens::{is_well_ordered, CommentKind, StringFragment, Token, TokenKind, Tokens};
