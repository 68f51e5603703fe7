//! A parser for a small bracket-structured text notation.
//!
//! The input is a flat string over which four codepoints are special: `[` and
//! `]` delimit nested sequences, `|` explicitly ends a text run, and `\`
//! escapes any of the four so that it stands for itself. Parsing yields a tree
//! of text runs and sequences, or a position-annotated error.
//!
//! The grammar is fixed:
//!
//! ```text
//! sequence  := node*
//! node      := text_node | '[' ( ']' | sequence ']' )
//! text_node := text_char+
//! text_char := '\' ('\'|'|'|'['|']') | '|' | any codepoint but '[' ']' '|' '\'
//! ```
//!
//! The whole behaviour of the parser is captured by spec-level parse
//! functions over `Seq<char>`; every executable entry point is proved to
//! return exactly what its spec counterpart describes.

pub mod error;
pub mod grammar;
pub mod laws;
pub mod outcome;
pub mod position;
pub mod scanner;
pub mod text;
pub mod tree;

pub use error::Error;
pub use grammar::{parse_one_node, parse_sequential_nodes};
pub use position::Position;
pub use scanner::Character;
pub use tree::{Node, Sequence, Text};
