//! An assembler for a small register machine: it turns comma-separated mnemonic lines into
//! 32-bit instruction and data words, and a lexer for a small expression language.
use vstd::prelude::*;

pub mod assembler;
pub mod encoder;
pub mod error;
pub mod hex;
pub mod lexeme;
pub mod lexer;
pub mod tables;
pub mod text;
pub mod word;

pub use assembler::{assemble, process_line, Assembly, Emitted, LineError, Mode};
pub use error::ErrorKind;
pub use lexeme::{Lexeme, LexemeKind};
pub use lexer::Lexer;
pub use word::pack4x8to32;

verus! {

} // verus!
