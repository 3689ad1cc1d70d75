use vstd::prelude::*;

verus! {

/// Why a line could not be turned into a word.
#[derive(Clone, Copy, Debug, PartialEq, Eq, Structural)]
pub enum ErrorKind {
    /// A mnemonic has no entry in the table of its category.
    UnknownMnemonic,
    /// A number, or a data literal, does not parse or does not fit its width.
    MalformedLiteral,
    /// A line has fewer fields than its layout reads.
    OperandCountMismatch,
    /// The input ended before its header, or before the halt opcode.
    UnexpectedEndOfInput,
}

} // verus!
