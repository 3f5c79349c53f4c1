//! Errors of the assembler, with the source line they were found on.
use vstd::prelude::*;

verus! {

/// What went wrong.
#[derive(Debug, Clone, Copy, PartialEq, Eq, Structural)]
pub enum ErrorKind {
    /// A character that cannot start or continue a token.
    UnexpectedCharacter,
    /// A number with a digit outside its radix, no digits, or a value above `$FFFF`.
    MalformedNumber,
    /// A token that the grammar does not allow where it stands.
    UnexpectedToken,
    /// A number that must fit in eight bits does not.
    ExpectedU8,
    /// A directive that is not one of the known ones.
    UnknownDirective,
    /// An identifier in mnemonic position that names no mnemonic.
    UnknownMnemonic,
    /// A mnemonic and addressing mode that the instruction set does not pair.
    UnknownCodepoint,
    /// An operand whose size does not fit the addressing mode.
    OperandSizeMismatch,
    /// A label defined twice.
    LabelRedefined,
    /// A label used but never defined.
    UndefinedLabel,
    /// A `.bank` beyond the PRG and CHR banks that the header declares.
    BankOutOfRange,
    /// A byte emitted before `.bank`.
    NoBankSelected,
    /// A byte emitted before both `.inesprg` and `.ineschr`.
    BanksNotAllocated,
    /// `.inesprg` or `.ineschr` given twice.
    HeaderRedefined,
    MissingInesprg,
    MissingIneschr,
    MissingInesmap,
    MissingInesmir,
}

/// An assembly error, on a line of the source (0 where no line applies).
#[derive(Debug, Clone, Copy, PartialEq, Eq, Structural)]
pub struct AsmnesError {
    pub line: usize,
    pub kind: ErrorKind,
}

pub fn err(kind: ErrorKind, line: usize) -> (r: AsmnesError)
    ensures
        r == (AsmnesError { line, kind }),
{
    AsmnesError { line, kind }
}

} // verus!
