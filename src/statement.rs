//! Statements of the assembly language: instructions, labels and directives.
use crate::isa::{AddressingMode, Opcode};
use vstd::prelude::*;

verus! {

/// The operand of an instruction.
#[derive(Debug, Clone)]
pub enum Operand {
    No,
    U8(u8),
    U16(u16),
    /// A label, resolved in the second pass of the assembler.
    Label(String),
}

/// An operand as a mathematical value.
pub enum OperandV {
    No,
    U8(u8),
    U16(u16),
    Label(Seq<char>),
}

impl View for Operand {
    type V = OperandV;

    open spec fn view(&self) -> OperandV {
        match self {
            Operand::No => OperandV::No,
            Operand::U8(b) => OperandV::U8(*b),
            Operand::U16(w) => OperandV::U16(*w),
            Operand::Label(l) => OperandV::Label(l@),
        }
    }
}

/// An instruction, nothing else.
#[derive(Debug, Clone)]
pub struct Instruction(pub Opcode, pub AddressingMode, pub Operand);

/// An instruction as a mathematical value.
pub struct InstructionV(pub Opcode, pub AddressingMode, pub OperandV);

impl View for Instruction {
    type V = InstructionV;

    open spec fn view(&self) -> InstructionV {
        InstructionV(self.0, self.1, self.2@)
    }
}

#[derive(Debug, Clone, Copy, PartialEq, Eq, Structural)]
pub enum Directive {
    /// Reserve n bytes.
    Ds(u16),
    /// Emit one byte.
    Db(u8),
    /// Sets the current address; its low 13 bits are the offset into the bank.
    Org(u16),
    /// Switches to a bank (8 KiB units, PRG first, then CHR).
    Bank(u16),
    /// Number of 16 KiB PRG banks.
    Inesprg(u16),
    /// Number of 8 KiB CHR banks.
    Ineschr(u16),
    /// Which mapper to use.
    Inesmap(u16),
    /// Vertical (1) or horizontal (0) mirroring.
    Inesmir(u16),
}

/// A line of the assembly.
#[derive(Debug, Clone)]
pub enum Statement {
    Instruction(Instruction),
    Label(String),
    Directive(Directive),
    Comment(String),
}

/// A statement as a mathematical value.
pub enum StatementV {
    Instruction(InstructionV),
    Label(Seq<char>),
    Directive(Directive),
    Comment(Seq<char>),
}

impl View for Statement {
    type V = StatementV;

    open spec fn view(&self) -> StatementV {
        match self {
            Statement::Instruction(i) => StatementV::Instruction(i@),
            Statement::Label(l) => StatementV::Label(l@),
            Statement::Directive(d) => StatementV::Directive(*d),
            Statement::Comment(c) => StatementV::Comment(c@),
        }
    }
}

/// A statement with its source line.
#[derive(Debug, Clone)]
pub struct DStatement {
    pub statement: Statement,
    pub line: usize,
}

} // verus!
