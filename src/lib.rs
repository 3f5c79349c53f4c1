//! A 6502 assembler for iNES images and an interpreter that runs them.
pub mod flags;
pub mod ines;
pub mod isa;
pub mod machine;
pub mod addressing_modes;
pub mod opcodes;
pub mod cpu;
pub mod error;
pub mod text;
pub mod lexer;
pub mod statement;
pub mod parser;
pub mod assembler;
pub mod disassembler;

pub use assembler::{assemble, logical_assemble};
pub use disassembler::disassemble;
pub use error::{AsmnesError, ErrorKind};
pub use ines::{Ines, InesError, InesParseError};
pub use isa::{opcode_addressing_modes, opcode_iter, AddressingMode, Codepoint, Opcode};
pub use lexer::{lex, DToken, Token};
pub use machine::{AddressSpace, Device, MemoryMap, MemoryRegion, MemoryTarget, PpuState, Range, State};
pub use parser::parse;
pub use statement::{DStatement, Directive, Instruction, Operand, Statement};
