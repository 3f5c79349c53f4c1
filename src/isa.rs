//! The instruction set: all 256 opcode bytes as (mnemonic, addressing mode) pairs.
use vstd::prelude::*;

verus! {

/// How an instruction finds its operand.
#[allow(non_camel_case_types)]
#[derive(Debug, PartialEq, Eq, Structural, Clone, Copy)]
pub enum AddressingMode {
    /// No operand.
    IMPL,
    /// The accumulator: `A`.
    A,
    /// `#$FF`
    IMM,
    /// A signed branch offset: `$FF`.
    REL,
    /// `$LOHI`
    ABS,
    /// `$LOHI,X`
    ABS_X,
    /// `$LOHI,Y`
    ABS_Y,
    /// `($LOHI)`
    IND,
    /// `($LO,X)`
    X_IND,
    /// `($LO),Y`
    IND_Y,
    /// `$LO`
    ZPG,
    /// `$LO,X`
    ZPG_X,
    /// `$LO,Y`
    ZPG_Y,
    /// The slot of a byte that halts the processor.
    J,
}

/// Every mnemonic of the table, the documented illegal ones included.
#[allow(non_camel_case_types)]
#[derive(Debug, PartialEq, Eq, Structural, Clone, Copy)]
pub enum Opcode {
    /// Add with carry
    ADC,
    /// Logical And
    AND,
    /// Arithmatic Shift Left
    ASL,
    /// Branch on Carry Clear
    BCC,
    /// Branch on Carry Set
    BCS,
    /// Branch on Equals
    BEQ,
    /// Test Bits
    BIT,
    /// Branch on Minus
    BMI,
    /// Branch on Not Equals
    BNE,
    /// Branch on Plus
    BPL,
    /// Break
    BRK,
    /// Branch on Overflow Clear
    BVC,
    /// Branch on Overflow Set
    BVS,
    /// Clear Carry
    CLC,
    /// Clear Decimal Mode
    CLD,
    /// Clear Interrupt Disable
    CLI,
    /// Clear Overflow
    CLV,
    /// Compare with accumulator
    CMP,
    /// Compare with X
    CPX,
    /// Compare with Y
    CPY,
    /// Decrement memory by one
    DEC,
    /// Decrement X by one
    DEX,
    /// Decrement Y by one
    DEY,
    /// Exclusive-OR with accumulator
    EOR,
    /// Increment memory by one
    INC,
    /// Increment X by one
    INX,
    /// Increment Y oy one
    INY,
    /// Jump
    JMP,
    /// Jump and save return address on the stack
    JSR,
    /// Load Accumulator
    LDA,
    /// Load X
    LDX,
    /// Load Y
    LDY,
    /// Shift one bit right
    LSR,
    /// No Operation
    NOP,
    /// Or memory with Accumulator
    ORA,
    /// Push Accumulator on the stack
    PHA,
    /// Push Status register to the stack
    PHP,
    /// Pull Accumulator from stack
    PLA,
    /// Pull Status register from the stack
    PLP,
    /// Rotate left
    ROL,
    /// Rotate right
    ROR,
    /// Return from Interrupt
    RTI,
    /// Return from Subroutine
    RTS,
    /// Subtract from Accumulator with borrow (inverted carry)
    SBC,
    /// Set Carry
    SEC,
    /// Set Decimal
    SED,
    /// Set Interrupt Disable
    SEI,
    /// Store Accumulator
    STA,
    /// Store X
    STX,
    /// Store Y
    STY,
    /// Transfer A to X
    TAX,
    /// Transfer A to Y
    TAY,
    /// Transfer Stack Pointer to X
    TSX,
    /// Transfer X to A
    TXA,
    /// Transfer X to Stack pointer
    TXS,
    /// Transfer Y to A
    TYA,
    /// Illegal opcodes
    ALR,
    ANC,
    ANE,
    ARR,
    DCP,
    ISC,
    LAS,
    LAX,
    LXA,
    RLA,
    RRA,
    SAX,
    SBX,
    SHA,
    SHX,
    SHY,
    SLO,
    SRE,
    TAS,
    USB,
    JAM,
}

/// An instruction without its operand.
#[derive(Debug, PartialEq, Eq, Structural, Clone, Copy)]
pub struct Codepoint {
    pub opcode: Opcode,
    pub addressing_mode: AddressingMode,
}

pub open spec fn cp(opcode: Opcode, addressing_mode: AddressingMode) -> Codepoint {
    Codepoint { opcode, addressing_mode }
}

/// The table: what each opcode byte means.
pub open spec fn codepoint_of(byte: u8) -> Codepoint {
    match byte {
        0x00 => cp(Opcode::BRK, AddressingMode::IMPL),
        0x01 => cp(Opcode::ORA, AddressingMode::X_IND),
        0x02 => cp(Opcode::JAM, AddressingMode::J),
        0x03 => cp(Opcode::SLO, AddressingMode::X_IND),
        0x04 => cp(Opcode::NOP, AddressingMode::ZPG),
        0x05 => cp(Opcode::ORA, AddressingMode::ZPG),
        0x06 => cp(Opcode::ASL, AddressingMode::ZPG),
        0x07 => cp(Opcode::SLO, AddressingMode::ZPG),
        0x08 => cp(Opcode::PHP, AddressingMode::IMPL),
        0x09 => cp(Opcode::ORA, AddressingMode::IMM),
        0x0A => cp(Opcode::ASL, AddressingMode::A),
        0x0B => cp(Opcode::ANC, AddressingMode::IMM),
        0x0C => cp(Opcode::NOP, AddressingMode::ABS),
        0x0D => cp(Opcode::ORA, AddressingMode::ABS),
        0x0E => cp(Opcode::ASL, AddressingMode::ABS),
        0x0F => cp(Opcode::SLO, AddressingMode::ABS),
        0x10 => cp(Opcode::BPL, AddressingMode::REL),
        0x11 => cp(Opcode::ORA, AddressingMode::IND_Y),
        0x12 => cp(Opcode::JAM, AddressingMode::J),
        0x13 => cp(Opcode::SLO, AddressingMode::IND_Y),
        0x14 => cp(Opcode::NOP, AddressingMode::ZPG_X),
        0x15 => cp(Opcode::ORA, AddressingMode::ZPG_X),
        0x16 => cp(Opcode::ASL, AddressingMode::ZPG_X),
        0x17 => cp(Opcode::SLO, AddressingMode::ZPG_X),
        0x18 => cp(Opcode::CLC, AddressingMode::IMPL),
        0x19 => cp(Opcode::ORA, AddressingMode::ABS_Y),
        0x1A => cp(Opcode::NOP, AddressingMode::IMPL),
        0x1B => cp(Opcode::SLO, AddressingMode::ABS_Y),
        0x1C => cp(Opcode::NOP, AddressingMode::ABS_X),
        0x1D => cp(Opcode::ORA, AddressingMode::ABS_X),
        0x1E => cp(Opcode::ASL, AddressingMode::ABS_X),
        0x1F => cp(Opcode::SLO, AddressingMode::ABS_X),
        0x20 => cp(Opcode::JSR, AddressingMode::ABS),
        0x21 => cp(Opcode::AND, AddressingMode::X_IND),
        0x22 => cp(Opcode::JAM, AddressingMode::J),
        0x23 => cp(Opcode::RLA, AddressingMode::X_IND),
        0x24 => cp(Opcode::BIT, AddressingMode::ZPG),
        0x25 => cp(Opcode::AND, AddressingMode::ZPG),
        0x26 => cp(Opcode::ROL, AddressingMode::ZPG),
        0x27 => cp(Opcode::RLA, AddressingMode::ZPG),
        0x28 => cp(Opcode::PLP, AddressingMode::IMPL),
        0x29 => cp(Opcode::AND, AddressingMode::IMM),
        0x2A => cp(Opcode::ROL, AddressingMode::A),
        0x2B => cp(Opcode::ANC, AddressingMode::IMM),
        0x2C => cp(Opcode::BIT, AddressingMode::ABS),
        0x2D => cp(Opcode::AND, AddressingMode::ABS),
        0x2E => cp(Opcode::ROL, AddressingMode::ABS),
        0x2F => cp(Opcode::RLA, AddressingMode::ABS),
        0x30 => cp(Opcode::BMI, AddressingMode::REL),
        0x31 => cp(Opcode::AND, AddressingMode::IND_Y),
        0x32 => cp(Opcode::JAM, AddressingMode::J),
        0x33 => cp(Opcode::RLA, AddressingMode::IND_Y),
        0x34 => cp(Opcode::NOP, AddressingMode::ZPG_X),
        0x35 => cp(Opcode::AND, AddressingMode::ZPG_X),
        0x36 => cp(Opcode::ROL, AddressingMode::ZPG_X),
        0x37 => cp(Opcode::RLA, AddressingMode::ZPG_X),
        0x38 => cp(Opcode::SEC, AddressingMode::IMPL),
        0x39 => cp(Opcode::AND, AddressingMode::ABS_Y),
        0x3A => cp(Opcode::NOP, AddressingMode::IMPL),
        0x3B => cp(Opcode::RLA, AddressingMode::ABS_Y),
        0x3C => cp(Opcode::NOP, AddressingMode::ABS_X),
        0x3D => cp(Opcode::AND, AddressingMode::ABS_X),
        0x3E => cp(Opcode::ROL, AddressingMode::ABS_X),
        0x3F => cp(Opcode::RLA, AddressingMode::ABS_X),
        0x40 => cp(Opcode::RTI, AddressingMode::IMPL),
        0x41 => cp(Opcode::EOR, AddressingMode::X_IND),
        0x42 => cp(Opcode::JAM, AddressingMode::J),
        0x43 => cp(Opcode::SRE, AddressingMode::X_IND),
        0x44 => cp(Opcode::NOP, AddressingMode::ZPG),
        0x45 => cp(Opcode::EOR, AddressingMode::ZPG),
        0x46 => cp(Opcode::LSR, AddressingMode::ZPG),
        0x47 => cp(Opcode::SRE, AddressingMode::ZPG),
        0x48 => cp(Opcode::PHA, AddressingMode::IMPL),
        0x49 => cp(Opcode::EOR, AddressingMode::IMM),
        0x4A => cp(Opcode::LSR, AddressingMode::A),
        0x4B => cp(Opcode::ALR, AddressingMode::IMM),
        0x4C => cp(Opcode::JMP, AddressingMode::ABS),
        0x4D => cp(Opcode::EOR, AddressingMode::ABS),
        0x4E => cp(Opcode::LSR, AddressingMode::ABS),
        0x4F => cp(Opcode::SRE, AddressingMode::ABS),
        0x50 => cp(Opcode::BVC, AddressingMode::REL),
        0x51 => cp(Opcode::EOR, AddressingMode::IND_Y),
        0x52 => cp(Opcode::JAM, AddressingMode::J),
        0x53 => cp(Opcode::SRE, AddressingMode::IND_Y),
        0x54 => cp(Opcode::NOP, AddressingMode::ZPG_X),
        0x55 => cp(Opcode::EOR, AddressingMode::ZPG_X),
        0x56 => cp(Opcode::LSR, AddressingMode::ZPG_X),
        0x57 => cp(Opcode::SRE, AddressingMode::ZPG_X),
        0x58 => cp(Opcode::CLI, AddressingMode::IMPL),
        0x59 => cp(Opcode::EOR, AddressingMode::ABS_Y),
        0x5A => cp(Opcode::NOP, AddressingMode::IMPL),
        0x5B => cp(Opcode::SRE, AddressingMode::ABS_Y),
        0x5C => cp(Opcode::NOP, AddressingMode::ABS_X),
        0x5D => cp(Opcode::EOR, AddressingMode::ABS_X),
        0x5E => cp(Opcode::LSR, AddressingMode::ABS_X),
        0x5F => cp(Opcode::SRE, AddressingMode::ABS_X),
        0x60 => cp(Opcode::RTS, AddressingMode::IMPL),
        0x61 => cp(Opcode::ADC, AddressingMode::X_IND),
        0x62 => cp(Opcode::JAM, AddressingMode::J),
        0x63 => cp(Opcode::RRA, AddressingMode::X_IND),
        0x64 => cp(Opcode::NOP, AddressingMode::ZPG),
        0x65 => cp(Opcode::ADC, AddressingMode::ZPG),
        0x66 => cp(Opcode::ROR, AddressingMode::ZPG),
        0x67 => cp(Opcode::RRA, AddressingMode::ZPG),
        0x68 => cp(Opcode::PLA, AddressingMode::IMPL),
        0x69 => cp(Opcode::ADC, AddressingMode::IMM),
        0x6A => cp(Opcode::ROR, AddressingMode::A),
        0x6B => cp(Opcode::ARR, AddressingMode::IMM),
        0x6C => cp(Opcode::JMP, AddressingMode::IND),
        0x6D => cp(Opcode::ADC, AddressingMode::ABS),
        0x6E => cp(Opcode::ROR, AddressingMode::ABS),
        0x6F => cp(Opcode::RRA, AddressingMode::ABS),
        0x70 => cp(Opcode::BVS, AddressingMode::REL),
        0x71 => cp(Opcode::ADC, AddressingMode::IND_Y),
        0x72 => cp(Opcode::JAM, AddressingMode::J),
        0x73 => cp(Opcode::RRA, AddressingMode::IND_Y),
        0x74 => cp(Opcode::NOP, AddressingMode::ZPG_X),
        0x75 => cp(Opcode::ADC, AddressingMode::ZPG_X),
        0x76 => cp(Opcode::ROR, AddressingMode::ZPG_X),
        0x77 => cp(Opcode::RRA, AddressingMode::ZPG_X),
        0x78 => cp(Opcode::SEI, AddressingMode::IMPL),
        0x79 => cp(Opcode::ADC, AddressingMode::ABS_Y),
        0x7A => cp(Opcode::NOP, AddressingMode::IMPL),
        0x7B => cp(Opcode::RRA, AddressingMode::ABS_Y),
        0x7C => cp(Opcode::NOP, AddressingMode::ABS_X),
        0x7D => cp(Opcode::ADC, AddressingMode::ABS_X),
        0x7E => cp(Opcode::ROR, AddressingMode::ABS_X),
        0x7F => cp(Opcode::RRA, AddressingMode::ABS_X),
        0x80 => cp(Opcode::NOP, AddressingMode::IMM),
        0x81 => cp(Opcode::STA, AddressingMode::X_IND),
        0x82 => cp(Opcode::NOP, AddressingMode::IMM),
        0x83 => cp(Opcode::SAX, AddressingMode::X_IND),
        0x84 => cp(Opcode::STY, AddressingMode::ZPG),
        0x85 => cp(Opcode::STA, AddressingMode::ZPG),
        0x86 => cp(Opcode::STX, AddressingMode::ZPG),
        0x87 => cp(Opcode::SAX, AddressingMode::ZPG),
        0x88 => cp(Opcode::DEY, AddressingMode::IMPL),
        0x89 => cp(Opcode::NOP, AddressingMode::IMM),
        0x8A => cp(Opcode::TXA, AddressingMode::IMPL),
        0x8B => cp(Opcode::ANE, AddressingMode::IMM),
        0x8C => cp(Opcode::STY, AddressingMode::ABS),
        0x8D => cp(Opcode::STA, AddressingMode::ABS),
        0x8E => cp(Opcode::STX, AddressingMode::ABS),
        0x8F => cp(Opcode::SAX, AddressingMode::ABS),
        0x90 => cp(Opcode::BCC, AddressingMode::REL),
        0x91 => cp(Opcode::STA, AddressingMode::IND_Y),
        0x92 => cp(Opcode::JAM, AddressingMode::J),
        0x93 => cp(Opcode::SHA, AddressingMode::IND_Y),
        0x94 => cp(Opcode::STY, AddressingMode::ZPG_X),
        0x95 => cp(Opcode::STA, AddressingMode::ZPG_X),
        0x96 => cp(Opcode::STX, AddressingMode::ZPG_Y),
        0x97 => cp(Opcode::SAX, AddressingMode::ZPG_Y),
        0x98 => cp(Opcode::TYA, AddressingMode::IMPL),
        0x99 => cp(Opcode::STA, AddressingMode::ABS_Y),
        0x9A => cp(Opcode::TXS, AddressingMode::IMPL),
        0x9B => cp(Opcode::TAS, AddressingMode::ABS_Y),
        0x9C => cp(Opcode::SHY, AddressingMode::ABS_X),
        0x9D => cp(Opcode::STA, AddressingMode::ABS_X),
        0x9E => cp(Opcode::SHX, AddressingMode::ABS_Y),
        0x9F => cp(Opcode::SHA, AddressingMode::ABS_Y),
        0xA0 => cp(Opcode::LDY, AddressingMode::IMM),
        0xA1 => cp(Opcode::LDA, AddressingMode::X_IND),
        0xA2 => cp(Opcode::LDX, AddressingMode::IMM),
        0xA3 => cp(Opcode::LAX, AddressingMode::X_IND),
        0xA4 => cp(Opcode::LDY, AddressingMode::ZPG),
        0xA5 => cp(Opcode::LDA, AddressingMode::ZPG),
        0xA6 => cp(Opcode::LDX, AddressingMode::ZPG),
        0xA7 => cp(Opcode::LAX, AddressingMode::ZPG),
        0xA8 => cp(Opcode::TAY, AddressingMode::IMPL),
        0xA9 => cp(Opcode::LDA, AddressingMode::IMM),
        0xAA => cp(Opcode::TAX, AddressingMode::IMPL),
        0xAB => cp(Opcode::LXA, AddressingMode::IMM),
        0xAC => cp(Opcode::LDY, AddressingMode::ABS),
        0xAD => cp(Opcode::LDA, AddressingMode::ABS),
        0xAE => cp(Opcode::LDX, AddressingMode::ABS),
        0xAF => cp(Opcode::LAX, AddressingMode::ABS),
        0xB0 => cp(Opcode::BCS, AddressingMode::REL),
        0xB1 => cp(Opcode::LDA, AddressingMode::IND_Y),
        0xB2 => cp(Opcode::JAM, AddressingMode::J),
        0xB3 => cp(Opcode::LAX, AddressingMode::IND_Y),
        0xB4 => cp(Opcode::LDY, AddressingMode::ZPG_X),
        0xB5 => cp(Opcode::LDA, AddressingMode::ZPG_X),
        0xB6 => cp(Opcode::LDX, AddressingMode::ZPG_Y),
        0xB7 => cp(Opcode::LAX, AddressingMode::ZPG_Y),
        0xB8 => cp(Opcode::CLV, AddressingMode::IMPL),
        0xB9 => cp(Opcode::LDA, AddressingMode::ABS_Y),
        0xBA => cp(Opcode::TSX, AddressingMode::IMPL),
        0xBB => cp(Opcode::LAS, AddressingMode::ABS_Y),
        0xBC => cp(Opcode::LDY, AddressingMode::ABS_X),
        0xBD => cp(Opcode::LDA, AddressingMode::ABS_X),
        0xBE => cp(Opcode::LDX, AddressingMode::ABS_Y),
        0xBF => cp(Opcode::LAX, AddressingMode::ABS_Y),
        0xC0 => cp(Opcode::CPY, AddressingMode::IMM),
        0xC1 => cp(Opcode::CMP, AddressingMode::X_IND),
        0xC2 => cp(Opcode::NOP, AddressingMode::IMM),
        0xC3 => cp(Opcode::DCP, AddressingMode::X_IND),
        0xC4 => cp(Opcode::CPY, AddressingMode::ZPG),
        0xC5 => cp(Opcode::CMP, AddressingMode::ZPG),
        0xC6 => cp(Opcode::DEC, AddressingMode::ZPG),
        0xC7 => cp(Opcode::DCP, AddressingMode::ZPG),
        0xC8 => cp(Opcode::INY, AddressingMode::IMPL),
        0xC9 => cp(Opcode::CMP, AddressingMode::IMM),
        0xCA => cp(Opcode::DEX, AddressingMode::IMPL),
        0xCB => cp(Opcode::SBX, AddressingMode::IMM),
        0xCC => cp(Opcode::CPY, AddressingMode::ABS),
        0xCD => cp(Opcode::CMP, AddressingMode::ABS),
        0xCE => cp(Opcode::DEC, AddressingMode::ABS),
        0xCF => cp(Opcode::DCP, AddressingMode::ABS),
        0xD0 => cp(Opcode::BNE, AddressingMode::REL),
        0xD1 => cp(Opcode::CMP, AddressingMode::IND_Y),
        0xD2 => cp(Opcode::JAM, AddressingMode::J),
        0xD3 => cp(Opcode::DCP, AddressingMode::IND_Y),
        0xD4 => cp(Opcode::NOP, AddressingMode::ZPG_X),
        0xD5 => cp(Opcode::CMP, AddressingMode::ZPG_X),
        0xD6 => cp(Opcode::DEC, AddressingMode::ZPG_X),
        0xD7 => cp(Opcode::DCP, AddressingMode::ZPG_X),
        0xD8 => cp(Opcode::CLD, AddressingMode::IMPL),
        0xD9 => cp(Opcode::CMP, AddressingMode::ABS_Y),
        0xDA => cp(Opcode::NOP, AddressingMode::IMPL),
        0xDB => cp(Opcode::DCP, AddressingMode::ABS_Y),
        0xDC => cp(Opcode::NOP, AddressingMode::ABS_X),
        0xDD => cp(Opcode::CMP, AddressingMode::ABS_X),
        0xDE => cp(Opcode::DEC, AddressingMode::ABS_X),
        0xDF => cp(Opcode::DCP, AddressingMode::ABS_X),
        0xE0 => cp(Opcode::CPX, AddressingMode::IMM),
        0xE1 => cp(Opcode::SBC, AddressingMode::X_IND),
        0xE2 => cp(Opcode::NOP, AddressingMode::IMM),
        0xE3 => cp(Opcode::ISC, AddressingMode::X_IND),
        0xE4 => cp(Opcode::CPX, AddressingMode::ZPG),
        0xE5 => cp(Opcode::SBC, AddressingMode::ZPG),
        0xE6 => cp(Opcode::INC, AddressingMode::ZPG),
        0xE7 => cp(Opcode::ISC, AddressingMode::ZPG),
        0xE8 => cp(Opcode::INX, AddressingMode::IMPL),
        0xE9 => cp(Opcode::SBC, AddressingMode::IMM),
        0xEA => cp(Opcode::NOP, AddressingMode::IMPL),
        0xEB => cp(Opcode::USB, AddressingMode::IMM),
        0xEC => cp(Opcode::CPX, AddressingMode::ABS),
        0xED => cp(Opcode::SBC, AddressingMode::ABS),
        0xEE => cp(Opcode::INC, AddressingMode::ABS),
        0xEF => cp(Opcode::ISC, AddressingMode::ABS),
        0xF0 => cp(Opcode::BEQ, AddressingMode::REL),
        0xF1 => cp(Opcode::SBC, AddressingMode::IND_Y),
        0xF2 => cp(Opcode::JAM, AddressingMode::J),
        0xF3 => cp(Opcode::ISC, AddressingMode::IND_Y),
        0xF4 => cp(Opcode::NOP, AddressingMode::ZPG_X),
        0xF5 => cp(Opcode::SBC, AddressingMode::ZPG_X),
        0xF6 => cp(Opcode::INC, AddressingMode::ZPG_X),
        0xF7 => cp(Opcode::ISC, AddressingMode::ZPG_X),
        0xF8 => cp(Opcode::SED, AddressingMode::IMPL),
        0xF9 => cp(Opcode::SBC, AddressingMode::ABS_Y),
        0xFA => cp(Opcode::NOP, AddressingMode::IMPL),
        0xFB => cp(Opcode::ISC, AddressingMode::ABS_Y),
        0xFC => cp(Opcode::NOP, AddressingMode::ABS_X),
        0xFD => cp(Opcode::SBC, AddressingMode::ABS_X),
        0xFE => cp(Opcode::INC, AddressingMode::ABS_X),
        0xFF => cp(Opcode::ISC, AddressingMode::ABS_X),
    }
}

/// Looks up the meaning of an opcode byte.
pub fn codepoint(byte: u8) -> (r: Codepoint)
    ensures
        r == codepoint_of(byte),
{
    match byte {
        0x00 => Codepoint { opcode: Opcode::BRK, addressing_mode: AddressingMode::IMPL },
        0x01 => Codepoint { opcode: Opcode::ORA, addressing_mode: AddressingMode::X_IND },
        0x02 => Codepoint { opcode: Opcode::JAM, addressing_mode: AddressingMode::J },
        0x03 => Codepoint { opcode: Opcode::SLO, addressing_mode: AddressingMode::X_IND },
        0x04 => Codepoint { opcode: Opcode::NOP, addressing_mode: AddressingMode::ZPG },
        0x05 => Codepoint { opcode: Opcode::ORA, addressing_mode: AddressingMode::ZPG },
        0x06 => Codepoint { opcode: Opcode::ASL, addressing_mode: AddressingMode::ZPG },
        0x07 => Codepoint { opcode: Opcode::SLO, addressing_mode: AddressingMode::ZPG },
        0x08 => Codepoint { opcode: Opcode::PHP, addressing_mode: AddressingMode::IMPL },
        0x09 => Codepoint { opcode: Opcode::ORA, addressing_mode: AddressingMode::IMM },
        0x0A => Codepoint { opcode: Opcode::ASL, addressing_mode: AddressingMode::A },
        0x0B => Codepoint { opcode: Opcode::ANC, addressing_mode: AddressingMode::IMM },
        0x0C => Codepoint { opcode: Opcode::NOP, addressing_mode: AddressingMode::ABS },
        0x0D => Codepoint { opcode: Opcode::ORA, addressing_mode: AddressingMode::ABS },
        0x0E => Codepoint { opcode: Opcode::ASL, addressing_mode: AddressingMode::ABS },
        0x0F => Codepoint { opcode: Opcode::SLO, addressing_mode: AddressingMode::ABS },
        0x10 => Codepoint { opcode: Opcode::BPL, addressing_mode: AddressingMode::REL },
        0x11 => Codepoint { opcode: Opcode::ORA, addressing_mode: AddressingMode::IND_Y },
        0x12 => Codepoint { opcode: Opcode::JAM, addressing_mode: AddressingMode::J },
        0x13 => Codepoint { opcode: Opcode::SLO, addressing_mode: AddressingMode::IND_Y },
        0x14 => Codepoint { opcode: Opcode::NOP, addressing_mode: AddressingMode::ZPG_X },
        0x15 => Codepoint { opcode: Opcode::ORA, addressing_mode: AddressingMode::ZPG_X },
        0x16 => Codepoint { opcode: Opcode::ASL, addressing_mode: AddressingMode::ZPG_X },
        0x17 => Codepoint { opcode: Opcode::SLO, addressing_mode: AddressingMode::ZPG_X },
        0x18 => Codepoint { opcode: Opcode::CLC, addressing_mode: AddressingMode::IMPL },
        0x19 => Codepoint { opcode: Opcode::ORA, addressing_mode: AddressingMode::ABS_Y },
        0x1A => Codepoint { opcode: Opcode::NOP, addressing_mode: AddressingMode::IMPL },
        0x1B => Codepoint { opcode: Opcode::SLO, addressing_mode: AddressingMode::ABS_Y },
        0x1C => Codepoint { opcode: Opcode::NOP, addressing_mode: AddressingMode::ABS_X },
        0x1D => Codepoint { opcode: Opcode::ORA, addressing_mode: AddressingMode::ABS_X },
        0x1E => Codepoint { opcode: Opcode::ASL, addressing_mode: AddressingMode::ABS_X },
        0x1F => Codepoint { opcode: Opcode::SLO, addressing_mode: AddressingMode::ABS_X },
        0x20 => Codepoint { opcode: Opcode::JSR, addressing_mode: AddressingMode::ABS },
        0x21 => Codepoint { opcode: Opcode::AND, addressing_mode: AddressingMode::X_IND },
        0x22 => Codepoint { opcode: Opcode::JAM, addressing_mode: AddressingMode::J },
        0x23 => Codepoint { opcode: Opcode::RLA, addressing_mode: AddressingMode::X_IND },
        0x24 => Codepoint { opcode: Opcode::BIT, addressing_mode: AddressingMode::ZPG },
        0x25 => Codepoint { opcode: Opcode::AND, addressing_mode: AddressingMode::ZPG },
        0x26 => Codepoint { opcode: Opcode::ROL, addressing_mode: AddressingMode::ZPG },
        0x27 => Codepoint { opcode: Opcode::RLA, addressing_mode: AddressingMode::ZPG },
        0x28 => Codepoint { opcode: Opcode::PLP, addressing_mode: AddressingMode::IMPL },
        0x29 => Codepoint { opcode: Opcode::AND, addressing_mode: AddressingMode::IMM },
        0x2A => Codepoint { opcode: Opcode::ROL, addressing_mode: AddressingMode::A },
        0x2B => Codepoint { opcode: Opcode::ANC, addressing_mode: AddressingMode::IMM },
        0x2C => Codepoint { opcode: Opcode::BIT, addressing_mode: AddressingMode::ABS },
        0x2D => Codepoint { opcode: Opcode::AND, addressing_mode: AddressingMode::ABS },
        0x2E => Codepoint { opcode: Opcode::ROL, addressing_mode: AddressingMode::ABS },
        0x2F => Codepoint { opcode: Opcode::RLA, addressing_mode: AddressingMode::ABS },
        0x30 => Codepoint { opcode: Opcode::BMI, addressing_mode: AddressingMode::REL },
        0x31 => Codepoint { opcode: Opcode::AND, addressing_mode: AddressingMode::IND_Y },
        0x32 => Codepoint { opcode: Opcode::JAM, addressing_mode: AddressingMode::J },
        0x33 => Codepoint { opcode: Opcode::RLA, addressing_mode: AddressingMode::IND_Y },
        0x34 => Codepoint { opcode: Opcode::NOP, addressing_mode: AddressingMode::ZPG_X },
        0x35 => Codepoint { opcode: Opcode::AND, addressing_mode: AddressingMode::ZPG_X },
        0x36 => Codepoint { opcode: Opcode::ROL, addressing_mode: AddressingMode::ZPG_X },
        0x37 => Codepoint { opcode: Opcode::RLA, addressing_mode: AddressingMode::ZPG_X },
        0x38 => Codepoint { opcode: Opcode::SEC, addressing_mode: AddressingMode::IMPL },
        0x39 => Codepoint { opcode: Opcode::AND, addressing_mode: AddressingMode::ABS_Y },
        0x3A => Codepoint { opcode: Opcode::NOP, addressing_mode: AddressingMode::IMPL },
        0x3B => Codepoint { opcode: Opcode::RLA, addressing_mode: AddressingMode::ABS_Y },
        0x3C => Codepoint { opcode: Opcode::NOP, addressing_mode: AddressingMode::ABS_X },
        0x3D => Codepoint { opcode: Opcode::AND, addressing_mode: AddressingMode::ABS_X },
        0x3E => Codepoint { opcode: Opcode::ROL, addressing_mode: AddressingMode::ABS_X },
        0x3F => Codepoint { opcode: Opcode::RLA, addressing_mode: AddressingMode::ABS_X },
        0x40 => Codepoint { opcode: Opcode::RTI, addressing_mode: AddressingMode::IMPL },
        0x41 => Codepoint { opcode: Opcode::EOR, addressing_mode: AddressingMode::X_IND },
        0x42 => Codepoint { opcode: Opcode::JAM, addressing_mode: AddressingMode::J },
        0x43 => Codepoint { opcode: Opcode::SRE, addressing_mode: AddressingMode::X_IND },
        0x44 => Codepoint { opcode: Opcode::NOP, addressing_mode: AddressingMode::ZPG },
        0x45 => Codepoint { opcode: Opcode::EOR, addressing_mode: AddressingMode::ZPG },
        0x46 => Codepoint { opcode: Opcode::LSR, addressing_mode: AddressingMode::ZPG },
        0x47 => Codepoint { opcode: Opcode::SRE, addressing_mode: AddressingMode::ZPG },
        0x48 => Codepoint { opcode: Opcode::PHA, addressing_mode: AddressingMode::IMPL },
        0x49 => Codepoint { opcode: Opcode::EOR, addressing_mode: AddressingMode::IMM },
        0x4A => Codepoint { opcode: Opcode::LSR, addressing_mode: AddressingMode::A },
        0x4B => Codepoint { opcode: Opcode::ALR, addressing_mode: AddressingMode::IMM },
        0x4C => Codepoint { opcode: Opcode::JMP, addressing_mode: AddressingMode::ABS },
        0x4D => Codepoint { opcode: Opcode::EOR, addressing_mode: AddressingMode::ABS },
        0x4E => Codepoint { opcode: Opcode::LSR, addressing_mode: AddressingMode::ABS },
        0x4F => Codepoint { opcode: Opcode::SRE, addressing_mode: AddressingMode::ABS },
        0x50 => Codepoint { opcode: Opcode::BVC, addressing_mode: AddressingMode::REL },
        0x51 => Codepoint { opcode: Opcode::EOR, addressing_mode: AddressingMode::IND_Y },
        0x52 => Codepoint { opcode: Opcode::JAM, addressing_mode: AddressingMode::J },
        0x53 => Codepoint { opcode: Opcode::SRE, addressing_mode: AddressingMode::IND_Y },
        0x54 => Codepoint { opcode: Opcode::NOP, addressing_mode: AddressingMode::ZPG_X },
        0x55 => Codepoint { opcode: Opcode::EOR, addressing_mode: AddressingMode::ZPG_X },
        0x56 => Codepoint { opcode: Opcode::LSR, addressing_mode: AddressingMode::ZPG_X },
        0x57 => Codepoint { opcode: Opcode::SRE, addressing_mode: AddressingMode::ZPG_X },
        0x58 => Codepoint { opcode: Opcode::CLI, addressing_mode: AddressingMode::IMPL },
        0x59 => Codepoint { opcode: Opcode::EOR, addressing_mode: AddressingMode::ABS_Y },
        0x5A => Codepoint { opcode: Opcode::NOP, addressing_mode: AddressingMode::IMPL },
        0x5B => Codepoint { opcode: Opcode::SRE, addressing_mode: AddressingMode::ABS_Y },
        0x5C => Codepoint { opcode: Opcode::NOP, addressing_mode: AddressingMode::ABS_X },
        0x5D => Codepoint { opcode: Opcode::EOR, addressing_mode: AddressingMode::ABS_X },
        0x5E => Codepoint { opcode: Opcode::LSR, addressing_mode: AddressingMode::ABS_X },
        0x5F => Codepoint { opcode: Opcode::SRE, addressing_mode: AddressingMode::ABS_X },
        0x60 => Codepoint { opcode: Opcode::RTS, addressing_mode: AddressingMode::IMPL },
        0x61 => Codepoint { opcode: Opcode::ADC, addressing_mode: AddressingMode::X_IND },
        0x62 => Codepoint { opcode: Opcode::JAM, addressing_mode: AddressingMode::J },
        0x63 => Codepoint { opcode: Opcode::RRA, addressing_mode: AddressingMode::X_IND },
        0x64 => Codepoint { opcode: Opcode::NOP, addressing_mode: AddressingMode::ZPG },
        0x65 => Codepoint { opcode: Opcode::ADC, addressing_mode: AddressingMode::ZPG },
        0x66 => Codepoint { opcode: Opcode::ROR, addressing_mode: AddressingMode::ZPG },
        0x67 => Codepoint { opcode: Opcode::RRA, addressing_mode: AddressingMode::ZPG },
        0x68 => Codepoint { opcode: Opcode::PLA, addressing_mode: AddressingMode::IMPL },
        0x69 => Codepoint { opcode: Opcode::ADC, addressing_mode: AddressingMode::IMM },
        0x6A => Codepoint { opcode: Opcode::ROR, addressing_mode: AddressingMode::A },
        0x6B => Codepoint { opcode: Opcode::ARR, addressing_mode: AddressingMode::IMM },
        0x6C => Codepoint { opcode: Opcode::JMP, addressing_mode: AddressingMode::IND },
        0x6D => Codepoint { opcode: Opcode::ADC, addressing_mode: AddressingMode::ABS },
        0x6E => Codepoint { opcode: Opcode::ROR, addressing_mode: AddressingMode::ABS },
        0x6F => Codepoint { opcode: Opcode::RRA, addressing_mode: AddressingMode::ABS },
        0x70 => Codepoint { opcode: Opcode::BVS, addressing_mode: AddressingMode::REL },
        0x71 => Codepoint { opcode: Opcode::ADC, addressing_mode: AddressingMode::IND_Y },
        0x72 => Codepoint { opcode: Opcode::JAM, addressing_mode: AddressingMode::J },
        0x73 => Codepoint { opcode: Opcode::RRA, addressing_mode: AddressingMode::IND_Y },
        0x74 => Codepoint { opcode: Opcode::NOP, addressing_mode: AddressingMode::ZPG_X },
        0x75 => Codepoint { opcode: Opcode::ADC, addressing_mode: AddressingMode::ZPG_X },
        0x76 => Codepoint { opcode: Opcode::ROR, addressing_mode: AddressingMode::ZPG_X },
        0x77 => Codepoint { opcode: Opcode::RRA, addressing_mode: AddressingMode::ZPG_X },
        0x78 => Codepoint { opcode: Opcode::SEI, addressing_mode: AddressingMode::IMPL },
        0x79 => Codepoint { opcode: Opcode::ADC, addressing_mode: AddressingMode::ABS_Y },
        0x7A => Codepoint { opcode: Opcode::NOP, addressing_mode: AddressingMode::IMPL },
        0x7B => Codepoint { opcode: Opcode::RRA, addressing_mode: AddressingMode::ABS_Y },
        0x7C => Codepoint { opcode: Opcode::NOP, addressing_mode: AddressingMode::ABS_X },
        0x7D => Codepoint { opcode: Opcode::ADC, addressing_mode: AddressingMode::ABS_X },
        0x7E => Codepoint { opcode: Opcode::ROR, addressing_mode: AddressingMode::ABS_X },
        0x7F => Codepoint { opcode: Opcode::RRA, addressing_mode: AddressingMode::ABS_X },
        0x80 => Codepoint { opcode: Opcode::NOP, addressing_mode: AddressingMode::IMM },
        0x81 => Codepoint { opcode: Opcode::STA, addressing_mode: AddressingMode::X_IND },
        0x82 => Codepoint { opcode: Opcode::NOP, addressing_mode: AddressingMode::IMM },
        0x83 => Codepoint { opcode: Opcode::SAX, addressing_mode: AddressingMode::X_IND },
        0x84 => Codepoint { opcode: Opcode::STY, addressing_mode: AddressingMode::ZPG },
        0x85 => Codepoint { opcode: Opcode::STA, addressing_mode: AddressingMode::ZPG },
        0x86 => Codepoint { opcode: Opcode::STX, addressing_mode: AddressingMode::ZPG },
        0x87 => Codepoint { opcode: Opcode::SAX, addressing_mode: AddressingMode::ZPG },
        0x88 => Codepoint { opcode: Opcode::DEY, addressing_mode: AddressingMode::IMPL },
        0x89 => Codepoint { opcode: Opcode::NOP, addressing_mode: AddressingMode::IMM },
        0x8A => Codepoint { opcode: Opcode::TXA, addressing_mode: AddressingMode::IMPL },
        0x8B => Codepoint { opcode: Opcode::ANE, addressing_mode: AddressingMode::IMM },
        0x8C => Codepoint { opcode: Opcode::STY, addressing_mode: AddressingMode::ABS },
        0x8D => Codepoint { opcode: Opcode::STA, addressing_mode: AddressingMode::ABS },
        0x8E => Codepoint { opcode: Opcode::STX, addressing_mode: AddressingMode::ABS },
        0x8F => Codepoint { opcode: Opcode::SAX, addressing_mode: AddressingMode::ABS },
        0x90 => Codepoint { opcode: Opcode::BCC, addressing_mode: AddressingMode::REL },
        0x91 => Codepoint { opcode: Opcode::STA, addressing_mode: AddressingMode::IND_Y },
        0x92 => Codepoint { opcode: Opcode::JAM, addressing_mode: AddressingMode::J },
        0x93 => Codepoint { opcode: Opcode::SHA, addressing_mode: AddressingMode::IND_Y },
        0x94 => Codepoint { opcode: Opcode::STY, addressing_mode: AddressingMode::ZPG_X },
        0x95 => Codepoint { opcode: Opcode::STA, addressing_mode: AddressingMode::ZPG_X },
        0x96 => Codepoint { opcode: Opcode::STX, addressing_mode: AddressingMode::ZPG_Y },
        0x97 => Codepoint { opcode: Opcode::SAX, addressing_mode: AddressingMode::ZPG_Y },
        0x98 => Codepoint { opcode: Opcode::TYA, addressing_mode: AddressingMode::IMPL },
        0x99 => Codepoint { opcode: Opcode::STA, addressing_mode: AddressingMode::ABS_Y },
        0x9A => Codepoint { opcode: Opcode::TXS, addressing_mode: AddressingMode::IMPL },
        0x9B => Codepoint { opcode: Opcode::TAS, addressing_mode: AddressingMode::ABS_Y },
        0x9C => Codepoint { opcode: Opcode::SHY, addressing_mode: AddressingMode::ABS_X },
        0x9D => Codepoint { opcode: Opcode::STA, addressing_mode: AddressingMode::ABS_X },
        0x9E => Codepoint { opcode: Opcode::SHX, addressing_mode: AddressingMode::ABS_Y },
        0x9F => Codepoint { opcode: Opcode::SHA, addressing_mode: AddressingMode::ABS_Y },
        0xA0 => Codepoint { opcode: Opcode::LDY, addressing_mode: AddressingMode::IMM },
        0xA1 => Codepoint { opcode: Opcode::LDA, addressing_mode: AddressingMode::X_IND },
        0xA2 => Codepoint { opcode: Opcode::LDX, addressing_mode: AddressingMode::IMM },
        0xA3 => Codepoint { opcode: Opcode::LAX, addressing_mode: AddressingMode::X_IND },
        0xA4 => Codepoint { opcode: Opcode::LDY, addressing_mode: AddressingMode::ZPG },
        0xA5 => Codepoint { opcode: Opcode::LDA, addressing_mode: AddressingMode::ZPG },
        0xA6 => Codepoint { opcode: Opcode::LDX, addressing_mode: AddressingMode::ZPG },
        0xA7 => Codepoint { opcode: Opcode::LAX, addressing_mode: AddressingMode::ZPG },
        0xA8 => Codepoint { opcode: Opcode::TAY, addressing_mode: AddressingMode::IMPL },
        0xA9 => Codepoint { opcode: Opcode::LDA, addressing_mode: AddressingMode::IMM },
        0xAA => Codepoint { opcode: Opcode::TAX, addressing_mode: AddressingMode::IMPL },
        0xAB => Codepoint { opcode: Opcode::LXA, addressing_mode: AddressingMode::IMM },
        0xAC => Codepoint { opcode: Opcode::LDY, addressing_mode: AddressingMode::ABS },
        0xAD => Codepoint { opcode: Opcode::LDA, addressing_mode: AddressingMode::ABS },
        0xAE => Codepoint { opcode: Opcode::LDX, addressing_mode: AddressingMode::ABS },
        0xAF => Codepoint { opcode: Opcode::LAX, addressing_mode: AddressingMode::ABS },
        0xB0 => Codepoint { opcode: Opcode::BCS, addressing_mode: AddressingMode::REL },
        0xB1 => Codepoint { opcode: Opcode::LDA, addressing_mode: AddressingMode::IND_Y },
        0xB2 => Codepoint { opcode: Opcode::JAM, addressing_mode: AddressingMode::J },
        0xB3 => Codepoint { opcode: Opcode::LAX, addressing_mode: AddressingMode::IND_Y },
        0xB4 => Codepoint { opcode: Opcode::LDY, addressing_mode: AddressingMode::ZPG_X },
        0xB5 => Codepoint { opcode: Opcode::LDA, addressing_mode: AddressingMode::ZPG_X },
        0xB6 => Codepoint { opcode: Opcode::LDX, addressing_mode: AddressingMode::ZPG_Y },
        0xB7 => Codepoint { opcode: Opcode::LAX, addressing_mode: AddressingMode::ZPG_Y },
        0xB8 => Codepoint { opcode: Opcode::CLV, addressing_mode: AddressingMode::IMPL },
        0xB9 => Codepoint { opcode: Opcode::LDA, addressing_mode: AddressingMode::ABS_Y },
        0xBA => Codepoint { opcode: Opcode::TSX, addressing_mode: AddressingMode::IMPL },
        0xBB => Codepoint { opcode: Opcode::LAS, addressing_mode: AddressingMode::ABS_Y },
        0xBC => Codepoint { opcode: Opcode::LDY, addressing_mode: AddressingMode::ABS_X },
        0xBD => Codepoint { opcode: Opcode::LDA, addressing_mode: AddressingMode::ABS_X },
        0xBE => Codepoint { opcode: Opcode::LDX, addressing_mode: AddressingMode::ABS_Y },
        0xBF => Codepoint { opcode: Opcode::LAX, addressing_mode: AddressingMode::ABS_Y },
        0xC0 => Codepoint { opcode: Opcode::CPY, addressing_mode: AddressingMode::IMM },
        0xC1 => Codepoint { opcode: Opcode::CMP, addressing_mode: AddressingMode::X_IND },
        0xC2 => Codepoint { opcode: Opcode::NOP, addressing_mode: AddressingMode::IMM },
        0xC3 => Codepoint { opcode: Opcode::DCP, addressing_mode: AddressingMode::X_IND },
        0xC4 => Codepoint { opcode: Opcode::CPY, addressing_mode: AddressingMode::ZPG },
        0xC5 => Codepoint { opcode: Opcode::CMP, addressing_mode: AddressingMode::ZPG },
        0xC6 => Codepoint { opcode: Opcode::DEC, addressing_mode: AddressingMode::ZPG },
        0xC7 => Codepoint { opcode: Opcode::DCP, addressing_mode: AddressingMode::ZPG },
        0xC8 => Codepoint { opcode: Opcode::INY, addressing_mode: AddressingMode::IMPL },
        0xC9 => Codepoint { opcode: Opcode::CMP, addressing_mode: AddressingMode::IMM },
        0xCA => Codepoint { opcode: Opcode::DEX, addressing_mode: AddressingMode::IMPL },
        0xCB => Codepoint { opcode: Opcode::SBX, addressing_mode: AddressingMode::IMM },
        0xCC => Codepoint { opcode: Opcode::CPY, addressing_mode: AddressingMode::ABS },
        0xCD => Codepoint { opcode: Opcode::CMP, addressing_mode: AddressingMode::ABS },
        0xCE => Codepoint { opcode: Opcode::DEC, addressing_mode: AddressingMode::ABS },
        0xCF => Codepoint { opcode: Opcode::DCP, addressing_mode: AddressingMode::ABS },
        0xD0 => Codepoint { opcode: Opcode::BNE, addressing_mode: AddressingMode::REL },
        0xD1 => Codepoint { opcode: Opcode::CMP, addressing_mode: AddressingMode::IND_Y },
        0xD2 => Codepoint { opcode: Opcode::JAM, addressing_mode: AddressingMode::J },
        0xD3 => Codepoint { opcode: Opcode::DCP, addressing_mode: AddressingMode::IND_Y },
        0xD4 => Codepoint { opcode: Opcode::NOP, addressing_mode: AddressingMode::ZPG_X },
        0xD5 => Codepoint { opcode: Opcode::CMP, addressing_mode: AddressingMode::ZPG_X },
        0xD6 => Codepoint { opcode: Opcode::DEC, addressing_mode: AddressingMode::ZPG_X },
        0xD7 => Codepoint { opcode: Opcode::DCP, addressing_mode: AddressingMode::ZPG_X },
        0xD8 => Codepoint { opcode: Opcode::CLD, addressing_mode: AddressingMode::IMPL },
        0xD9 => Codepoint { opcode: Opcode::CMP, addressing_mode: AddressingMode::ABS_Y },
        0xDA => Codepoint { opcode: Opcode::NOP, addressing_mode: AddressingMode::IMPL },
        0xDB => Codepoint { opcode: Opcode::DCP, addressing_mode: AddressingMode::ABS_Y },
        0xDC => Codepoint { opcode: Opcode::NOP, addressing_mode: AddressingMode::ABS_X },
        0xDD => Codepoint { opcode: Opcode::CMP, addressing_mode: AddressingMode::ABS_X },
        0xDE => Codepoint { opcode: Opcode::DEC, addressing_mode: AddressingMode::ABS_X },
        0xDF => Codepoint { opcode: Opcode::DCP, addressing_mode: AddressingMode::ABS_X },
        0xE0 => Codepoint { opcode: Opcode::CPX, addressing_mode: AddressingMode::IMM },
        0xE1 => Codepoint { opcode: Opcode::SBC, addressing_mode: AddressingMode::X_IND },
        0xE2 => Codepoint { opcode: Opcode::NOP, addressing_mode: AddressingMode::IMM },
        0xE3 => Codepoint { opcode: Opcode::ISC, addressing_mode: AddressingMode::X_IND },
        0xE4 => Codepoint { opcode: Opcode::CPX, addressing_mode: AddressingMode::ZPG },
        0xE5 => Codepoint { opcode: Opcode::SBC, addressing_mode: AddressingMode::ZPG },
        0xE6 => Codepoint { opcode: Opcode::INC, addressing_mode: AddressingMode::ZPG },
        0xE7 => Codepoint { opcode: Opcode::ISC, addressing_mode: AddressingMode::ZPG },
        0xE8 => Codepoint { opcode: Opcode::INX, addressing_mode: AddressingMode::IMPL },
        0xE9 => Codepoint { opcode: Opcode::SBC, addressing_mode: AddressingMode::IMM },
        0xEA => Codepoint { opcode: Opcode::NOP, addressing_mode: AddressingMode::IMPL },
        0xEB => Codepoint { opcode: Opcode::USB, addressing_mode: AddressingMode::IMM },
        0xEC => Codepoint { opcode: Opcode::CPX, addressing_mode: AddressingMode::ABS },
        0xED => Codepoint { opcode: Opcode::SBC, addressing_mode: AddressingMode::ABS },
        0xEE => Codepoint { opcode: Opcode::INC, addressing_mode: AddressingMode::ABS },
        0xEF => Codepoint { opcode: Opcode::ISC, addressing_mode: AddressingMode::ABS },
        0xF0 => Codepoint { opcode: Opcode::BEQ, addressing_mode: AddressingMode::REL },
        0xF1 => Codepoint { opcode: Opcode::SBC, addressing_mode: AddressingMode::IND_Y },
        0xF2 => Codepoint { opcode: Opcode::JAM, addressing_mode: AddressingMode::J },
        0xF3 => Codepoint { opcode: Opcode::ISC, addressing_mode: AddressingMode::IND_Y },
        0xF4 => Codepoint { opcode: Opcode::NOP, addressing_mode: AddressingMode::ZPG_X },
        0xF5 => Codepoint { opcode: Opcode::SBC, addressing_mode: AddressingMode::ZPG_X },
        0xF6 => Codepoint { opcode: Opcode::INC, addressing_mode: AddressingMode::ZPG_X },
        0xF7 => Codepoint { opcode: Opcode::ISC, addressing_mode: AddressingMode::ZPG_X },
        0xF8 => Codepoint { opcode: Opcode::SED, addressing_mode: AddressingMode::IMPL },
        0xF9 => Codepoint { opcode: Opcode::SBC, addressing_mode: AddressingMode::ABS_Y },
        0xFA => Codepoint { opcode: Opcode::NOP, addressing_mode: AddressingMode::IMPL },
        0xFB => Codepoint { opcode: Opcode::ISC, addressing_mode: AddressingMode::ABS_Y },
        0xFC => Codepoint { opcode: Opcode::NOP, addressing_mode: AddressingMode::ABS_X },
        0xFD => Codepoint { opcode: Opcode::SBC, addressing_mode: AddressingMode::ABS_X },
        0xFE => Codepoint { opcode: Opcode::INC, addressing_mode: AddressingMode::ABS_X },
        0xFF => Codepoint { opcode: Opcode::ISC, addressing_mode: AddressingMode::ABS_X },
    }
}

/// The mnemonic's name as written in assembly source.
pub open spec fn mnemonic_of(o: Opcode) -> Seq<char> {
    match o {
        Opcode::ADC => seq!['A', 'D', 'C'],
        Opcode::AND => seq!['A', 'N', 'D'],
        Opcode::ASL => seq!['A', 'S', 'L'],
        Opcode::BCC => seq!['B', 'C', 'C'],
        Opcode::BCS => seq!['B', 'C', 'S'],
        Opcode::BEQ => seq!['B', 'E', 'Q'],
        Opcode::BIT => seq!['B', 'I', 'T'],
        Opcode::BMI => seq!['B', 'M', 'I'],
        Opcode::BNE => seq!['B', 'N', 'E'],
        Opcode::BPL => seq!['B', 'P', 'L'],
        Opcode::BRK => seq!['B', 'R', 'K'],
        Opcode::BVC => seq!['B', 'V', 'C'],
        Opcode::BVS => seq!['B', 'V', 'S'],
        Opcode::CLC => seq!['C', 'L', 'C'],
        Opcode::CLD => seq!['C', 'L', 'D'],
        Opcode::CLI => seq!['C', 'L', 'I'],
        Opcode::CLV => seq!['C', 'L', 'V'],
        Opcode::CMP => seq!['C', 'M', 'P'],
        Opcode::CPX => seq!['C', 'P', 'X'],
        Opcode::CPY => seq!['C', 'P', 'Y'],
        Opcode::DEC => seq!['D', 'E', 'C'],
        Opcode::DEX => seq!['D', 'E', 'X'],
        Opcode::DEY => seq!['D', 'E', 'Y'],
        Opcode::EOR => seq!['E', 'O', 'R'],
        Opcode::INC => seq!['I', 'N', 'C'],
        Opcode::INX => seq!['I', 'N', 'X'],
        Opcode::INY => seq!['I', 'N', 'Y'],
        Opcode::JMP => seq!['J', 'M', 'P'],
        Opcode::JSR => seq!['J', 'S', 'R'],
        Opcode::LDA => seq!['L', 'D', 'A'],
        Opcode::LDX => seq!['L', 'D', 'X'],
        Opcode::LDY => seq!['L', 'D', 'Y'],
        Opcode::LSR => seq!['L', 'S', 'R'],
        Opcode::NOP => seq!['N', 'O', 'P'],
        Opcode::ORA => seq!['O', 'R', 'A'],
        Opcode::PHA => seq!['P', 'H', 'A'],
        Opcode::PHP => seq!['P', 'H', 'P'],
        Opcode::PLA => seq!['P', 'L', 'A'],
        Opcode::PLP => seq!['P', 'L', 'P'],
        Opcode::ROL => seq!['R', 'O', 'L'],
        Opcode::ROR => seq!['R', 'O', 'R'],
        Opcode::RTI => seq!['R', 'T', 'I'],
        Opcode::RTS => seq!['R', 'T', 'S'],
        Opcode::SBC => seq!['S', 'B', 'C'],
        Opcode::SEC => seq!['S', 'E', 'C'],
        Opcode::SED => seq!['S', 'E', 'D'],
        Opcode::SEI => seq!['S', 'E', 'I'],
        Opcode::STA => seq!['S', 'T', 'A'],
        Opcode::STX => seq!['S', 'T', 'X'],
        Opcode::STY => seq!['S', 'T', 'Y'],
        Opcode::TAX => seq!['T', 'A', 'X'],
        Opcode::TAY => seq!['T', 'A', 'Y'],
        Opcode::TSX => seq!['T', 'S', 'X'],
        Opcode::TXA => seq!['T', 'X', 'A'],
        Opcode::TXS => seq!['T', 'X', 'S'],
        Opcode::TYA => seq!['T', 'Y', 'A'],
        Opcode::ALR => seq!['A', 'L', 'R'],
        Opcode::ANC => seq!['A', 'N', 'C'],
        Opcode::ANE => seq!['A', 'N', 'E'],
        Opcode::ARR => seq!['A', 'R', 'R'],
        Opcode::DCP => seq!['D', 'C', 'P'],
        Opcode::ISC => seq!['I', 'S', 'C'],
        Opcode::LAS => seq!['L', 'A', 'S'],
        Opcode::LAX => seq!['L', 'A', 'X'],
        Opcode::LXA => seq!['L', 'X', 'A'],
        Opcode::RLA => seq!['R', 'L', 'A'],
        Opcode::RRA => seq!['R', 'R', 'A'],
        Opcode::SAX => seq!['S', 'A', 'X'],
        Opcode::SBX => seq!['S', 'B', 'X'],
        Opcode::SHA => seq!['S', 'H', 'A'],
        Opcode::SHX => seq!['S', 'H', 'X'],
        Opcode::SHY => seq!['S', 'H', 'Y'],
        Opcode::SLO => seq!['S', 'L', 'O'],
        Opcode::SRE => seq!['S', 'R', 'E'],
        Opcode::TAS => seq!['T', 'A', 'S'],
        Opcode::USB => seq!['U', 'S', 'B'],
        Opcode::JAM => seq!['J', 'A', 'M'],
    }
}

/// Spells the mnemonic's name.
pub fn mnemonic(o: Opcode) -> (r: (char, char, char))
    ensures
        seq![r.0, r.1, r.2] == mnemonic_of(o),
{
    match o {
        Opcode::ADC => ('A', 'D', 'C'),
        Opcode::AND => ('A', 'N', 'D'),
        Opcode::ASL => ('A', 'S', 'L'),
        Opcode::BCC => ('B', 'C', 'C'),
        Opcode::BCS => ('B', 'C', 'S'),
        Opcode::BEQ => ('B', 'E', 'Q'),
        Opcode::BIT => ('B', 'I', 'T'),
        Opcode::BMI => ('B', 'M', 'I'),
        Opcode::BNE => ('B', 'N', 'E'),
        Opcode::BPL => ('B', 'P', 'L'),
        Opcode::BRK => ('B', 'R', 'K'),
        Opcode::BVC => ('B', 'V', 'C'),
        Opcode::BVS => ('B', 'V', 'S'),
        Opcode::CLC => ('C', 'L', 'C'),
        Opcode::CLD => ('C', 'L', 'D'),
        Opcode::CLI => ('C', 'L', 'I'),
        Opcode::CLV => ('C', 'L', 'V'),
        Opcode::CMP => ('C', 'M', 'P'),
        Opcode::CPX => ('C', 'P', 'X'),
        Opcode::CPY => ('C', 'P', 'Y'),
        Opcode::DEC => ('D', 'E', 'C'),
        Opcode::DEX => ('D', 'E', 'X'),
        Opcode::DEY => ('D', 'E', 'Y'),
        Opcode::EOR => ('E', 'O', 'R'),
        Opcode::INC => ('I', 'N', 'C'),
        Opcode::INX => ('I', 'N', 'X'),
        Opcode::INY => ('I', 'N', 'Y'),
        Opcode::JMP => ('J', 'M', 'P'),
        Opcode::JSR => ('J', 'S', 'R'),
        Opcode::LDA => ('L', 'D', 'A'),
        Opcode::LDX => ('L', 'D', 'X'),
        Opcode::LDY => ('L', 'D', 'Y'),
        Opcode::LSR => ('L', 'S', 'R'),
        Opcode::NOP => ('N', 'O', 'P'),
        Opcode::ORA => ('O', 'R', 'A'),
        Opcode::PHA => ('P', 'H', 'A'),
        Opcode::PHP => ('P', 'H', 'P'),
        Opcode::PLA => ('P', 'L', 'A'),
        Opcode::PLP => ('P', 'L', 'P'),
        Opcode::ROL => ('R', 'O', 'L'),
        Opcode::ROR => ('R', 'O', 'R'),
        Opcode::RTI => ('R', 'T', 'I'),
        Opcode::RTS => ('R', 'T', 'S'),
        Opcode::SBC => ('S', 'B', 'C'),
        Opcode::SEC => ('S', 'E', 'C'),
        Opcode::SED => ('S', 'E', 'D'),
        Opcode::SEI => ('S', 'E', 'I'),
        Opcode::STA => ('S', 'T', 'A'),
        Opcode::STX => ('S', 'T', 'X'),
        Opcode::STY => ('S', 'T', 'Y'),
        Opcode::TAX => ('T', 'A', 'X'),
        Opcode::TAY => ('T', 'A', 'Y'),
        Opcode::TSX => ('T', 'S', 'X'),
        Opcode::TXA => ('T', 'X', 'A'),
        Opcode::TXS => ('T', 'X', 'S'),
        Opcode::TYA => ('T', 'Y', 'A'),
        Opcode::ALR => ('A', 'L', 'R'),
        Opcode::ANC => ('A', 'N', 'C'),
        Opcode::ANE => ('A', 'N', 'E'),
        Opcode::ARR => ('A', 'R', 'R'),
        Opcode::DCP => ('D', 'C', 'P'),
        Opcode::ISC => ('I', 'S', 'C'),
        Opcode::LAS => ('L', 'A', 'S'),
        Opcode::LAX => ('L', 'A', 'X'),
        Opcode::LXA => ('L', 'X', 'A'),
        Opcode::RLA => ('R', 'L', 'A'),
        Opcode::RRA => ('R', 'R', 'A'),
        Opcode::SAX => ('S', 'A', 'X'),
        Opcode::SBX => ('S', 'B', 'X'),
        Opcode::SHA => ('S', 'H', 'A'),
        Opcode::SHX => ('S', 'H', 'X'),
        Opcode::SHY => ('S', 'H', 'Y'),
        Opcode::SLO => ('S', 'L', 'O'),
        Opcode::SRE => ('S', 'R', 'E'),
        Opcode::TAS => ('T', 'A', 'S'),
        Opcode::USB => ('U', 'S', 'B'),
        Opcode::JAM => ('J', 'A', 'M'),
    }
}

/// The mnemonic that a three-letter name spells, if any.
pub open spec fn opcode_named(c0: char, c1: char, c2: char) -> Option<Opcode> {
    match (c0, c1, c2) {
        ('A', 'D', 'C') => Some(Opcode::ADC),
        ('A', 'N', 'D') => Some(Opcode::AND),
        ('A', 'S', 'L') => Some(Opcode::ASL),
        ('B', 'C', 'C') => Some(Opcode::BCC),
        ('B', 'C', 'S') => Some(Opcode::BCS),
        ('B', 'E', 'Q') => Some(Opcode::BEQ),
        ('B', 'I', 'T') => Some(Opcode::BIT),
        ('B', 'M', 'I') => Some(Opcode::BMI),
        ('B', 'N', 'E') => Some(Opcode::BNE),
        ('B', 'P', 'L') => Some(Opcode::BPL),
        ('B', 'R', 'K') => Some(Opcode::BRK),
        ('B', 'V', 'C') => Some(Opcode::BVC),
        ('B', 'V', 'S') => Some(Opcode::BVS),
        ('C', 'L', 'C') => Some(Opcode::CLC),
        ('C', 'L', 'D') => Some(Opcode::CLD),
        ('C', 'L', 'I') => Some(Opcode::CLI),
        ('C', 'L', 'V') => Some(Opcode::CLV),
        ('C', 'M', 'P') => Some(Opcode::CMP),
        ('C', 'P', 'X') => Some(Opcode::CPX),
        ('C', 'P', 'Y') => Some(Opcode::CPY),
        ('D', 'E', 'C') => Some(Opcode::DEC),
        ('D', 'E', 'X') => Some(Opcode::DEX),
        ('D', 'E', 'Y') => Some(Opcode::DEY),
        ('E', 'O', 'R') => Some(Opcode::EOR),
        ('I', 'N', 'C') => Some(Opcode::INC),
        ('I', 'N', 'X') => Some(Opcode::INX),
        ('I', 'N', 'Y') => Some(Opcode::INY),
        ('J', 'M', 'P') => Some(Opcode::JMP),
        ('J', 'S', 'R') => Some(Opcode::JSR),
        ('L', 'D', 'A') => Some(Opcode::LDA),
        ('L', 'D', 'X') => Some(Opcode::LDX),
        ('L', 'D', 'Y') => Some(Opcode::LDY),
        ('L', 'S', 'R') => Some(Opcode::LSR),
        ('N', 'O', 'P') => Some(Opcode::NOP),
        ('O', 'R', 'A') => Some(Opcode::ORA),
        ('P', 'H', 'A') => Some(Opcode::PHA),
        ('P', 'H', 'P') => Some(Opcode::PHP),
        ('P', 'L', 'A') => Some(Opcode::PLA),
        ('P', 'L', 'P') => Some(Opcode::PLP),
        ('R', 'O', 'L') => Some(Opcode::ROL),
        ('R', 'O', 'R') => Some(Opcode::ROR),
        ('R', 'T', 'I') => Some(Opcode::RTI),
        ('R', 'T', 'S') => Some(Opcode::RTS),
        ('S', 'B', 'C') => Some(Opcode::SBC),
        ('S', 'E', 'C') => Some(Opcode::SEC),
        ('S', 'E', 'D') => Some(Opcode::SED),
        ('S', 'E', 'I') => Some(Opcode::SEI),
        ('S', 'T', 'A') => Some(Opcode::STA),
        ('S', 'T', 'X') => Some(Opcode::STX),
        ('S', 'T', 'Y') => Some(Opcode::STY),
        ('T', 'A', 'X') => Some(Opcode::TAX),
        ('T', 'A', 'Y') => Some(Opcode::TAY),
        ('T', 'S', 'X') => Some(Opcode::TSX),
        ('T', 'X', 'A') => Some(Opcode::TXA),
        ('T', 'X', 'S') => Some(Opcode::TXS),
        ('T', 'Y', 'A') => Some(Opcode::TYA),
        ('A', 'L', 'R') => Some(Opcode::ALR),
        ('A', 'N', 'C') => Some(Opcode::ANC),
        ('A', 'N', 'E') => Some(Opcode::ANE),
        ('A', 'R', 'R') => Some(Opcode::ARR),
        ('D', 'C', 'P') => Some(Opcode::DCP),
        ('I', 'S', 'C') => Some(Opcode::ISC),
        ('L', 'A', 'S') => Some(Opcode::LAS),
        ('L', 'A', 'X') => Some(Opcode::LAX),
        ('L', 'X', 'A') => Some(Opcode::LXA),
        ('R', 'L', 'A') => Some(Opcode::RLA),
        ('R', 'R', 'A') => Some(Opcode::RRA),
        ('S', 'A', 'X') => Some(Opcode::SAX),
        ('S', 'B', 'X') => Some(Opcode::SBX),
        ('S', 'H', 'A') => Some(Opcode::SHA),
        ('S', 'H', 'X') => Some(Opcode::SHX),
        ('S', 'H', 'Y') => Some(Opcode::SHY),
        ('S', 'L', 'O') => Some(Opcode::SLO),
        ('S', 'R', 'E') => Some(Opcode::SRE),
        ('T', 'A', 'S') => Some(Opcode::TAS),
        ('U', 'S', 'B') => Some(Opcode::USB),
        ('J', 'A', 'M') => Some(Opcode::JAM),
        _ => None,
    }
}

/// Reads a three-letter mnemonic name.
pub fn opcode_from_chars(c0: char, c1: char, c2: char) -> (r: Option<Opcode>)
    ensures
        r == opcode_named(c0, c1, c2),
{
    match (c0, c1, c2) {
        ('A', 'D', 'C') => Some(Opcode::ADC),
        ('A', 'N', 'D') => Some(Opcode::AND),
        ('A', 'S', 'L') => Some(Opcode::ASL),
        ('B', 'C', 'C') => Some(Opcode::BCC),
        ('B', 'C', 'S') => Some(Opcode::BCS),
        ('B', 'E', 'Q') => Some(Opcode::BEQ),
        ('B', 'I', 'T') => Some(Opcode::BIT),
        ('B', 'M', 'I') => Some(Opcode::BMI),
        ('B', 'N', 'E') => Some(Opcode::BNE),
        ('B', 'P', 'L') => Some(Opcode::BPL),
        ('B', 'R', 'K') => Some(Opcode::BRK),
        ('B', 'V', 'C') => Some(Opcode::BVC),
        ('B', 'V', 'S') => Some(Opcode::BVS),
        ('C', 'L', 'C') => Some(Opcode::CLC),
        ('C', 'L', 'D') => Some(Opcode::CLD),
        ('C', 'L', 'I') => Some(Opcode::CLI),
        ('C', 'L', 'V') => Some(Opcode::CLV),
        ('C', 'M', 'P') => Some(Opcode::CMP),
        ('C', 'P', 'X') => Some(Opcode::CPX),
        ('C', 'P', 'Y') => Some(Opcode::CPY),
        ('D', 'E', 'C') => Some(Opcode::DEC),
        ('D', 'E', 'X') => Some(Opcode::DEX),
        ('D', 'E', 'Y') => Some(Opcode::DEY),
        ('E', 'O', 'R') => Some(Opcode::EOR),
        ('I', 'N', 'C') => Some(Opcode::INC),
        ('I', 'N', 'X') => Some(Opcode::INX),
        ('I', 'N', 'Y') => Some(Opcode::INY),
        ('J', 'M', 'P') => Some(Opcode::JMP),
        ('J', 'S', 'R') => Some(Opcode::JSR),
        ('L', 'D', 'A') => Some(Opcode::LDA),
        ('L', 'D', 'X') => Some(Opcode::LDX),
        ('L', 'D', 'Y') => Some(Opcode::LDY),
        ('L', 'S', 'R') => Some(Opcode::LSR),
        ('N', 'O', 'P') => Some(Opcode::NOP),
        ('O', 'R', 'A') => Some(Opcode::ORA),
        ('P', 'H', 'A') => Some(Opcode::PHA),
        ('P', 'H', 'P') => Some(Opcode::PHP),
        ('P', 'L', 'A') => Some(Opcode::PLA),
        ('P', 'L', 'P') => Some(Opcode::PLP),
        ('R', 'O', 'L') => Some(Opcode::ROL),
        ('R', 'O', 'R') => Some(Opcode::ROR),
        ('R', 'T', 'I') => Some(Opcode::RTI),
        ('R', 'T', 'S') => Some(Opcode::RTS),
        ('S', 'B', 'C') => Some(Opcode::SBC),
        ('S', 'E', 'C') => Some(Opcode::SEC),
        ('S', 'E', 'D') => Some(Opcode::SED),
        ('S', 'E', 'I') => Some(Opcode::SEI),
        ('S', 'T', 'A') => Some(Opcode::STA),
        ('S', 'T', 'X') => Some(Opcode::STX),
        ('S', 'T', 'Y') => Some(Opcode::STY),
        ('T', 'A', 'X') => Some(Opcode::TAX),
        ('T', 'A', 'Y') => Some(Opcode::TAY),
        ('T', 'S', 'X') => Some(Opcode::TSX),
        ('T', 'X', 'A') => Some(Opcode::TXA),
        ('T', 'X', 'S') => Some(Opcode::TXS),
        ('T', 'Y', 'A') => Some(Opcode::TYA),
        ('A', 'L', 'R') => Some(Opcode::ALR),
        ('A', 'N', 'C') => Some(Opcode::ANC),
        ('A', 'N', 'E') => Some(Opcode::ANE),
        ('A', 'R', 'R') => Some(Opcode::ARR),
        ('D', 'C', 'P') => Some(Opcode::DCP),
        ('I', 'S', 'C') => Some(Opcode::ISC),
        ('L', 'A', 'S') => Some(Opcode::LAS),
        ('L', 'A', 'X') => Some(Opcode::LAX),
        ('L', 'X', 'A') => Some(Opcode::LXA),
        ('R', 'L', 'A') => Some(Opcode::RLA),
        ('R', 'R', 'A') => Some(Opcode::RRA),
        ('S', 'A', 'X') => Some(Opcode::SAX),
        ('S', 'B', 'X') => Some(Opcode::SBX),
        ('S', 'H', 'A') => Some(Opcode::SHA),
        ('S', 'H', 'X') => Some(Opcode::SHX),
        ('S', 'H', 'Y') => Some(Opcode::SHY),
        ('S', 'L', 'O') => Some(Opcode::SLO),
        ('S', 'R', 'E') => Some(Opcode::SRE),
        ('T', 'A', 'S') => Some(Opcode::TAS),
        ('U', 'S', 'B') => Some(Opcode::USB),
        ('J', 'A', 'M') => Some(Opcode::JAM),
        _ => None,
    }
}

/// All mnemonics, in declaration order.
pub open spec fn all_opcodes() -> Seq<Opcode> {
    seq![
        Opcode::ADC,
        Opcode::AND,
        Opcode::ASL,
        Opcode::BCC,
        Opcode::BCS,
        Opcode::BEQ,
        Opcode::BIT,
        Opcode::BMI,
        Opcode::BNE,
        Opcode::BPL,
        Opcode::BRK,
        Opcode::BVC,
        Opcode::BVS,
        Opcode::CLC,
        Opcode::CLD,
        Opcode::CLI,
        Opcode::CLV,
        Opcode::CMP,
        Opcode::CPX,
        Opcode::CPY,
        Opcode::DEC,
        Opcode::DEX,
        Opcode::DEY,
        Opcode::EOR,
        Opcode::INC,
        Opcode::INX,
        Opcode::INY,
        Opcode::JMP,
        Opcode::JSR,
        Opcode::LDA,
        Opcode::LDX,
        Opcode::LDY,
        Opcode::LSR,
        Opcode::NOP,
        Opcode::ORA,
        Opcode::PHA,
        Opcode::PHP,
        Opcode::PLA,
        Opcode::PLP,
        Opcode::ROL,
        Opcode::ROR,
        Opcode::RTI,
        Opcode::RTS,
        Opcode::SBC,
        Opcode::SEC,
        Opcode::SED,
        Opcode::SEI,
        Opcode::STA,
        Opcode::STX,
        Opcode::STY,
        Opcode::TAX,
        Opcode::TAY,
        Opcode::TSX,
        Opcode::TXA,
        Opcode::TXS,
        Opcode::TYA,
        Opcode::ALR,
        Opcode::ANC,
        Opcode::ANE,
        Opcode::ARR,
        Opcode::DCP,
        Opcode::ISC,
        Opcode::LAS,
        Opcode::LAX,
        Opcode::LXA,
        Opcode::RLA,
        Opcode::RRA,
        Opcode::SAX,
        Opcode::SBX,
        Opcode::SHA,
        Opcode::SHX,
        Opcode::SHY,
        Opcode::SLO,
        Opcode::SRE,
        Opcode::TAS,
        Opcode::USB,
        Opcode::JAM
    ]
}

impl AddressingMode {
    /// Number of operand bytes that follow the opcode byte.
    pub open spec fn arity_of(self) -> nat {
        match self {
            AddressingMode::IMPL | AddressingMode::A | AddressingMode::J => 0,
            AddressingMode::IMM | AddressingMode::ZPG | AddressingMode::ZPG_X
            | AddressingMode::ZPG_Y | AddressingMode::REL | AddressingMode::X_IND
            | AddressingMode::IND_Y => 1,
            AddressingMode::ABS | AddressingMode::ABS_X | AddressingMode::ABS_Y
            | AddressingMode::IND => 2,
        }
    }

    /// Encoded length of an instruction in this mode; undefined for the jam slot.
    pub open spec fn len_of(self) -> nat {
        match self {
            AddressingMode::IMPL | AddressingMode::A => 1,
            AddressingMode::IMM | AddressingMode::REL | AddressingMode::ZPG
            | AddressingMode::ZPG_X | AddressingMode::ZPG_Y | AddressingMode::X_IND
            | AddressingMode::IND_Y => 2,
            AddressingMode::ABS | AddressingMode::ABS_X | AddressingMode::ABS_Y
            | AddressingMode::IND => 3,
            AddressingMode::J => 0,
        }
    }

    pub fn arity(&self) -> (r: usize)
        ensures
            r == self.arity_of(),
    {
        match self {
            AddressingMode::IMPL | AddressingMode::A | AddressingMode::J => 0,
            AddressingMode::IMM | AddressingMode::ZPG | AddressingMode::ZPG_X
            | AddressingMode::ZPG_Y | AddressingMode::REL | AddressingMode::X_IND
            | AddressingMode::IND_Y => 1,
            AddressingMode::ABS | AddressingMode::ABS_X | AddressingMode::ABS_Y
            | AddressingMode::IND => 2,
        }
    }

    /// Gets the length of an instruction using this addressing mode.
    pub fn get_len(&self) -> (r: u16)
        requires
            *self != AddressingMode::J,
        ensures
            r == self.len_of(),
    {
        match self {
            AddressingMode::IMPL => 1,
            AddressingMode::A => 1,
            AddressingMode::IMM => 2,
            AddressingMode::REL => 2,
            AddressingMode::ZPG => 2,
            AddressingMode::ZPG_X => 2,
            AddressingMode::ZPG_Y => 2,
            AddressingMode::ABS => 3,
            AddressingMode::ABS_X => 3,
            AddressingMode::ABS_Y => 3,
            AddressingMode::IND => 3,
            AddressingMode::X_IND => 2,
            AddressingMode::IND_Y => 2,
            AddressingMode::J => 0,
        }
    }
}

/// Every mode but the jam slot is one to three bytes long: the opcode byte and its operand bytes.
pub proof fn lemma_len_is_arity_plus_one(m: AddressingMode)
    requires
        m != AddressingMode::J,
    ensures
        m.len_of() == m.arity_of() + 1,
        1 <= m.len_of() <= 3,
{
}

/// Does some byte of the table stand for this pair?
pub open spec fn in_table(c: Codepoint) -> bool {
    exists|b: u8| #[trigger] codepoint_of(b) == c
}

/// The lowest byte that stands for the pair, when one does.
pub open spec fn is_first_index(c: Codepoint, b: u8) -> bool {
    &&& codepoint_of(b) == c
    &&& forall|j: u8| j < b ==> #[trigger] codepoint_of(j) != c
}

/// The opcode byte of a pair: the lowest byte of the table that stands for it.
pub fn codepoint_index(c: Codepoint) -> (r: Option<u8>)
    ensures
        r matches Some(b) ==> is_first_index(c, b),
        r is None <==> !in_table(c),
{
    let mut i: u16 = 0;
    while i < 256
        invariant
            i <= 256,
            forall|j: u8| j < i ==> #[trigger] codepoint_of(j) != c,
        decreases 256 - i,
    {
        if codepoint(i as u8) == c {
            return Some(i as u8);
        }
        i = i + 1;
    }
    assert forall|b: u8| #[trigger] codepoint_of(b) != c by {
        assert(b < i);
    }
    None
}

/// Whether the table holds the pair (mnemonic, mode).
pub fn supports(o: Opcode, m: AddressingMode) -> (r: bool)
    ensures
        r == in_table(cp(o, m)),
{
    codepoint_index(Codepoint { opcode: o, addressing_mode: m }).is_some()
}

/// The modes of a mnemonic among the first `n` bytes of the table, in byte order.
pub open spec fn modes_upto(o: Opcode, n: nat) -> Seq<AddressingMode>
    decreases n,
{
    if n == 0 {
        Seq::empty()
    } else {
        let prev = modes_upto(o, (n - 1) as nat);
        let c = codepoint_of((n - 1) as u8);
        if c.opcode == o {
            prev.push(c.addressing_mode)
        } else {
            prev
        }
    }
}

/// What `modes_upto` holds: the modes of the mnemonic in bytes below `n`.
pub proof fn lemma_modes_upto(o: Opcode, n: nat, m: AddressingMode)
    requires
        n <= 256,
    ensures
        modes_upto(o, n).contains(m) <==> exists|b: u8| b < n && #[trigger] codepoint_of(b) == cp(o, m),
    decreases n,
{
    if n > 0 {
        lemma_modes_upto(o, (n - 1) as nat, m);
        let prev = modes_upto(o, (n - 1) as nat);
        let c = codepoint_of((n - 1) as u8);
        if c.opcode == o {
            assert(prev.push(c.addressing_mode).contains(m) <==> (prev.contains(m) || c.addressing_mode == m)) by {
                if prev.push(c.addressing_mode).contains(m) {
                    let k = choose|k: int| 0 <= k < prev.len() + 1 && prev.push(c.addressing_mode)[k] == m;
                    if k < prev.len() {
                        assert(prev[k] == m);
                    }
                }
                if prev.contains(m) {
                    let k = choose|k: int| 0 <= k < prev.len() && prev[k] == m;
                    assert(prev.push(c.addressing_mode)[k] == m);
                }
                if c.addressing_mode == m {
                    assert(prev.push(c.addressing_mode)[prev.len() as int] == m);
                }
            }
        }
        if exists|b: u8| b < n && #[trigger] codepoint_of(b) == cp(o, m) {
            let b = choose|b: u8| b < n && #[trigger] codepoint_of(b) == cp(o, m);
            if b < n - 1 {
            } else {
                assert(b == (n - 1) as u8);
            }
        }
        if modes_upto(o, n).contains(m) {
            if !prev.contains(m) {
                assert(codepoint_of((n - 1) as u8) == cp(o, m));
            }
        }
    }
}

/// Gets all available addressing modes for a mnemonic, in the order of their bytes.
pub fn opcode_addressing_modes(o: &Opcode) -> (r: Vec<AddressingMode>)
    ensures
        r@ == modes_upto(*o, 256),
        forall|m: AddressingMode| r@.contains(m) <==> #[trigger] in_table(cp(*o, m)),
{
    let mut r: Vec<AddressingMode> = Vec::new();
    let mut i: u16 = 0;
    while i < 256
        invariant
            i <= 256,
            r@ == modes_upto(*o, i as nat),
        decreases 256 - i,
    {
        let c = codepoint(i as u8);
        if c.opcode == *o {
            r.push(c.addressing_mode);
        }
        i = i + 1;
    }
    assert forall|m: AddressingMode| r@.contains(m) <==> #[trigger] in_table(cp(*o, m)) by {
        lemma_modes_upto(*o, 256, m);
    }
    r
}

/// All mnemonics, in declaration order.
pub fn opcode_iter() -> (r: Vec<Opcode>)
    ensures
        r@ == all_opcodes(),
{
    let r = vec![
        Opcode::ADC,
        Opcode::AND,
        Opcode::ASL,
        Opcode::BCC,
        Opcode::BCS,
        Opcode::BEQ,
        Opcode::BIT,
        Opcode::BMI,
        Opcode::BNE,
        Opcode::BPL,
        Opcode::BRK,
        Opcode::BVC,
        Opcode::BVS,
        Opcode::CLC,
        Opcode::CLD,
        Opcode::CLI,
        Opcode::CLV,
        Opcode::CMP,
        Opcode::CPX,
        Opcode::CPY,
        Opcode::DEC,
        Opcode::DEX,
        Opcode::DEY,
        Opcode::EOR,
        Opcode::INC,
        Opcode::INX,
        Opcode::INY,
        Opcode::JMP,
        Opcode::JSR,
        Opcode::LDA,
        Opcode::LDX,
        Opcode::LDY,
        Opcode::LSR,
        Opcode::NOP,
        Opcode::ORA,
        Opcode::PHA,
        Opcode::PHP,
        Opcode::PLA,
        Opcode::PLP,
        Opcode::ROL,
        Opcode::ROR,
        Opcode::RTI,
        Opcode::RTS,
        Opcode::SBC,
        Opcode::SEC,
        Opcode::SED,
        Opcode::SEI,
        Opcode::STA,
        Opcode::STX,
        Opcode::STY,
        Opcode::TAX,
        Opcode::TAY,
        Opcode::TSX,
        Opcode::TXA,
        Opcode::TXS,
        Opcode::TYA,
        Opcode::ALR,
        Opcode::ANC,
        Opcode::ANE,
        Opcode::ARR,
        Opcode::DCP,
        Opcode::ISC,
        Opcode::LAS,
        Opcode::LAX,
        Opcode::LXA,
        Opcode::RLA,
        Opcode::RRA,
        Opcode::SAX,
        Opcode::SBX,
        Opcode::SHA,
        Opcode::SHX,
        Opcode::SHY,
        Opcode::SLO,
        Opcode::SRE,
        Opcode::TAS,
        Opcode::USB,
        Opcode::JAM,
    ];
    assert(r@ =~= all_opcodes());
    r
}

/// Every mnemonic is listed, and each once.
pub proof fn lemma_all_opcodes_complete(o: Opcode)
    ensures
        all_opcodes().contains(o),
{
    match o {
        Opcode::ADC => assert(all_opcodes()[0] == o),
        Opcode::AND => assert(all_opcodes()[1] == o),
        Opcode::ASL => assert(all_opcodes()[2] == o),
        Opcode::BCC => assert(all_opcodes()[3] == o),
        Opcode::BCS => assert(all_opcodes()[4] == o),
        Opcode::BEQ => assert(all_opcodes()[5] == o),
        Opcode::BIT => assert(all_opcodes()[6] == o),
        Opcode::BMI => assert(all_opcodes()[7] == o),
        Opcode::BNE => assert(all_opcodes()[8] == o),
        Opcode::BPL => assert(all_opcodes()[9] == o),
        Opcode::BRK => assert(all_opcodes()[10] == o),
        Opcode::BVC => assert(all_opcodes()[11] == o),
        Opcode::BVS => assert(all_opcodes()[12] == o),
        Opcode::CLC => assert(all_opcodes()[13] == o),
        Opcode::CLD => assert(all_opcodes()[14] == o),
        Opcode::CLI => assert(all_opcodes()[15] == o),
        Opcode::CLV => assert(all_opcodes()[16] == o),
        Opcode::CMP => assert(all_opcodes()[17] == o),
        Opcode::CPX => assert(all_opcodes()[18] == o),
        Opcode::CPY => assert(all_opcodes()[19] == o),
        Opcode::DEC => assert(all_opcodes()[20] == o),
        Opcode::DEX => assert(all_opcodes()[21] == o),
        Opcode::DEY => assert(all_opcodes()[22] == o),
        Opcode::EOR => assert(all_opcodes()[23] == o),
        Opcode::INC => assert(all_opcodes()[24] == o),
        Opcode::INX => assert(all_opcodes()[25] == o),
        Opcode::INY => assert(all_opcodes()[26] == o),
        Opcode::JMP => assert(all_opcodes()[27] == o),
        Opcode::JSR => assert(all_opcodes()[28] == o),
        Opcode::LDA => assert(all_opcodes()[29] == o),
        Opcode::LDX => assert(all_opcodes()[30] == o),
        Opcode::LDY => assert(all_opcodes()[31] == o),
        Opcode::LSR => assert(all_opcodes()[32] == o),
        Opcode::NOP => assert(all_opcodes()[33] == o),
        Opcode::ORA => assert(all_opcodes()[34] == o),
        Opcode::PHA => assert(all_opcodes()[35] == o),
        Opcode::PHP => assert(all_opcodes()[36] == o),
        Opcode::PLA => assert(all_opcodes()[37] == o),
        Opcode::PLP => assert(all_opcodes()[38] == o),
        Opcode::ROL => assert(all_opcodes()[39] == o),
        Opcode::ROR => assert(all_opcodes()[40] == o),
        Opcode::RTI => assert(all_opcodes()[41] == o),
        Opcode::RTS => assert(all_opcodes()[42] == o),
        Opcode::SBC => assert(all_opcodes()[43] == o),
        Opcode::SEC => assert(all_opcodes()[44] == o),
        Opcode::SED => assert(all_opcodes()[45] == o),
        Opcode::SEI => assert(all_opcodes()[46] == o),
        Opcode::STA => assert(all_opcodes()[47] == o),
        Opcode::STX => assert(all_opcodes()[48] == o),
        Opcode::STY => assert(all_opcodes()[49] == o),
        Opcode::TAX => assert(all_opcodes()[50] == o),
        Opcode::TAY => assert(all_opcodes()[51] == o),
        Opcode::TSX => assert(all_opcodes()[52] == o),
        Opcode::TXA => assert(all_opcodes()[53] == o),
        Opcode::TXS => assert(all_opcodes()[54] == o),
        Opcode::TYA => assert(all_opcodes()[55] == o),
        Opcode::ALR => assert(all_opcodes()[56] == o),
        Opcode::ANC => assert(all_opcodes()[57] == o),
        Opcode::ANE => assert(all_opcodes()[58] == o),
        Opcode::ARR => assert(all_opcodes()[59] == o),
        Opcode::DCP => assert(all_opcodes()[60] == o),
        Opcode::ISC => assert(all_opcodes()[61] == o),
        Opcode::LAS => assert(all_opcodes()[62] == o),
        Opcode::LAX => assert(all_opcodes()[63] == o),
        Opcode::LXA => assert(all_opcodes()[64] == o),
        Opcode::RLA => assert(all_opcodes()[65] == o),
        Opcode::RRA => assert(all_opcodes()[66] == o),
        Opcode::SAX => assert(all_opcodes()[67] == o),
        Opcode::SBX => assert(all_opcodes()[68] == o),
        Opcode::SHA => assert(all_opcodes()[69] == o),
        Opcode::SHX => assert(all_opcodes()[70] == o),
        Opcode::SHY => assert(all_opcodes()[71] == o),
        Opcode::SLO => assert(all_opcodes()[72] == o),
        Opcode::SRE => assert(all_opcodes()[73] == o),
        Opcode::TAS => assert(all_opcodes()[74] == o),
        Opcode::USB => assert(all_opcodes()[75] == o),
        Opcode::JAM => assert(all_opcodes()[76] == o),
    }
}

/// A mnemonic's name reads back as that mnemonic.
pub proof fn lemma_mnemonic_round_trip(o: Opcode)
    ensures
        opcode_named(mnemonic_of(o)[0], mnemonic_of(o)[1], mnemonic_of(o)[2]) == Some(o),
{
}

} // verus!
