//! The addressing-mode decoder: advances the program counter past an instruction's
//! operand and finds the memory target the opcode works on.
use crate::isa::AddressingMode;
use crate::machine::{add16, ard, rd, word, MemoryTarget, State};
use vstd::prelude::*;

verus! {

/// Reads the byte `k` bytes after the program counter: the value and the state after the read.
pub open spec fn fetch(s: State, k: int) -> (u8, State) {
    (rd(s, add16(s.pc as int, k)), ard(s, add16(s.pc as int, k)))
}

/// Reads a little-endian word: its low byte at `lo_addr`, its high byte at `hi_addr`.
pub open spec fn fetch_word(s: State, lo_addr: u16, hi_addr: u16) -> (u16, State) {
    let lo = rd(s, lo_addr);
    let s1 = ard(s, lo_addr);
    (word(lo, rd(s1, hi_addr)), ard(s1, hi_addr))
}

/// The memory target of a mode and the state after decoding it, from the state with
/// the program counter on the opcode byte.
/// The jam slot decodes as a one-byte instruction without operand, which does nothing.
pub open spec fn decode(mode: AddressingMode, s: State) -> (MemoryTarget, State) {
    let pc = s.pc as int;
    let (lo, s1) = fetch(s, 1);
    let (hi, s2) = fetch(s1, 2);
    let abs = word(lo, hi);
    match mode {
        AddressingMode::IMPL | AddressingMode::J => (MemoryTarget::Impl, State { pc: add16(pc, 1), ..s }),
        AddressingMode::A => (MemoryTarget::Accumulator, State { pc: add16(pc, 1), ..s }),
        AddressingMode::IMM | AddressingMode::REL => (
            MemoryTarget::Address(add16(pc, 1)),
            State { pc: add16(pc, 2), ..s },
        ),
        AddressingMode::ABS => (MemoryTarget::Address(abs), State { pc: add16(pc, 3), ..s2 }),
        AddressingMode::ABS_X => (
            MemoryTarget::Address(add16(abs as int, s.x as int)),
            State { pc: add16(pc, 3), ..s2 },
        ),
        AddressingMode::ABS_Y => (
            MemoryTarget::Address(add16(abs as int, s.y as int)),
            State { pc: add16(pc, 3), ..s2 },
        ),
        AddressingMode::ZPG => (MemoryTarget::Address(lo as u16), State { pc: add16(pc, 2), ..s1 }),
        AddressingMode::ZPG_X => (
            MemoryTarget::Address(((lo + s.x) % 256) as u16),
            State { pc: add16(pc, 2), ..s1 },
        ),
        AddressingMode::ZPG_Y => (
            MemoryTarget::Address(((lo + s.y) % 256) as u16),
            State { pc: add16(pc, 2), ..s1 },
        ),
        // The target's high byte comes from the next address even across a page
        // boundary: the hardware's page-wrap quirk of `JMP ($xxFF)` is not reproduced.
        AddressingMode::IND => {
            let (t, s3) = fetch_word(s2, abs, add16(abs as int, 1));
            (MemoryTarget::Address(t), State { pc: add16(pc, 3), ..s3 })
        },
        AddressingMode::X_IND => {
            let p = (lo + s.x) % 256;
            let (t, s3) = fetch_word(s1, p as u16, ((p + 1) % 256) as u16);
            (MemoryTarget::Address(t), State { pc: add16(pc, 2), ..s3 })
        },
        AddressingMode::IND_Y => {
            let (base, s3) = fetch_word(s1, lo as u16, ((lo + 1) % 256) as u16);
            (MemoryTarget::Address(add16(base as int, s.y as int)), State { pc: add16(pc, 2), ..s3 })
        },
    }
}

/// Decoding moves the program counter past the whole instruction: by the mode's encoded
/// length (one byte for the jam slot).
pub proof fn lemma_decode_advances_pc(mode: AddressingMode, s: State)
    ensures
        decode(mode, s).1.pc == add16(s.pc as int, if mode == AddressingMode::J { 1 } else { mode.len_of() as int }),
{
}

/// Reads the next operand byte: the program counter moves onto it, and the byte is read there.
fn next_byte(state: &mut State) -> (r: u8)
    ensures
        r == rd(*old(state), add16(old(state).pc as int, 1)),
        *final(state) == (State {
            pc: add16(old(state).pc as int, 1),
            ..ard(*old(state), add16(old(state).pc as int, 1))
        }),
{
    state.inc_pc();
    state.read(state.pc, false)
}

/// Reads a little-endian word from two addresses.
fn read_pointer(state: &mut State, lo_addr: u16, hi_addr: u16) -> (r: u16)
    ensures
        (r, *final(state)) == fetch_word(*old(state), lo_addr, hi_addr),
{
    let lo = state.read(lo_addr, false);
    let hi = state.read(hi_addr, false);
    lo as u16 + (hi as u16) * 256
}

proof fn lemma_add16_steps(pc: int)
    requires
        0 <= pc < 0x10000,
    ensures
        add16(add16(pc, 1) as int, 1) == add16(pc, 2),
        add16(add16(pc, 2) as int, 1) == add16(pc, 3),
{
}

/// Decodes the modes with a sixteen-bit operand.
#[verifier::rlimit(40)]
fn run_absolute(addressing_mode: AddressingMode, state: &mut State) -> (r: MemoryTarget)
    requires
        addressing_mode == AddressingMode::ABS || addressing_mode == AddressingMode::ABS_X
            || addressing_mode == AddressingMode::ABS_Y || addressing_mode == AddressingMode::IND,
    ensures
        (r, *final(state)) == decode(addressing_mode, *old(state)),
{
    let ghost s = *state;
    proof {
        lemma_add16_steps(s.pc as int);
    }
    let lo = next_byte(state);
    let hi = next_byte(state);
    state.inc_pc();
    let addr = lo as u16 + (hi as u16) * 256;
    match addressing_mode {
        AddressingMode::ABS_X => MemoryTarget::Address(addr.wrapping_add(state.x as u16)),
        AddressingMode::ABS_Y => MemoryTarget::Address(addr.wrapping_add(state.y as u16)),
        AddressingMode::IND => {
            let t = read_pointer(state, addr, addr.wrapping_add(1));
            MemoryTarget::Address(t)
        },
        _ => MemoryTarget::Address(addr),
    }
}

/// Decodes the modes with an eight-bit operand.
#[verifier::rlimit(40)]
fn run_zero_page(addressing_mode: AddressingMode, state: &mut State) -> (r: MemoryTarget)
    requires
        addressing_mode == AddressingMode::ZPG || addressing_mode == AddressingMode::ZPG_X
            || addressing_mode == AddressingMode::ZPG_Y || addressing_mode == AddressingMode::X_IND
            || addressing_mode == AddressingMode::IND_Y,
    ensures
        (r, *final(state)) == decode(addressing_mode, *old(state)),
{
    let lo = next_byte(state);
    state.inc_pc();
    match addressing_mode {
        AddressingMode::ZPG_X => MemoryTarget::Address(lo.wrapping_add(state.x) as u16),
        AddressingMode::ZPG_Y => MemoryTarget::Address(lo.wrapping_add(state.y) as u16),
        AddressingMode::X_IND => {
            let pointer = lo.wrapping_add(state.x);
            let t = read_pointer(state, pointer as u16, pointer.wrapping_add(1) as u16);
            MemoryTarget::Address(t)
        },
        AddressingMode::IND_Y => {
            let base = read_pointer(state, lo as u16, lo.wrapping_add(1) as u16);
            MemoryTarget::Address(base.wrapping_add(state.y as u16))
        },
        _ => MemoryTarget::Address(lo as u16),
    }
}

/// Moves the program counter past the instruction and returns the memory target
/// for the opcode to work on.
pub fn run(addressing_mode: AddressingMode, state: &mut State) -> (r: MemoryTarget)
    ensures
        (r, *final(state)) == decode(addressing_mode, *old(state)),
{
    match addressing_mode {
        AddressingMode::IMPL | AddressingMode::J => {
            state.inc_pc();
            MemoryTarget::Impl
        },
        AddressingMode::A => {
            state.inc_pc();
            MemoryTarget::Accumulator
        },
        AddressingMode::IMM | AddressingMode::REL => {
            state.inc_pc();
            let a = MemoryTarget::Address(state.pc);
            state.inc_pc();
            a
        },
        AddressingMode::ABS | AddressingMode::ABS_X | AddressingMode::ABS_Y | AddressingMode::IND => {
            run_absolute(addressing_mode, state)
        },
        _ => run_zero_page(addressing_mode, state),
    }
}

} // verus!
