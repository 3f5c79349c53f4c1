//! The opcode executor: what each mnemonic does to the registers, the flags and memory.
use crate::flags;
use crate::isa::Opcode;
use crate::machine::{
    add16, ard, flag_set, rd, with_flag, word, wr, MemoryTarget, State, BRK_VECTOR,
};
use vstd::prelude::*;

verus! {

/// An 8-bit value read as two's complement.
pub open spec fn signed(v: u8) -> int {
    if v < 128 {
        v as int
    } else {
        v - 256
    }
}

/// The carry flag as a number.
pub open spec fn carry_in(sr: u8) -> int {
    if flag_set(sr, flags::C) {
        1
    } else {
        0
    }
}

/// Z and N set from a result.
pub open spec fn with_nz(sr: u8, v: u8) -> u8 {
    with_flag(with_flag(sr, flags::Z, v == 0), flags::N, v >= 128)
}

/// `A + M + C`, on eight bits.
pub open spec fn adc_value(a: u8, m: u8, sr: u8) -> u8 {
    ((a + m + carry_in(sr)) % 256) as u8
}

/// Flags after `ADC`: C is the unsigned carry out, V the signed overflow.
pub open spec fn adc_status(a: u8, m: u8, sr: u8) -> u8 {
    let sum = a + m + carry_in(sr);
    let ssum = signed(a) + signed(m) + carry_in(sr);
    with_nz(
        with_flag(with_flag(sr, flags::C, sum > 255), flags::V, ssum < -128 || ssum > 127),
        adc_value(a, m, sr),
    )
}

/// `A - M - (1 - C)`, on eight bits.
pub open spec fn sbc_value(a: u8, m: u8, sr: u8) -> u8 {
    ((a - m - (1 - carry_in(sr)) + 256) % 256) as u8
}

/// Flags after `SBC`: C is set when no borrow occurred, V is the signed overflow.
pub open spec fn sbc_status(a: u8, m: u8, sr: u8) -> u8 {
    let diff = a - m - (1 - carry_in(sr));
    let sdiff = signed(a) - signed(m) - (1 - carry_in(sr));
    with_nz(
        with_flag(with_flag(sr, flags::C, diff >= 0), flags::V, sdiff < -128 || sdiff > 127),
        sbc_value(a, m, sr),
    )
}

/// Flags after comparing a register with `M`: C when `reg >= M`, N and Z from `reg - M`.
pub open spec fn cmp_status(reg: u8, m: u8, sr: u8) -> u8 {
    with_nz(with_flag(sr, flags::C, reg >= m), ((reg - m + 256) % 256) as u8)
}

/// A shift or rotation by one bit.
pub open spec fn shift_value(v: u8, right: bool, rotate: bool, sr: u8) -> u8 {
    let c = if rotate { carry_in(sr) } else { 0 };
    if right {
        (v / 2 + 128 * c) as u8
    } else {
        ((v * 2) % 256 + c) as u8
    }
}

/// Flags after a shift or rotation: C is the bit shifted out.
pub open spec fn shift_status(v: u8, right: bool, rotate: bool, sr: u8) -> u8 {
    let out = if right { v % 2 == 1 } else { v >= 128 };
    with_nz(with_flag(sr, flags::C, out), shift_value(v, right, rotate, sr))
}

/// Flags after `BIT`: Z from `A AND M`, N and V from bits 7 and 6 of `M`.
pub open spec fn bit_status(a: u8, m: u8, sr: u8) -> u8 {
    with_flag(with_flag(with_flag(sr, flags::Z, a & m == 0), flags::N, m >= 128), flags::V, m & 0x40 == 0x40)
}

/// Whether a branch mnemonic branches under these flags.
pub open spec fn branch_taken(op: Opcode, sr: u8) -> bool {
    match op {
        Opcode::BPL => !flag_set(sr, flags::N),
        Opcode::BMI => flag_set(sr, flags::N),
        Opcode::BVC => !flag_set(sr, flags::V),
        Opcode::BVS => flag_set(sr, flags::V),
        Opcode::BCC => !flag_set(sr, flags::C),
        Opcode::BCS => flag_set(sr, flags::C),
        Opcode::BNE => !flag_set(sr, flags::Z),
        Opcode::BEQ => flag_set(sr, flags::Z),
        _ => false,
    }
}

/// The conditional branches.
pub open spec fn is_branch(op: Opcode) -> bool {
    op == Opcode::BPL || op == Opcode::BMI || op == Opcode::BVC || op == Opcode::BVS
        || op == Opcode::BCC || op == Opcode::BCS || op == Opcode::BNE || op == Opcode::BEQ
}

/// The address of the stack slot that the stack pointer names.
pub open spec fn stack_addr(sp: u8) -> u16 {
    (0x100 + sp) as u16
}

/// `f` is `s` after pushing `v`: stored at the slot of `sp`, then `sp` decremented.
pub open spec fn pushed(s: State, f: State, v: u8) -> bool {
    &&& wr(s, State { sp: s.sp, ..f }, stack_addr(s.sp), v)
    &&& f.sp == ((s.sp + 255) % 256) as u8
}

/// `f` is `s` after pushing the high byte of `w`, then its low byte.
pub open spec fn pushed_word(s: State, f: State, w: u16) -> bool {
    exists|s1: State| #[trigger] pushed(s, s1, (w / 256) as u8) && pushed(s1, f, (w % 256) as u8)
}

/// The stack pointer after a pull.
pub open spec fn pulled_sp(s: State) -> u8 {
    ((s.sp + 1) % 256) as u8
}

/// The byte that a pull returns: `sp` is incremented, then its slot read.
pub open spec fn pull_value(s: State) -> u8 {
    rd(s, stack_addr(pulled_sp(s)))
}

/// The state after a pull.
pub open spec fn pull_state(s: State) -> State {
    State { sp: pulled_sp(s), ..ard(s, stack_addr(pulled_sp(s))) }
}

/// The word that two pulls return: low byte first.
pub open spec fn pull_word(s: State) -> u16 {
    word(pull_value(s), pull_value(pull_state(s)))
}

/// The effect of an opcode on an effective address.
pub open spec fn executes_address(op: Opcode, addr: u16, s: State, f: State) -> bool {
    let m = rd(s, addr);
    let s1 = ard(s, addr);
    match op {
        Opcode::ADC => f == State { a: adc_value(s.a, m, s.sr), sr: adc_status(s.a, m, s.sr), ..s1 },
        Opcode::SBC => f == State { a: sbc_value(s.a, m, s.sr), sr: sbc_status(s.a, m, s.sr), ..s1 },
        Opcode::CMP => f == State { sr: cmp_status(s.a, m, s.sr), ..s1 },
        Opcode::CPX => f == State { sr: cmp_status(s.x, m, s.sr), ..s1 },
        Opcode::CPY => f == State { sr: cmp_status(s.y, m, s.sr), ..s1 },
        Opcode::BIT => f == State { sr: bit_status(s.a, m, s.sr), ..s1 },
        Opcode::AND => f == State { a: s.a & m, sr: with_nz(s.sr, s.a & m), ..s1 },
        Opcode::ORA => f == State { a: s.a | m, sr: with_nz(s.sr, s.a | m), ..s1 },
        Opcode::EOR => f == State { a: s.a ^ m, sr: with_nz(s.sr, s.a ^ m), ..s1 },
        Opcode::ROL | Opcode::ROR | Opcode::ASL | Opcode::LSR => {
            let right = op == Opcode::ROR || op == Opcode::LSR;
            let rotate = op == Opcode::ROL || op == Opcode::ROR;
            wr(
                State { sr: shift_status(m, right, rotate, s.sr), ..s1 },
                f,
                addr,
                shift_value(m, right, rotate, s.sr),
            )
        },
        Opcode::JMP => f == State { pc: addr, ..s },
        Opcode::LDA => f == State { a: m, sr: with_nz(s.sr, m), ..s1 },
        Opcode::LDX => f == State { x: m, sr: with_nz(s.sr, m), ..s1 },
        Opcode::LDY => f == State { y: m, sr: with_nz(s.sr, m), ..s1 },
        Opcode::STA => wr(s, f, addr, s.a),
        Opcode::STX => wr(s, f, addr, s.x),
        Opcode::STY => wr(s, f, addr, s.y),
        Opcode::INC => wr(State { sr: with_nz(s.sr, ((m + 1) % 256) as u8), ..s1 }, f, addr, ((m + 1) % 256) as u8),
        Opcode::DEC => wr(State { sr: with_nz(s.sr, ((m + 255) % 256) as u8), ..s1 }, f, addr, ((m + 255) % 256) as u8),
        Opcode::JSR => f.pc == addr && pushed_word(s, State { pc: s.pc, ..f }, add16(s.pc as int, -1)),
        _ => if is_branch(op) {
            if branch_taken(op, s.sr) {
                f == State { pc: add16(s.pc as int, signed(m)), ..s1 }
            } else {
                f == s
            }
        } else {
            f == s
        },
    }
}

/// The effect of an opcode on the accumulator.
pub open spec fn executes_accumulator(op: Opcode, s: State, f: State) -> bool {
    match op {
        Opcode::ROL | Opcode::ROR | Opcode::ASL | Opcode::LSR => {
            let right = op == Opcode::ROR || op == Opcode::LSR;
            let rotate = op == Opcode::ROL || op == Opcode::ROR;
            f == State { a: shift_value(s.a, right, rotate, s.sr), sr: shift_status(s.a, right, rotate, s.sr), ..s }
        },
        _ => f == s,
    }
}

/// The effect of an opcode without operand.
pub open spec fn executes_implied(op: Opcode, s: State, f: State) -> bool {
    match op {
        Opcode::PHA => pushed(s, f, s.a),
        Opcode::PHP => pushed(s, f, s.sr | flags::U | flags::B),
        Opcode::PLA => f == State { a: pull_value(s), sr: with_nz(s.sr, pull_value(s)), ..pull_state(s) },
        Opcode::PLP => f == State { sr: pull_value(s), ..pull_state(s) },
        Opcode::TAX => f == State { x: s.a, sr: with_nz(s.sr, s.a), ..s },
        Opcode::TAY => f == State { y: s.a, sr: with_nz(s.sr, s.a), ..s },
        Opcode::TXA => f == State { a: s.x, sr: with_nz(s.sr, s.x), ..s },
        Opcode::TYA => f == State { a: s.y, sr: with_nz(s.sr, s.y), ..s },
        Opcode::TSX => f == State { x: s.sp, sr: with_nz(s.sr, s.sp), ..s },
        Opcode::TXS => f == State { sp: s.x, ..s },
        Opcode::CLC => f == State { sr: with_flag(s.sr, flags::C, false), ..s },
        Opcode::SEC => f == State { sr: with_flag(s.sr, flags::C, true), ..s },
        Opcode::CLD => f == State { sr: with_flag(s.sr, flags::D, false), ..s },
        Opcode::SED => f == State { sr: with_flag(s.sr, flags::D, true), ..s },
        Opcode::CLV => f == State { sr: with_flag(s.sr, flags::V, false), ..s },
        Opcode::CLI => f == State { sr: with_flag(s.sr, flags::I, false), ..s },
        Opcode::SEI => f == State { sr: with_flag(s.sr, flags::I, true), ..s },
        Opcode::DEX => f == State { x: ((s.x + 255) % 256) as u8, sr: with_nz(s.sr, ((s.x + 255) % 256) as u8), ..s },
        Opcode::INX => f == State { x: ((s.x + 1) % 256) as u8, sr: with_nz(s.sr, ((s.x + 1) % 256) as u8), ..s },
        Opcode::DEY => f == State { y: ((s.y + 255) % 256) as u8, sr: with_nz(s.sr, ((s.y + 255) % 256) as u8), ..s },
        Opcode::INY => f == State { y: ((s.y + 1) % 256) as u8, sr: with_nz(s.sr, ((s.y + 1) % 256) as u8), ..s },
        Opcode::RTI => {
            let s1 = State { sr: pull_value(s), ..pull_state(s) };
            f == State { pc: pull_word(s1), ..pull_state(pull_state(s1)) }
        },
        Opcode::RTS => f == State { pc: add16(pull_word(s) as int, 1), ..pull_state(pull_state(s)) },
        Opcode::BRK => {
            let s0 = State { pc: add16(s.pc as int, 1), ..s };
            exists|s2: State, s3: State|
                #![trigger pushed_word(s0, s2, s0.pc), pushed(s2, s3, s.sr | flags::B | flags::I)]
                pushed_word(s0, s2, s0.pc) && pushed(s2, s3, s.sr | flags::B | flags::I) && f == State {
                    pc: word(rd(s3, BRK_VECTOR), rd(ard(s3, BRK_VECTOR), (BRK_VECTOR + 1) as u16)),
                    ..ard(ard(s3, BRK_VECTOR), (BRK_VECTOR + 1) as u16)
                }
        },
        _ => f == s,
    }
}

/// The effect of an opcode on a memory target; opcodes that the target does not fit,
/// and the illegal ones, change nothing.
pub open spec fn executes(op: Opcode, t: MemoryTarget, s: State, f: State) -> bool {
    match t {
        MemoryTarget::Address(addr) => executes_address(op, addr, s, f),
        MemoryTarget::Accumulator => executes_accumulator(op, s, f),
        MemoryTarget::Impl => executes_implied(op, s, f),
    }
}

/// Sets Z and N from a new value.
fn new_value(state: &mut State, val: u8)
    ensures
        *final(state) == (State { sr: with_nz(old(state).sr, val), ..*old(state) }),
{
    state.set_flag(flags::Z, val == 0);
    state.set_flag(flags::N, val >= 128);
}

fn inc_stack(state: &mut State)
    ensures
        *final(state) == (State { sp: ((old(state).sp + 1) % 256) as u8, ..*old(state) }),
{
    state.sp = state.sp.wrapping_add(1);
}

fn dec_stack(state: &mut State)
    ensures
        *final(state) == (State { sp: ((old(state).sp + 255) % 256) as u8, ..*old(state) }),
{
    state.sp = state.sp.wrapping_sub(1);
}

/// Pushes a byte: stores it at the stack slot, then decrements the stack pointer.
fn push(state: &mut State, val: u8)
    ensures
        pushed(*old(state), *final(state), val),
{
    let ghost s = *state;
    state.write(0x100 + state.sp as u16, val);
    let ghost g = *state;
    dec_stack(state);
    assert(State { sp: s.sp, ..*state } == g);
}

/// Pulls a byte: increments the stack pointer, then reads the stack slot.
fn pull(state: &mut State) -> (r: u8)
    ensures
        r == pull_value(*old(state)),
        *final(state) == pull_state(*old(state)),
{
    inc_stack(state);
    state.read(0x100 + state.sp as u16, false)
}

/// Pushes a word: high byte first.
fn push_pc(state: &mut State, w: u16)
    ensures
        pushed_word(*old(state), *final(state), w),
{
    let ghost s = *state;
    push(state, (w / 256) as u8);
    let ghost s1 = *state;
    push(state, (w % 256) as u8);
    assert(pushed(s, s1, (w / 256) as u8) && pushed(s1, *state, (w % 256) as u8));
}

/// Pulls a word: low byte first.
fn pull_pc(state: &mut State) -> (r: u16)
    ensures
        r == pull_word(*old(state)),
        *final(state) == pull_state(pull_state(*old(state))),
{
    let lo = pull(state);
    let hi = pull(state);
    lo as u16 + (hi as u16) * 256
}

/// `ADC` or `SBC` on the accumulator.
fn addsub(state: &mut State, sub: bool, m: u8)
    ensures
        *final(state) == (if sub {
            State { a: sbc_value(old(state).a, m, old(state).sr), sr: sbc_status(old(state).a, m, old(state).sr), ..*old(state) }
        } else {
            State { a: adc_value(old(state).a, m, old(state).sr), sr: adc_status(old(state).a, m, old(state).sr), ..*old(state) }
        }),
{
    let a = state.a;
    let c: i16 = if state.get_flag(flags::C) { 1 } else { 0 };
    let sa: i16 = if a < 128 { a as i16 } else { a as i16 - 256 };
    let sm: i16 = if m < 128 { m as i16 } else { m as i16 - 256 };
    let (val, carry, overflow) = if sub {
        let diff: i16 = a as i16 - m as i16 - (1 - c);
        let sdiff: i16 = sa - sm - (1 - c);
        (((diff + 256) % 256) as u8, diff >= 0, sdiff < -128 || sdiff > 127)
    } else {
        let sum: i16 = a as i16 + m as i16 + c;
        let ssum: i16 = sa + sm + c;
        ((sum % 256) as u8, sum > 255, ssum < -128 || ssum > 127)
    };
    state.set_flag(flags::C, carry);
    state.set_flag(flags::V, overflow);
    new_value(state, val);
    state.a = val;
}

/// Compares a register with `m`: flags only.
fn compare(state: &mut State, reg: u8, m: u8)
    ensures
        *final(state) == (State { sr: cmp_status(reg, m, old(state).sr), ..*old(state) }),
{
    state.set_flag(flags::C, reg >= m);
    new_value(state, reg.wrapping_sub(m));
}

/// A shift or rotation of `v` under the status `sr`: the value and the new status.
fn shift_of(v: u8, right: bool, rotate: bool, sr: u8) -> (r: (u8, u8))
    ensures
        r.0 == shift_value(v, right, rotate, sr),
        r.1 == shift_status(v, right, rotate, sr),
{
    let c: u16 = if rotate && (sr & flags::C) == flags::C { 1 } else { 0 };
    let val = if right {
        ((v / 2) as u16 + 128 * c) as u8
    } else {
        (((v as u16) * 2) % 256 + c) as u8
    };
    let out = if right { v % 2 == 1 } else { v >= 128 };
    let mut sr2 = if out { sr | flags::C } else { sr & !flags::C };
    sr2 = if val == 0 { sr2 | flags::Z } else { sr2 & !flags::Z };
    sr2 = if val >= 128 { sr2 | flags::N } else { sr2 & !flags::N };
    (val, sr2)
}

/// Shifts the byte at an address, or the accumulator where there is none.
fn shift(state: &mut State, addr: Option<u16>, right: bool, rotate: bool)
    ensures
        match addr {
            Some(addr) => {
                let m = rd(*old(state), addr);
                let s1 = ard(*old(state), addr);
                wr(
                    State { sr: shift_status(m, right, rotate, old(state).sr), ..s1 },
                    *final(state),
                    addr,
                    shift_value(m, right, rotate, old(state).sr),
                )
            },
            None => *final(state) == (State {
                a: shift_value(old(state).a, right, rotate, old(state).sr),
                sr: shift_status(old(state).a, right, rotate, old(state).sr),
                ..*old(state)
            }),
        },
{
    match addr {
        Some(addr) => {
            let old_val = state.read(addr, false);
            let (val, sr) = shift_of(old_val, right, rotate, state.sr);
            let ghost s1 = *state;
            state.write(addr, val);
            state.sr = sr;
            assert(wr(State { sr: sr, ..s1 }, *state, addr, val));
        },
        None => {
            let (val, sr) = shift_of(state.a, right, rotate, state.sr);
            state.a = val;
            state.sr = sr;
        },
    }
}

/// Increments or decrements the byte at an address.
fn incdec(state: &mut State, addr: u16, inc: bool)
    ensures
        ({
            let m = rd(*old(state), addr);
            let v = if inc { ((m + 1) % 256) as u8 } else { ((m + 255) % 256) as u8 };
            wr(State { sr: with_nz(old(state).sr, v), ..ard(*old(state), addr) }, *final(state), addr, v)
        }),
{
    let val = state.read(addr, false);
    let new_val = if inc { val.wrapping_add(1) } else { val.wrapping_sub(1) };
    let ghost s1 = *state;
    state.write(addr, new_val);
    new_value(state, new_val);
    assert(wr(State { sr: with_nz(s1.sr, new_val), ..s1 }, *state, addr, new_val));
}

fn store_register(state: &mut State, addr: u16, reg: u8)
    ensures
        wr(*old(state), *final(state), addr, reg),
{
    state.write(addr, reg);
}

/// Adds the signed offset at `addr` to the program counter when `cond` holds.
fn branch(state: &mut State, addr: u16, cond: bool)
    ensures
        if cond {
            *final(state) == (State {
                pc: add16(old(state).pc as int, signed(rd(*old(state), addr))),
                ..ard(*old(state), addr)
            })
        } else {
            *final(state) == *old(state)
        },
{
    if cond {
        let off = state.read(addr, false);
        if off < 128 {
            state.pc = state.pc.wrapping_add(off as u16);
        } else {
            state.pc = state.pc.wrapping_sub(256 - off as u16);
        }
    }
}

/// Runs an opcode on an effective address.
#[verifier::rlimit(60)]
fn run_address(opcode: Opcode, state: &mut State, addr: u16)
    ensures
        executes_address(opcode, addr, *old(state), *final(state)),
{
    match opcode {
        Opcode::ADC | Opcode::SBC => {
            let m = state.read(addr, false);
            addsub(state, opcode == Opcode::SBC, m);
        },
        Opcode::CMP | Opcode::CPX | Opcode::CPY => {
            let reg = match opcode {
                Opcode::CMP => state.a,
                Opcode::CPX => state.x,
                _ => state.y,
            };
            let m = state.read(addr, false);
            compare(state, reg, m);
        },
        Opcode::BIT => {
            let m = state.read(addr, false);
            let a = state.a;
            state.set_flag(flags::Z, a & m == 0);
            state.set_flag(flags::N, m >= 128);
            state.set_flag(flags::V, m & 0x40 == 0x40);
        },
        Opcode::AND | Opcode::ORA | Opcode::EOR => {
            let m = state.read(addr, false);
            let val = match opcode {
                Opcode::AND => state.a & m,
                Opcode::ORA => state.a | m,
                _ => state.a ^ m,
            };
            state.a = val;
            new_value(state, val);
        },
        Opcode::ROL => shift(state, Some(addr), false, true),
        Opcode::ROR => shift(state, Some(addr), true, true),
        Opcode::ASL => shift(state, Some(addr), false, false),
        Opcode::LSR => shift(state, Some(addr), true, false),
        Opcode::JMP => {
            state.pc = addr;
        },
        Opcode::BPL => branch(state, addr, !state.get_flag(flags::N)),
        Opcode::BMI => branch(state, addr, state.get_flag(flags::N)),
        Opcode::BVC => branch(state, addr, !state.get_flag(flags::V)),
        Opcode::BVS => branch(state, addr, state.get_flag(flags::V)),
        Opcode::BCC => branch(state, addr, !state.get_flag(flags::C)),
        Opcode::BCS => branch(state, addr, state.get_flag(flags::C)),
        Opcode::BNE => branch(state, addr, !state.get_flag(flags::Z)),
        Opcode::BEQ => branch(state, addr, state.get_flag(flags::Z)),
        Opcode::LDA => {
            let m = state.read(addr, false);
            state.a = m;
            new_value(state, m);
        },
        Opcode::LDX => {
            let m = state.read(addr, false);
            state.x = m;
            new_value(state, m);
        },
        Opcode::LDY => {
            let m = state.read(addr, false);
            state.y = m;
            new_value(state, m);
        },
        Opcode::STA => store_register(state, addr, state.a),
        Opcode::STX => store_register(state, addr, state.x),
        Opcode::STY => store_register(state, addr, state.y),
        Opcode::DEC => incdec(state, addr, false),
        Opcode::INC => incdec(state, addr, true),
        Opcode::JSR => {
            let ghost s = *state;
            // The return address is the last byte of the instruction.
            push_pc(state, state.pc.wrapping_sub(1));
            assert(State { pc: s.pc, ..*state } == *state);
            state.pc = addr;
        },
        _ => {},
    }
}

/// Runs an opcode on the accumulator.
fn run_accumulator(opcode: Opcode, state: &mut State)
    ensures
        executes_accumulator(opcode, *old(state), *final(state)),
{
    match opcode {
        Opcode::ROL => shift(state, None, false, true),
        Opcode::ROR => shift(state, None, true, true),
        Opcode::ASL => shift(state, None, false, false),
        Opcode::LSR => shift(state, None, true, false),
        _ => {},
    }
}

/// `BRK`: skips the padding byte, pushes the program counter and the status with B and I
/// set, and jumps through the IRQ vector.
fn interrupt(state: &mut State)
    ensures
        executes_implied(Opcode::BRK, *old(state), *final(state)),
{
    let ghost s = *state;
    let status = state.sr | flags::B | flags::I;
    state.inc_pc();
    let ghost s0 = *state;
    push_pc(state, state.pc);
    let ghost s2 = *state;
    push(state, status);
    let ghost s3 = *state;
    state.pc = state.read_u16(BRK_VECTOR);
    assert(pushed_word(s0, s2, s0.pc) && pushed(s2, s3, s.sr | flags::B | flags::I));
}

/// Runs an opcode without operand.
#[verifier::rlimit(60)]
fn run_implied(opcode: Opcode, state: &mut State)
    ensures
        executes_implied(opcode, *old(state), *final(state)),
{
    match opcode {
        Opcode::PHA => push(state, state.a),
        Opcode::PHP => push(state, state.sr | flags::U | flags::B),
        Opcode::PLA => {
            let v = pull(state);
            state.a = v;
            new_value(state, v);
        },
        Opcode::PLP => {
            state.sr = pull(state);
        },
        Opcode::TAX => {
            state.x = state.a;
            new_value(state, state.a);
        },
        Opcode::TAY => {
            state.y = state.a;
            new_value(state, state.a);
        },
        Opcode::TXA => {
            state.a = state.x;
            new_value(state, state.x);
        },
        Opcode::TYA => {
            state.a = state.y;
            new_value(state, state.y);
        },
        Opcode::TSX => {
            state.x = state.sp;
            new_value(state, state.sp);
        },
        Opcode::TXS => {
            state.sp = state.x;
        },
        Opcode::CLC => state.set_flag(flags::C, false),
        Opcode::SEC => state.set_flag(flags::C, true),
        Opcode::CLD => state.set_flag(flags::D, false),
        Opcode::SED => state.set_flag(flags::D, true),
        Opcode::CLV => state.set_flag(flags::V, false),
        Opcode::CLI => state.set_flag(flags::I, false),
        Opcode::SEI => state.set_flag(flags::I, true),
        Opcode::DEX => {
            state.x = state.x.wrapping_sub(1);
            new_value(state, state.x);
        },
        Opcode::INX => {
            state.x = state.x.wrapping_add(1);
            new_value(state, state.x);
        },
        Opcode::DEY => {
            state.y = state.y.wrapping_sub(1);
            new_value(state, state.y);
        },
        Opcode::INY => {
            state.y = state.y.wrapping_add(1);
            new_value(state, state.y);
        },
        Opcode::RTI => {
            state.sr = pull(state);
            state.pc = pull_pc(state);
        },
        Opcode::RTS => {
            state.pc = pull_pc(state);
            state.inc_pc();
        },
        Opcode::BRK => interrupt(state),
        _ => {},
    }
}

/// Runs an opcode on the memory target that its addressing mode produced; the program
/// counter already points at the next instruction. Illegal opcodes, and opcodes on a
/// target they do not take, do nothing.
pub fn run(opcode: Opcode, state: &mut State, memory_target: MemoryTarget)
    ensures
        executes(opcode, memory_target, *old(state), *final(state)),
{
    match memory_target {
        MemoryTarget::Address(addr) => run_address(opcode, state, addr),
        MemoryTarget::Accumulator => run_accumulator(opcode, state),
        MemoryTarget::Impl => run_implied(opcode, state),
    }
}

} // verus!
