//! The disassembler: bytes back to instructions, through the same table.
use crate::assembler::{asm_wf, bank_offset, opcode_byte, step, AsmV};
use crate::ines::image_len;
use crate::machine::add16;
use crate::statement::StatementV;
use crate::isa::{codepoint, codepoint_of, cp, in_table, is_first_index, mnemonic, mnemonic_of, AddressingMode, Opcode};
use crate::text::string_of;
use crate::machine::word;
use crate::statement::{Instruction, InstructionV, Operand, OperandV};
use vstd::prelude::*;

verus! {

/// The instruction at the start of the bytes and its length, when all its bytes are there.
pub open spec fn decode_instruction(bytes: Seq<u8>) -> Option<(InstructionV, nat)> {
    if bytes.len() == 0 {
        None
    } else {
        let c = codepoint_of(bytes[0]);
        let n = c.addressing_mode.arity_of();
        if bytes.len() < n + 1 {
            None
        } else {
            let v = if n == 0 {
                OperandV::No
            } else if n == 1 {
                OperandV::U8(bytes[1])
            } else {
                OperandV::U16(word(bytes[1], bytes[2]))
            };
            Some((InstructionV(c.opcode, c.addressing_mode, v), n + 1))
        }
    }
}

/// The instructions decoded from the bytes, one after another, up to the first that is
/// cut short; and how many bytes they take.
pub open spec fn decode_all(bytes: Seq<u8>) -> (Seq<InstructionV>, nat)
    decreases bytes.len(),
{
    match decode_instruction(bytes) {
        Some((i, n)) => if 0 < n <= bytes.len() {
            let (rest, m) = decode_all(bytes.subrange(n as int, bytes.len() as int));
            (seq![i] + rest, n + m)
        } else {
            (Seq::empty(), 0)
        },
        None => (Seq::empty(), 0),
    }
}

impl Instruction {
    /// Decodes the instruction at the start of the bytes; also returns how many bytes it takes.
    pub fn from_bytes(bytes: &[u8]) -> (r: Option<(Instruction, usize)>)
        ensures
            match r {
                Some((i, n)) => decode_instruction(bytes@) == Some((i@, n as nat)),
                None => decode_instruction(bytes@) is None,
            },
    {
        if bytes.len() == 0 {
            return None;
        }
        let c = codepoint(bytes[0]);
        let n = c.addressing_mode.arity();
        if bytes.len() < n + 1 {
            return None;
        }
        let operand = if n == 0 {
            Operand::No
        } else if n == 1 {
            Operand::U8(bytes[1])
        } else {
            Operand::U16(bytes[1] as u16 + (bytes[2] as u16) * 256)
        };
        Some((Instruction(c.opcode, c.addressing_mode, operand), n + 1))
    }
}

pub open spec fn instructions_view(v: Seq<Instruction>) -> Seq<InstructionV> {
    v.map_values(|i: Instruction| i@)
}

/// Disassembles as many bytes as possible; returns the instructions and how many bytes they take.
pub fn disassemble(data: &[u8]) -> (r: (Vec<Instruction>, usize))
    ensures
        (instructions_view(r.0@), r.1 as nat) == decode_all(data@),
{
    let mut output: Vec<Instruction> = Vec::new();
    let mut p: usize = 0;
    proof {
        assert(data@.subrange(0, data@.len() as int) =~= data@);
        assert(instructions_view(output@) + decode_all(data@).0 =~= decode_all(data@).0);
    }
    while p < data.len()
        invariant_except_break
            p <= data@.len(),
            decode_all(data@) == (instructions_view(output@) + decode_all(data@.subrange(p as int, data@.len() as int)).0,
                (p + decode_all(data@.subrange(p as int, data@.len() as int)).1) as nat),
        invariant
            p <= data@.len(),
        ensures
            p <= data@.len(),
            decode_all(data@) == (instructions_view(output@) + decode_all(data@.subrange(p as int, data@.len() as int)).0,
                (p + decode_all(data@.subrange(p as int, data@.len() as int)).1) as nat),
            decode_all(data@.subrange(p as int, data@.len() as int)).0.len() == 0,
            decode_all(data@.subrange(p as int, data@.len() as int)).1 == 0,
        decreases data@.len() - p,
    {
        let ghost rest = data@.subrange(p as int, data@.len() as int);
        let c = codepoint(data[p]);
        let n = c.addressing_mode.arity();
        if data.len() - p < n + 1 {
            proof {
                assert(rest[0] == data@[p as int]);
                assert(decode_instruction(rest) is None);
                assert(decode_all(rest).0 =~= Seq::<InstructionV>::empty());
                assert(decode_all(rest).1 == 0);
            }
            break;
        }
        let operand = if n == 0 {
            Operand::No
        } else if n == 1 {
            Operand::U8(data[p + 1])
        } else {
            Operand::U16(data[p + 1] as u16 + (data[p + 2] as u16) * 256)
        };
        let ins = Instruction(c.opcode, c.addressing_mode, operand);
        let ghost before = instructions_view(output@);
        output.push(ins);
        proof {
            assert(rest.subrange((n + 1) as int, rest.len() as int) =~= data@.subrange(p + n + 1, data@.len() as int));
            assert(instructions_view(output@) =~= before + seq![ins@]);
            let tail = decode_all(data@.subrange(p + n + 1, data@.len() as int));
            assert(before + (seq![ins@] + tail.0) =~= before + seq![ins@] + tail.0);
        }
        p = p + n + 1;
    }
    proof {
        let rest = data@.subrange(p as int, data@.len() as int);
        assert(decode_all(rest).0 =~= Seq::<InstructionV>::empty());
        assert(instructions_view(output@) + Seq::<InstructionV>::empty() =~= instructions_view(output@));
    }
    (output, p)
}

/// The bytes of an instruction with a literal operand: the opcode byte, then the operand,
/// little-endian.
pub open spec fn encoding(opcode: u8, v: OperandV) -> Seq<u8> {
    match v {
        OperandV::U8(b) => seq![opcode, b],
        OperandV::U16(w) => seq![opcode, (w % 256) as u8, (w / 256) as u8],
        _ => seq![opcode],
    }
}

/// The operand is a literal of the size that the mode takes.
pub open spec fn operand_fits(m: AddressingMode, v: OperandV) -> bool {
    match v {
        OperandV::No => m.arity_of() == 0,
        OperandV::U8(_) => m.arity_of() == 1,
        OperandV::U16(_) => m.arity_of() == 2,
        OperandV::Label(_) => false,
    }
}

/// Encoding an instruction whose pair is in the table, with a literal operand of the
/// mode's size, and decoding the bytes gives the instruction back, with the mode's length.
pub proof fn lemma_round_trip(o: Opcode, m: AddressingMode, v: OperandV)
    requires
        in_table(cp(o, m)),
        m != AddressingMode::J,
        operand_fits(m, v),
    ensures
        opcode_byte(cp(o, m)) is Some,
        decode_instruction(encoding(opcode_byte(cp(o, m))->0, v)) == Some((InstructionV(o, m, v), m.len_of())),
{
    let c = cp(o, m);
    let b0 = choose|b: u8| codepoint_of(b) == c;
    first_index_exists(c, b0);
    let b = opcode_byte(c)->0;
    assert(codepoint_of(b) == c);
    if let OperandV::U16(w) = v {
        assert(word((w % 256) as u8, (w / 256) as u8) == w);
    }
}

/// A pair in the table has a lowest byte.
proof fn first_index_exists(c: crate::isa::Codepoint, b: u8)
    requires
        codepoint_of(b) == c,
    ensures
        exists|f: u8| is_first_index(c, f),
    decreases b,
{
    if forall|j: u8| j < b ==> #[trigger] codepoint_of(j) != c {
        assert(is_first_index(c, b));
    } else {
        let j = choose|j: u8| j < b && #[trigger] codepoint_of(j) == c;
        first_index_exists(c, j);
    }
}

/// `bs` with the bytes of `e` written from offset `off` on.
pub open spec fn splice(bs: Seq<u8>, off: int, e: Seq<u8>) -> Seq<u8> {
    Seq::new(bs.len(), |i: int| if off <= i < off + e.len() { e[i - off] } else { bs[i] })
}

proof fn lemma_offset_step(a: u16, k: u16)
    requires
        (a & 0x1FFF) + k <= 0x1FFF,
    ensures
        add16(a as int, k as int) & 0x1FFF == (a & 0x1FFF) + k,
{
    assert(((a + k) as u16) & 0x1FFF == (a & 0x1FFF) + k && a + k < 0x10000) by (bit_vector)
        requires
            (a & 0x1FFF) + k <= 0x1FFF,
    ;
}

/// The first pass emits an instruction with a literal operand as its encoding, at the
/// bank offset of the current address, and advances the address by the mode's length;
/// this holds when the bank is declared and the bytes stay inside it.
pub proof fn lemma_step_emits_encoding(st: AsmV, o: Opcode, m: AddressingMode, v: OperandV, line: usize)
    requires
        asm_wf(st),
        in_table(cp(o, m)),
        m != AddressingMode::J,
        operand_fits(m, v),
        st.bank is Some,
        st.banks is Some,
        st.bank->0 < 2 * st.prg->0 + st.chr->0,
        (st.address & 0x1FFF) + m.len_of() <= 0x2000,
    ensures
        step(st, StatementV::Instruction(InstructionV(o, m, v)), line) matches Ok(s2) && {
            &&& s2.address == add16(st.address as int, m.len_of() as int)
            &&& s2.banks == Some(
                splice(st.banks->0, bank_offset(st.bank->0, st.address), encoding(opcode_byte(cp(o, m))->0, v)),
            )
        },
{
    lemma_round_trip(o, m, v);
    let b = st.bank->0;
    let a = st.address;
    let bs = st.banks->0;
    let op = opcode_byte(cp(o, m))->0;
    let e = encoding(op, v);
    let off = bank_offset(b, a);
    let p = st.prg->0 as int;
    let c = st.chr->0 as int;
    assert(b * 8192 + 0x2000 <= bs.len()) by (nonlinear_arith)
        requires
            b < 2 * p + c,
            bs.len() == p * 16384 + c * 8192,
    ;
    lemma_offset_step(a, 0);
    if m.len_of() >= 2 {
        lemma_offset_step(a, 1);
    }
    if m.len_of() >= 3 {
        lemma_offset_step(a, 2);
        assert(add16(add16(a as int, 1) as int, 1) == add16(a as int, 2));
    }
    let s2 = step(st, StatementV::Instruction(InstructionV(o, m, v)), line)->Ok_0;
    assert(s2.banks->0 =~= splice(bs, off, e));
}

/// The upper-case hexadecimal digit of a value below 16.
pub open spec fn hex_digit(d: int) -> char {
    if d < 10 {
        ('0' as int + d) as char
    } else {
        ('A' as int + d - 10) as char
    }
}

pub open spec fn hex2(b: int) -> Seq<char> {
    seq![hex_digit(b / 16), hex_digit(b % 16)]
}

/// An operand as written in source: `$` and two or four hexadecimal digits, or the label.
pub open spec fn operand_text(v: OperandV) -> Seq<char> {
    match v {
        OperandV::No => Seq::empty(),
        OperandV::U8(b) => seq!['$'] + hex2(b as int),
        OperandV::U16(w) => seq!['$'] + hex2(w as int / 256) + hex2(w as int % 256),
        OperandV::Label(l) => l,
    }
}

/// An instruction as written in source: the mnemonic, then the operand in the form of its mode.
pub open spec fn instruction_text(i: InstructionV) -> Seq<char> {
    let op = operand_text(i.2);
    mnemonic_of(i.0) + match i.1 {
        AddressingMode::IMPL | AddressingMode::J => Seq::empty(),
        AddressingMode::A => seq![' ', 'A'],
        AddressingMode::IMM => seq![' ', '#'] + op,
        AddressingMode::IND => seq![' ', '('] + op + seq![')'],
        AddressingMode::IND_Y => seq![' ', '('] + op + seq![')', ',', 'Y'],
        AddressingMode::X_IND => seq![' ', '('] + op + seq![',', 'X', ')'],
        AddressingMode::ABS_X | AddressingMode::ZPG_X => seq![' '] + op + seq![',', 'X'],
        AddressingMode::ABS_Y | AddressingMode::ZPG_Y => seq![' '] + op + seq![',', 'Y'],
        _ => seq![' '] + op,
    }
}

fn push_hex2(out: &mut Vec<char>, b: u8)
    ensures
        final(out)@ == old(out)@ + hex2(b as int),
{
    let hi = b / 16;
    let lo = b % 16;
    out.push(if hi < 10 { ((48 + hi) as u8) as char } else { ((55 + hi) as u8) as char });
    out.push(if lo < 10 { ((48 + lo) as u8) as char } else { ((55 + lo) as u8) as char });
    assert(final(out)@ =~= old(out)@ + hex2(b as int));
}

fn push_all(out: &mut Vec<char>, s: &String)
    ensures
        final(out)@ == old(out)@ + s@,
{
    let cs = crate::text::chars_of(s.as_str());
    let mut i: usize = 0;
    while i < cs.len()
        invariant
            i <= cs@.len(),
            cs@ == s@,
            out@ == old(out)@ + cs@.subrange(0, i as int),
        decreases cs@.len() - i,
    {
        out.push(cs[i]);
        i = i + 1;
        assert(out@ =~= old(out)@ + cs@.subrange(0, i as int));
    }
    assert(cs@.subrange(0, i as int) =~= cs@);
}

fn push_operand(out: &mut Vec<char>, v: &Operand)
    ensures
        final(out)@ == old(out)@ + operand_text(v@),
{
    match v {
        Operand::No => {
            assert(out@ =~= old(out)@ + operand_text(v@));
        },
        Operand::U8(b) => {
            out.push('$');
            push_hex2(out, *b);
            assert(out@ =~= old(out)@ + operand_text(v@));
        },
        Operand::U16(w) => {
            out.push('$');
            push_hex2(out, (*w / 256) as u8);
            push_hex2(out, (*w % 256) as u8);
            assert(out@ =~= old(out)@ + operand_text(v@));
        },
        Operand::Label(l) => push_all(out, l),
    }
}

impl Instruction {
    /// The instruction in the syntax of the assembler, with numbers in hexadecimal.
    pub fn to_text(&self) -> (r: String)
        ensures
            r@ == instruction_text(self@),
    {
        let (c0, c1, c2) = mnemonic(self.0);
        let mut out: Vec<char> = Vec::new();
        out.push(c0);
        out.push(c1);
        out.push(c2);
        let ghost head = out@;
        match self.1 {
            AddressingMode::IMPL | AddressingMode::J => {},
            AddressingMode::A => {
                out.push(' ');
                out.push('A');
            },
            AddressingMode::IMM => {
                out.push(' ');
                out.push('#');
                push_operand(&mut out, &self.2);
            },
            AddressingMode::IND | AddressingMode::IND_Y | AddressingMode::X_IND => {
                out.push(' ');
                out.push('(');
                push_operand(&mut out, &self.2);
                match self.1 {
                    AddressingMode::IND => out.push(')'),
                    AddressingMode::IND_Y => {
                        out.push(')');
                        out.push(',');
                        out.push('Y');
                    },
                    _ => {
                        out.push(',');
                        out.push('X');
                        out.push(')');
                    },
                }
            },
            _ => {
                out.push(' ');
                push_operand(&mut out, &self.2);
                match self.1 {
                    AddressingMode::ABS_X | AddressingMode::ZPG_X => {
                        out.push(',');
                        out.push('X');
                    },
                    AddressingMode::ABS_Y | AddressingMode::ZPG_Y => {
                        out.push(',');
                        out.push('Y');
                    },
                    _ => {},
                }
            },
        }
        assert(out@ =~= instruction_text(self@));
        string_of(&out)
    }
}

} // verus!
