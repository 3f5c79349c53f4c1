//! The logical assembler: two passes over the statements produce the iNES image.
//! The first emits bytes into the banks and records labels and the places that use
//! them; the second writes each label's address into those places.
use crate::error::{err, AsmnesError, ErrorKind};
use crate::ines::{image_len, Ines, BANK_SIZE, CHR_UNIT, PRG_UNIT};
use crate::isa::{codepoint_index, cp, in_table, is_first_index, AddressingMode, Codepoint};
use crate::lexer::{lex, lex_spec};
use crate::machine::add16;
use crate::parser::{parse, parse_from, statements_view};
use crate::statement::{
    DStatement, Directive, Instruction, InstructionV, Operand, OperandV, Statement, StatementV,
};
use vstd::prelude::*;

verus! {

/// A use of a label whose address is written in the second pass.
pub struct UnresolvedV {
    pub bank: Option<u16>,
    pub address: u16,
    pub label: Seq<char>,
    pub line: usize,
}

/// What the first pass keeps track of.
pub struct AsmV {
    /// Allocated once both PRG and CHR sizes are known.
    pub banks: Option<Seq<u8>>,
    pub labels: Seq<(Seq<char>, u16)>,
    pub unresolved: Seq<UnresolvedV>,
    pub prg: Option<u16>,
    pub chr: Option<u16>,
    pub mapper: Option<u16>,
    pub mirroring: Option<u16>,
    pub address: u16,
    pub bank: Option<u16>,
}

pub open spec fn initial_asm() -> AsmV {
    AsmV {
        banks: None,
        labels: Seq::empty(),
        unresolved: Seq::empty(),
        prg: None,
        chr: None,
        mapper: None,
        mirroring: None,
        address: 0,
        bank: None,
    }
}

/// The address of a label: the first definition with the name.
pub open spec fn find_label(labels: Seq<(Seq<char>, u16)>, name: Seq<char>) -> Option<u16>
    decreases labels.len(),
{
    if labels.len() == 0 {
        None
    } else if labels[0].0 == name {
        Some(labels[0].1)
    } else {
        find_label(labels.drop_first(), name)
    }
}

/// The opcode byte of a pair: the lowest byte of the table that stands for it.
pub open spec fn opcode_byte(c: Codepoint) -> Option<u8> {
    if in_table(c) {
        Some(choose|b: u8| is_first_index(c, b))
    } else {
        None
    }
}

/// Where a byte for `bank` at `address` goes: the low 13 bits of the address are the
/// offset into the bank.
pub open spec fn bank_offset(bank: u16, address: u16) -> int {
    bank * BANK_SIZE + (address & 0x1FFF)
}

/// The banks after writing a byte at an address of a bank.
pub open spec fn write_at(st: AsmV, bank: Option<u16>, address: u16, line: usize, byte: u8) -> Result<Seq<u8>, AsmnesError> {
    match bank {
        None => Err(AsmnesError { line, kind: ErrorKind::NoBankSelected }),
        Some(b) => match (st.banks, st.prg, st.chr) {
            (Some(bs), Some(p), Some(c)) => if b >= 2 * p + c {
                Err(AsmnesError { line, kind: ErrorKind::BankOutOfRange })
            } else {
                Ok(bs.update(bank_offset(b, address), byte))
            },
            _ => Err(AsmnesError { line, kind: ErrorKind::BanksNotAllocated }),
        },
    }
}

/// Emits a byte at the current bank and address, and advances the address.
pub open spec fn emit(st: AsmV, line: usize, byte: u8) -> Result<AsmV, AsmnesError> {
    match write_at(st, st.bank, st.address, line, byte) {
        Ok(bs) => Ok(AsmV { banks: Some(bs), address: add16(st.address as int, 1), ..st }),
        Err(e) => Err(e),
    }
}

/// Emits an operand: nothing, one byte, or two bytes little-endian. A label operand
/// is recorded with the current bank and address, and two bytes are skipped.
pub open spec fn emit_operand(st: AsmV, v: OperandV, line: usize) -> Result<AsmV, AsmnesError> {
    match v {
        OperandV::No => Ok(st),
        OperandV::U8(b) => emit(st, line, b),
        OperandV::U16(w) => match emit(st, line, (w % 256) as u8) {
            Ok(st1) => emit(st1, line, (w / 256) as u8),
            Err(e) => Err(e),
        },
        OperandV::Label(l) => Ok(AsmV {
            unresolved: st.unresolved.push(UnresolvedV { bank: st.bank, address: st.address, label: l, line }),
            address: add16(st.address as int, 2),
            ..st
        }),
    }
}

pub open spec fn operand_len(v: OperandV) -> nat {
    match v {
        OperandV::No => 0,
        OperandV::U8(_) => 1,
        OperandV::U16(_) | OperandV::Label(_) => 2,
    }
}

/// Zeroed banks for the declared sizes.
pub open spec fn zeros(prg: u16, chr: u16) -> Seq<u8> {
    Seq::new(image_len(prg as int, chr as int) as nat, |_i: int| 0u8)
}

/// The first pass on one statement.
pub open spec fn step(st: AsmV, s: StatementV, line: usize) -> Result<AsmV, AsmnesError> {
    match s {
        StatementV::Comment(_) => Ok(st),
        StatementV::Label(l) => if find_label(st.labels, l) is Some {
            Err(AsmnesError { line, kind: ErrorKind::LabelRedefined })
        } else {
            Ok(AsmV { labels: st.labels.push((l, st.address)), ..st })
        },
        StatementV::Directive(d) => match d {
            Directive::Bank(b) => Ok(AsmV { bank: Some(b), ..st }),
            Directive::Org(a) => Ok(AsmV { address: a, ..st }),
            Directive::Ds(n) => Ok(AsmV { address: add16(st.address as int, n as int), ..st }),
            Directive::Db(b) => emit(st, line, b),
            Directive::Inesprg(n) => if st.prg is Some {
                Err(AsmnesError { line, kind: ErrorKind::HeaderRedefined })
            } else {
                Ok(AsmV {
                    prg: Some(n),
                    banks: match st.chr {
                        Some(c) => Some(zeros(n, c)),
                        None => st.banks,
                    },
                    ..st
                })
            },
            Directive::Ineschr(n) => if st.chr is Some {
                Err(AsmnesError { line, kind: ErrorKind::HeaderRedefined })
            } else {
                Ok(AsmV {
                    chr: Some(n),
                    banks: match st.prg {
                        Some(p) => Some(zeros(p, n)),
                        None => st.banks,
                    },
                    ..st
                })
            },
            Directive::Inesmap(n) => Ok(AsmV { mapper: Some(n), ..st }),
            Directive::Inesmir(n) => Ok(AsmV { mirroring: Some(n), ..st }),
        },
        StatementV::Instruction(InstructionV(o, m, v)) => match opcode_byte(cp(o, m)) {
            None => Err(AsmnesError { line, kind: ErrorKind::UnknownCodepoint }),
            Some(b) => match emit(st, line, b) {
                Err(e) => Err(e),
                Ok(st1) => match emit_operand(st1, v, line) {
                    Err(e) => Err(e),
                    Ok(st2) => if operand_len(v) + 1 != m.len_of() {
                        Err(AsmnesError { line, kind: ErrorKind::OperandSizeMismatch })
                    } else {
                        Ok(st2)
                    },
                },
            },
        },
    }
}

/// The first pass over the statements.
pub open spec fn pass1(stmts: Seq<(StatementV, usize)>) -> Result<AsmV, AsmnesError>
    decreases stmts.len(),
{
    if stmts.len() == 0 {
        Ok(initial_asm())
    } else {
        match pass1(stmts.drop_last()) {
            Ok(st) => step(st, stmts.last().0, stmts.last().1),
            Err(e) => Err(e),
        }
    }
}

/// The second pass over the first `k` label uses: each gets the label's address, little-endian.
pub open spec fn resolve(st: AsmV, k: nat) -> Result<AsmV, AsmnesError>
    decreases k,
{
    if k == 0 || k > st.unresolved.len() {
        Ok(st)
    } else {
        match resolve(st, (k - 1) as nat) {
            Err(e) => Err(e),
            Ok(s1) => {
                let u = st.unresolved[k - 1];
                match find_label(st.labels, u.label) {
                    None => Err(AsmnesError { line: u.line, kind: ErrorKind::UndefinedLabel }),
                    Some(v) => match write_at(s1, u.bank, u.address, u.line, (v % 256) as u8) {
                        Err(e) => Err(e),
                        Ok(b1) => match write_at(
                            AsmV { banks: Some(b1), ..s1 },
                            u.bank,
                            add16(u.address as int, 1),
                            u.line,
                            (v / 256) as u8,
                        ) {
                            Err(e) => Err(e),
                            Ok(b2) => Ok(AsmV { banks: Some(b2), ..s1 }),
                        },
                    },
                }
            },
        }
    }
}

/// The assembled image: header fields, banks, labels.
pub struct InesV {
    pub inesprg: u16,
    pub ineschr: u16,
    pub mirroring: u16,
    pub mapper: u16,
    pub banks: Seq<u8>,
    pub labels: Seq<(Seq<char>, u16)>,
}

pub open spec fn ines_view(ines: Ines) -> InesV {
    InesV {
        inesprg: ines.inesprg,
        ineschr: ines.ineschr,
        mirroring: ines.mirroring,
        mapper: ines.mapper,
        banks: ines.banks@,
        labels: ines.labels@.map_values(|p: (String, u16)| (p.0@, p.1)),
    }
}

/// Both passes, then the header fields that must all have been given.
pub open spec fn assemble_statements(stmts: Seq<(StatementV, usize)>) -> Result<InesV, AsmnesError> {
    match pass1(stmts) {
        Err(e) => Err(e),
        Ok(st0) => match resolve(st0, st0.unresolved.len()) {
            Err(e) => Err(e),
            Ok(st) => if st.prg is None {
                Err(AsmnesError { line: 0, kind: ErrorKind::MissingInesprg })
            } else if st.chr is None {
                Err(AsmnesError { line: 0, kind: ErrorKind::MissingIneschr })
            } else if st.mirroring is None {
                Err(AsmnesError { line: 0, kind: ErrorKind::MissingInesmir })
            } else if st.mapper is None {
                Err(AsmnesError { line: 0, kind: ErrorKind::MissingInesmap })
            } else if st.banks is None {
                Err(AsmnesError { line: 0, kind: ErrorKind::MissingInesprg })
            } else {
                Ok(InesV {
                    inesprg: st.prg->0,
                    ineschr: st.chr->0,
                    mirroring: st.mirroring->0,
                    mapper: st.mapper->0,
                    banks: st.banks->0,
                    labels: st.labels,
                })
            },
        },
    }
}

/// The state of the first pass is consistent: banks exist once both sizes are known,
/// and have the size the two declare.
pub open spec fn asm_wf(st: AsmV) -> bool {
    &&& (st.banks is Some <==> (st.prg is Some && st.chr is Some))
    &&& st.banks is Some ==> st.banks->0.len() == image_len(st.prg->0 as int, st.chr->0 as int)
}

struct Unresolved {
    bank: Option<u16>,
    address: u16,
    label: String,
    line: usize,
}

struct Pass {
    banks: Option<Vec<u8>>,
    labels: Vec<(String, u16)>,
    unresolved: Vec<Unresolved>,
    prg: Option<u16>,
    chr: Option<u16>,
    mapper: Option<u16>,
    mirroring: Option<u16>,
    address: u16,
    bank: Option<u16>,
}

pub open spec fn labels_view(labels: Seq<(String, u16)>) -> Seq<(Seq<char>, u16)> {
    labels.map_values(|p: (String, u16)| (p.0@, p.1))
}

impl Pass {
    spec fn view(&self) -> AsmV {
        AsmV {
            banks: match self.banks {
                Some(b) => Some(b@),
                None => None,
            },
            labels: labels_view(self.labels@),
            unresolved: self.unresolved@.map_values(
                |u: Unresolved| UnresolvedV { bank: u.bank, address: u.address, label: u.label@, line: u.line },
            ),
            prg: self.prg,
            chr: self.chr,
            mapper: self.mapper,
            mirroring: self.mirroring,
            address: self.address,
            bank: self.bank,
        }
    }
}

/// Zeroed banks: `inesprg` units of 16 KiB, then `ineschr` units of 8 KiB.
fn create_banks(inesprg: u16, ineschr: u16) -> (r: Vec<u8>)
    ensures
        r@ == zeros(inesprg, ineschr),
{
    let n = inesprg as usize * PRG_UNIT + ineschr as usize * CHR_UNIT;
    let mut r: Vec<u8> = Vec::new();
    while r.len() < n
        invariant
            r.len() <= n,
            n == image_len(inesprg as int, ineschr as int),
            r@ == Seq::new(r.len() as nat, |_i: int| 0u8),
        decreases n - r.len(),
    {
        r.push(0);
        assert(r@ =~= Seq::new(r.len() as nat, |_i: int| 0u8));
    }
    r
}

/// The address of a label.
fn lookup(labels: &Vec<(String, u16)>, name: &String) -> (r: Option<u16>)
    ensures
        r == find_label(labels_view(labels@), name@),
{
    let ghost all = labels_view(labels@);
    assert(all.subrange(0, all.len() as int) =~= all);
    let mut i: usize = 0;
    while i < labels.len()
        invariant
            i <= labels@.len(),
            all == labels_view(labels@),
            find_label(all, name@) == find_label(all.subrange(i as int, all.len() as int), name@),
        decreases labels@.len() - i,
    {
        let ghost rest = all.subrange(i as int, all.len() as int);
        assert(rest.drop_first() =~= all.subrange(i + 1, all.len() as int));
        if labels[i].0 == *name {
            return Some(labels[i].1);
        }
        i = i + 1;
    }
    None
}

/// Writes a byte at an address of a bank.
fn write_byte(pass: &mut Pass, bank: Option<u16>, address: u16, line: usize, byte: u8) -> (r: Result<(), AsmnesError>)
    requires
        asm_wf(old(pass)@),
    ensures
        match write_at(old(pass)@, bank, address, line, byte) {
            Ok(bs) => r is Ok && final(pass)@ == (AsmV { banks: Some(bs), ..old(pass)@ }),
            Err(e) => r == Err::<(), AsmnesError>(e),
        },
        asm_wf(final(pass)@),
{
    let b = match bank {
        Some(b) => b,
        None => {
            return Err(err(ErrorKind::NoBankSelected, line));
        },
    };
    let (p, c) = match (pass.prg, pass.chr) {
        (Some(p), Some(c)) => (p, c),
        _ => {
            return Err(err(ErrorKind::BanksNotAllocated, line));
        },
    };
    if b as usize >= 2 * p as usize + c as usize {
        return Err(err(ErrorKind::BankOutOfRange, line));
    }
    let offset = b as usize * BANK_SIZE + (address & 0x1FFF) as usize;
    proof {
        let a = address & 0x1FFF;
        assert(a < 8192) by (bit_vector)
            requires
                a == address & 0x1FFF,
        ;
        assert(offset < image_len(p as int, c as int)) by (nonlinear_arith)
            requires
                offset == b * 8192 + a,
                a < 8192,
                b < 2 * p + c,
        ;
    }
    match &mut pass.banks {
        Some(bs) => {
            bs[offset] = byte;
        },
        None => {},
    }
    Ok(())
}

/// Emits a byte at the current bank and address, and advances the address.
fn emit_byte(pass: &mut Pass, line: usize, byte: u8) -> (r: Result<(), AsmnesError>)
    requires
        asm_wf(old(pass)@),
    ensures
        match emit(old(pass)@, line, byte) {
            Ok(st) => r is Ok && final(pass)@ == st,
            Err(e) => r == Err::<(), AsmnesError>(e),
        },
        asm_wf(final(pass)@),
{
    let bank = pass.bank;
    let address = pass.address;
    match write_byte(pass, bank, address, line, byte) {
        Ok(()) => {},
        Err(e) => {
            return Err(e);
        },
    }
    pass.address = pass.address.wrapping_add(1);
    Ok(())
}

proof fn lemma_opcode_byte(c: Codepoint, b: u8)
    requires
        is_first_index(c, b),
    ensures
        opcode_byte(c) == Some(b),
{
    assert(in_table(c));
    let b2 = choose|b2: u8| is_first_index(c, b2);
    assert(is_first_index(c, b2));
    if b2 < b {
        assert(crate::isa::codepoint_of(b2) == c);
    } else if b < b2 {
        assert(crate::isa::codepoint_of(b) == c);
    }
}

/// Runs the first pass on a directive.
fn step_directive(pass: &mut Pass, d: Directive, line: usize) -> (r: Result<(), AsmnesError>)
    requires
        asm_wf(old(pass)@),
    ensures
        match step(old(pass)@, StatementV::Directive(d), line) {
            Ok(st) => r is Ok && final(pass)@ == st,
            Err(e) => r == Err::<(), AsmnesError>(e),
        },
        asm_wf(final(pass)@),
{
    match d {
        Directive::Bank(b) => {
            pass.bank = Some(b);
        },
        Directive::Org(a) => {
            pass.address = a;
        },
        Directive::Ds(n) => {
            pass.address = pass.address.wrapping_add(n);
        },
        Directive::Db(b) => {
            return emit_byte(pass, line, b);
        },
        Directive::Inesprg(n) => {
            if pass.prg.is_some() {
                return Err(err(ErrorKind::HeaderRedefined, line));
            }
            pass.prg = Some(n);
            if let Some(c) = pass.chr {
                pass.banks = Some(create_banks(n, c));
            }
        },
        Directive::Ineschr(n) => {
            if pass.chr.is_some() {
                return Err(err(ErrorKind::HeaderRedefined, line));
            }
            pass.chr = Some(n);
            if let Some(p) = pass.prg {
                pass.banks = Some(create_banks(p, n));
            }
        },
        Directive::Inesmap(n) => {
            pass.mapper = Some(n);
        },
        Directive::Inesmir(n) => {
            pass.mirroring = Some(n);
        },
    }
    Ok(())
}

/// Runs the first pass on an instruction.
fn step_instruction(pass: &mut Pass, ins: &Instruction, line: usize) -> (r: Result<(), AsmnesError>)
    requires
        asm_wf(old(pass)@),
    ensures
        match step(old(pass)@, StatementV::Instruction(ins@), line) {
            Ok(st) => r is Ok && final(pass)@ == st,
            Err(e) => r == Err::<(), AsmnesError>(e),
        },
        asm_wf(final(pass)@),
{
    let Instruction(o, m, v) = ins;
    let c = Codepoint { opcode: *o, addressing_mode: *m };
    let b = match codepoint_index(c) {
        Some(b) => b,
        None => {
            return Err(err(ErrorKind::UnknownCodepoint, line));
        },
    };
    proof {
        lemma_opcode_byte(c, b);
    }
    match emit_byte(pass, line, b) {
        Ok(()) => {},
        Err(e) => {
            return Err(e);
        },
    }
    let len: u16 = match v {
        Operand::No => 1,
        Operand::U8(x) => {
            match emit_byte(pass, line, *x) {
                Ok(()) => {},
                Err(e) => {
                    return Err(e);
                },
            }
            2
        },
        Operand::U16(w) => {
            match emit_byte(pass, line, (*w % 256) as u8) {
                Ok(()) => {},
                Err(e) => {
                    return Err(e);
                },
            }
            match emit_byte(pass, line, (*w / 256) as u8) {
                Ok(()) => {},
                Err(e) => {
                    return Err(e);
                },
            }
            3
        },
        Operand::Label(l) => {
            let ghost before = pass@.unresolved;
            let ghost u = UnresolvedV { bank: pass.bank, address: pass.address, label: l@, line };
            pass.unresolved.push(Unresolved { bank: pass.bank, address: pass.address, label: l.clone(), line });
            assert(pass@.unresolved =~= before.push(u));
            pass.address = pass.address.wrapping_add(2);
            3
        },
    };
    if *m == AddressingMode::J || len != m.get_len() {
        return Err(err(ErrorKind::OperandSizeMismatch, line));
    }
    Ok(())
}

/// Runs the first pass on a statement.
fn step_statement(pass: &mut Pass, s: &DStatement) -> (r: Result<(), AsmnesError>)
    requires
        asm_wf(old(pass)@),
    ensures
        match step(old(pass)@, s.statement@, s.line) {
            Ok(st) => r is Ok && final(pass)@ == st,
            Err(e) => r == Err::<(), AsmnesError>(e),
        },
        asm_wf(final(pass)@),
{
    let line = s.line;
    match &s.statement {
        Statement::Comment(_) => Ok(()),
        Statement::Label(l) => {
            if lookup(&pass.labels, l).is_some() {
                return Err(err(ErrorKind::LabelRedefined, line));
            }
            let ghost before = pass.labels@;
            pass.labels.push((l.clone(), pass.address));
            assert(labels_view(pass.labels@) =~= labels_view(before).push((l@, pass.address)));
            Ok(())
        },
        Statement::Directive(d) => step_directive(pass, *d, line),
        Statement::Instruction(ins) => step_instruction(pass, ins, line),
    }
}

/// The second pass succeeds only when every label used is defined somewhere in the
/// program, before or after its use; the first use of an undefined label fails it with
/// that use's line, unless a write before it failed.
pub proof fn lemma_resolve_needs_labels(st: AsmV, k: nat)
    requires
        k <= st.unresolved.len(),
    ensures
        resolve(st, k) is Ok ==> forall|j: int| 0 <= j < k ==> #[trigger] find_label(st.labels, st.unresolved[j].label) is Some,
        forall|j: int|
            0 <= j < k && resolve(st, j as nat) is Ok && #[trigger] find_label(st.labels, st.unresolved[j].label) is None
                ==> resolve(st, (j + 1) as nat) == Err::<AsmV, AsmnesError>(
                AsmnesError { line: st.unresolved[j].line, kind: ErrorKind::UndefinedLabel },
            ),
    decreases k,
{
    if k > 0 {
        lemma_resolve_needs_labels(st, (k - 1) as nat);
        assert forall|j: int| 0 <= j < k && resolve(st, j as nat) is Ok && #[trigger] find_label(st.labels, st.unresolved[j].label) is None
            implies resolve(st, (j + 1) as nat) == Err::<AsmV, AsmnesError>(
                AsmnesError { line: st.unresolved[j].line, kind: ErrorKind::UndefinedLabel },
            ) by {
            assert(((j + 1) as nat - 1) as nat == j as nat);
        }
        if resolve(st, k) is Ok {
            assert(((k as int - 1) + 1) as nat == k);
        }
    }
}

/// The second pass writes a label's address where the label is used: low byte at the
/// use's address, high byte at the next one, in the use's bank.
pub proof fn lemma_resolve_writes_address(st: AsmV, k: nat)
    requires
        asm_wf(st),
        k < st.unresolved.len(),
        resolve(st, k + 1) is Ok,
    ensures
        ({
            let u = st.unresolved[k as int];
            let v = find_label(st.labels, u.label)->0;
            let bs = resolve(st, k + 1)->Ok_0.banks->0;
            &&& find_label(st.labels, u.label) is Some
            &&& u.bank is Some
            &&& bs[bank_offset(u.bank->0, add16(u.address as int, 1))] == (v / 256) as u8
            &&& bank_offset(u.bank->0, u.address) != bank_offset(u.bank->0, add16(u.address as int, 1))
                ==> bs[bank_offset(u.bank->0, u.address)] == (v % 256) as u8
        }),
{
    assert(((k + 1) as nat - 1) as nat == k);
    lemma_resolve_keeps(st, k);
    let u = st.unresolved[k as int];
    let b = u.bank->0;
    let s1 = resolve(st, k)->Ok_0;
    let p = s1.prg->0 as int;
    let c = s1.chr->0 as int;
    let ad = u.address;
    let ad1 = add16(ad as int, 1);
    assert((ad & 0x1FFF) < 0x2000 && (ad1 & 0x1FFF) < 0x2000) by (bit_vector);
    assert(b * 8192 + 0x2000 <= p * 16384 + c * 8192) by (nonlinear_arith)
        requires
            b < 2 * p + c,
    ;
}

/// A write stays inside the banks.
proof fn lemma_write_at_in_banks(st: AsmV, bank: Option<u16>, address: u16, line: usize, byte: u8)
    requires
        asm_wf(st),
    ensures
        write_at(st, bank, address, line, byte) matches Ok(bs2) ==> {
            &&& 0 <= bank_offset(bank->0, address) < st.banks->0.len()
            &&& bs2.len() == st.banks->0.len()
        },
{
    if let Ok(bs2) = write_at(st, bank, address, line, byte) {
        let b = bank->0;
        let p = st.prg->0 as int;
        let c = st.chr->0 as int;
        assert((address & 0x1FFF) < 0x2000) by (bit_vector);
        assert(b * 8192 + 0x2000 <= p * 16384 + c * 8192) by (nonlinear_arith)
            requires
                b < 2 * p + c,
        ;
    }
}

/// The second pass keeps the header fields and the banks' size.
proof fn lemma_resolve_keeps(st: AsmV, k: nat)
    requires
        asm_wf(st),
        k <= st.unresolved.len(),
    ensures
        resolve(st, k) matches Ok(s1) ==> asm_wf(s1) && s1.prg == st.prg && s1.chr == st.chr,
    decreases k,
{
    if k > 0 {
        lemma_resolve_keeps(st, (k - 1) as nat);
        if let Ok(s0) = resolve(st, (k - 1) as nat) {
            let u = st.unresolved[k - 1];
            if let Some(v) = find_label(st.labels, u.label) {
                lemma_write_at_in_banks(s0, u.bank, u.address, u.line, (v % 256) as u8);
                if let Ok(b1) = write_at(s0, u.bank, u.address, u.line, (v % 256) as u8) {
                    let s0b = AsmV { banks: Some(b1), ..s0 };
                    lemma_write_at_in_banks(s0b, u.bank, add16(u.address as int, 1), u.line, (v / 256) as u8);
                }
            }
        }
    }
}

/// Once the second pass fails, it fails with the same error to the end.
proof fn lemma_resolve_err(st: AsmV, j: nat, n: nat)
    requires
        j <= n <= st.unresolved.len(),
        resolve(st, j) is Err,
    ensures
        resolve(st, n) == resolve(st, j),
    decreases n,
{
    if n > j {
        lemma_resolve_err(st, j, (n - 1) as nat);
    }
}

/// Writes the address of each used label, little-endian, where it is used.
fn resolve_labels(pass: &mut Pass) -> (r: Result<(), AsmnesError>)
    requires
        asm_wf(old(pass)@),
    ensures
        match resolve(old(pass)@, old(pass)@.unresolved.len()) {
            Ok(st) => r is Ok && final(pass)@ == st,
            Err(e) => r == Err::<(), AsmnesError>(e),
        },
        asm_wf(final(pass)@),
{
    let ghost st0 = old(pass)@;
    let mut unresolved: Vec<Unresolved> = Vec::new();
    std::mem::swap(&mut unresolved, &mut pass.unresolved);
    let mut k: usize = 0;
    while k < unresolved.len()
        invariant
            st0 == old(pass)@,
            k <= unresolved@.len(),
            st0.unresolved == unresolved@.map_values(
                |u: Unresolved| UnresolvedV { bank: u.bank, address: u.address, label: u.label@, line: u.line },
            ),
            asm_wf(pass@),
            pass@.unresolved.len() == 0,
            resolve(st0, k as nat) == Ok::<AsmV, AsmnesError>(AsmV { unresolved: st0.unresolved, ..pass@ }),
            pass@.labels == st0.labels,
            pass@.prg == st0.prg,
            pass@.chr == st0.chr,
        decreases unresolved@.len() - k,
    {
        let u = &unresolved[k];
        let ghost uv = UnresolvedV { bank: u.bank, address: u.address, label: u.label@, line: u.line };
        assert(st0.unresolved[k as int] == uv);
        assert(((k + 1) as nat - 1) as nat == k as nat);
        let ghost s1 = AsmV { unresolved: st0.unresolved, ..pass@ };
        let value = match lookup(&pass.labels, &u.label) {
            Some(v) => v,
            None => {
                proof {
                    assert(resolve(st0, (k + 1) as nat) == Err::<AsmV, AsmnesError>(
                        AsmnesError { line: u.line, kind: ErrorKind::UndefinedLabel },
                    ));
                    lemma_resolve_err(st0, (k + 1) as nat, st0.unresolved.len());
                }
                return Err(err(ErrorKind::UndefinedLabel, u.line));
            },
        };
        match write_byte(pass, u.bank, u.address, u.line, (value % 256) as u8) {
            Ok(()) => {},
            Err(e) => {
                proof {
                    assert(write_at(s1, uv.bank, uv.address, uv.line, (value % 256) as u8) == Err::<Seq<u8>, AsmnesError>(e));
                    assert(resolve(st0, (k + 1) as nat) == Err::<AsmV, AsmnesError>(e));
                    lemma_resolve_err(st0, (k + 1) as nat, st0.unresolved.len());
                }
                return Err(e);
            },
        }
        let ghost s2 = AsmV { unresolved: st0.unresolved, ..pass@ };
        match write_byte(pass, u.bank, u.address.wrapping_add(1), u.line, (value / 256) as u8) {
            Ok(()) => {},
            Err(e) => {
                proof {
                    assert(write_at(s2, uv.bank, add16(uv.address as int, 1), uv.line, (value / 256) as u8) == Err::<Seq<u8>, AsmnesError>(e));
                    assert(resolve(st0, (k + 1) as nat) == Err::<AsmV, AsmnesError>(e));
                    lemma_resolve_err(st0, (k + 1) as nat, st0.unresolved.len());
                }
                return Err(e);
            },
        }
        k = k + 1;
    }
    pass.unresolved = unresolved;
    assert(pass@ == AsmV { unresolved: st0.unresolved, ..pass@ });
    Ok(())
}

/// Once the first pass fails, it fails with the same error to the end.
proof fn lemma_pass1_err(stmts: Seq<(StatementV, usize)>, j: int)
    requires
        0 <= j <= stmts.len(),
        pass1(stmts.subrange(0, j)) is Err,
    ensures
        pass1(stmts) == pass1(stmts.subrange(0, j)),
    decreases stmts.len() - j,
{
    if j < stmts.len() {
        assert(stmts.subrange(0, j + 1).drop_last() =~= stmts.subrange(0, j));
        lemma_pass1_err(stmts, j + 1);
    } else {
        assert(stmts.subrange(0, j) =~= stmts);
    }
}

/// Assembles the statements: the first pass emits bytes and defines labels, the second
/// writes the labels' addresses where they are used.
pub fn logical_assemble(program: &Vec<DStatement>) -> (r: Result<Ines, AsmnesError>)
    ensures
        match r {
            Ok(ines) => assemble_statements(statements_view(program@)) == Ok::<InesV, AsmnesError>(ines_view(ines)),
            Err(e) => assemble_statements(statements_view(program@)) == Err::<InesV, AsmnesError>(e),
        },
{
    let ghost stmts = statements_view(program@);
    let mut pass = Pass {
        banks: None,
        labels: Vec::new(),
        unresolved: Vec::new(),
        prg: None,
        chr: None,
        mapper: None,
        mirroring: None,
        address: 0,
        bank: None,
    };
    proof {
        assert(pass@.labels =~= Seq::<(Seq<char>, u16)>::empty());
        assert(pass@.unresolved =~= Seq::<UnresolvedV>::empty());
        assert(stmts.subrange(0, 0) =~= Seq::<(StatementV, usize)>::empty());
    }
    let mut i: usize = 0;
    while i < program.len()
        invariant
            i <= program@.len(),
            stmts == statements_view(program@),
            asm_wf(pass@),
            pass1(stmts.subrange(0, i as int)) == Ok::<AsmV, AsmnesError>(pass@),
        decreases program@.len() - i,
    {
        proof {
            assert(stmts.subrange(0, i + 1).drop_last() =~= stmts.subrange(0, i as int));
        }
        match step_statement(&mut pass, &program[i]) {
            Ok(()) => {},
            Err(e) => {
                proof {
                    lemma_pass1_err(stmts, i + 1);
                }
                return Err(e);
            },
        }
        i = i + 1;
    }
    proof {
        assert(stmts.subrange(0, i as int) =~= stmts);
    }
    match resolve_labels(&mut pass) {
        Ok(()) => {},
        Err(e) => {
            return Err(e);
        },
    }
    let inesprg = match pass.prg {
        Some(p) => p,
        None => {
            return Err(err(ErrorKind::MissingInesprg, 0));
        },
    };
    let ineschr = match pass.chr {
        Some(c) => c,
        None => {
            return Err(err(ErrorKind::MissingIneschr, 0));
        },
    };
    let mirroring = match pass.mirroring {
        Some(m) => m,
        None => {
            return Err(err(ErrorKind::MissingInesmir, 0));
        },
    };
    let mapper = match pass.mapper {
        Some(m) => m,
        None => {
            return Err(err(ErrorKind::MissingInesmap, 0));
        },
    };
    let Pass { banks, labels, .. } = pass;
    match banks {
        Some(banks) => Ok(Ines { inesprg, ineschr, mirroring, mapper, banks, labels }),
        None => Err(err(ErrorKind::MissingInesprg, 0)),
    }
}

/// What a source text assembles to: its tokens, their statements, then both passes.
pub open spec fn assemble_source(cs: Seq<char>) -> Result<InesV, AsmnesError> {
    match lex_spec(cs) {
        Err(e) => Err(e),
        Ok(toks) => match parse_from(toks, 0) {
            Err(e) => Err(e),
            Ok(stmts) => assemble_statements(stmts),
        },
    }
}

/// Fully assembles a program: lexing, parsing, and both passes.
pub fn assemble(program: &str) -> (r: Result<Ines, AsmnesError>)
    requires
        program@.len() < usize::MAX,
    ensures
        match r {
            Ok(ines) => assemble_source(program@) == Ok::<InesV, AsmnesError>(ines_view(ines)),
            Err(e) => assemble_source(program@) == Err::<InesV, AsmnesError>(e),
        },
{
    let tokens = match lex(program) {
        Ok(t) => t,
        Err(e) => {
            return Err(e);
        },
    };
    let statements = match parse(tokens) {
        Ok(s) => s,
        Err(e) => {
            return Err(e);
        },
    };
    logical_assemble(&statements)
}

} // verus!
