//! The parser: tokens to statements, one source line at a time.
use crate::error::{err, AsmnesError, ErrorKind};
use crate::isa::{cp, in_table, opcode_from_chars, opcode_named, supports, AddressingMode, Opcode};
use crate::lexer::{lex_spec, lemma_lex_lines, lines_nondecreasing, tokens_view, DToken, Token, TokenV};
use crate::statement::{
    DStatement, Directive, Instruction, InstructionV, Operand, OperandV, Statement, StatementV,
};
use crate::text::spells;
use vstd::prelude::*;

verus! {

/// The mnemonic that an identifier names.
pub open spec fn opcode_of_name(s: Seq<char>) -> Option<Opcode> {
    if s.len() == 3 {
        opcode_named(s[0], s[1], s[2])
    } else {
        None
    }
}

pub open spec fn has_mode(o: Opcode, m: AddressingMode) -> bool {
    in_table(cp(o, m))
}

pub open spec fn ins(o: Opcode, m: AddressingMode, v: OperandV) -> StatementV {
    StatementV::Instruction(InstructionV(o, m, v))
}

pub open spec fn known_directive(name: Seq<char>) -> bool {
    name == "org"@ || name == "bank"@ || name == "inesprg"@ || name == "ineschr"@ || name == "inesmap"@
        || name == "inesmir"@ || name == "db"@ || name == "ds"@
}

/// The directive a known name makes of its argument.
pub open spec fn directive_of(name: Seq<char>, n: u16) -> Result<Directive, ErrorKind> {
    if name == "org"@ {
        Ok(Directive::Org(n))
    } else if name == "bank"@ {
        Ok(Directive::Bank(n))
    } else if name == "inesprg"@ {
        Ok(Directive::Inesprg(n))
    } else if name == "ineschr"@ {
        Ok(Directive::Ineschr(n))
    } else if name == "inesmap"@ {
        Ok(Directive::Inesmap(n))
    } else if name == "inesmir"@ {
        Ok(Directive::Inesmir(n))
    } else if name == "db"@ {
        if n < 256 {
            Ok(Directive::Db(n as u8))
        } else {
            Err(ErrorKind::ExpectedU8)
        }
    } else {
        Ok(Directive::Ds(n))
    }
}

/// A directive line: `.name N`.
pub open spec fn directive_line(name: Seq<char>, t: Seq<TokenV>) -> Result<StatementV, ErrorKind> {
    if !known_directive(name) {
        Err(ErrorKind::UnknownDirective)
    } else if t.len() < 2 || !(t[1] is Num) {
        Err(ErrorKind::UnexpectedToken)
    } else {
        match directive_of(name, t[1]->Num_0) {
            Err(k) => Err(k),
            Ok(d) => if t.len() > 2 {
                Err(ErrorKind::UnexpectedToken)
            } else {
                Ok(StatementV::Directive(d))
            },
        }
    }
}

/// What follows an address operand: nothing (`None`), `,X` (`Some(true)`) or `,Y` (`Some(false)`).
pub open spec fn index_suffix(r: Seq<TokenV>) -> Option<Option<bool>> {
    if r.len() == 1 {
        Some(None)
    } else if r.len() == 3 && r[1] is Comma && r[2] is X {
        Some(Some(true))
    } else if r.len() == 3 && r[1] is Comma && r[2] is Y {
        Some(Some(false))
    } else {
        None
    }
}

/// A numeric operand: zero-page when the number fits in a byte and the mnemonic has that
/// zero-page form, absolute otherwise.
pub open spec fn numeric_line(o: Opcode, n: u16, r: Seq<TokenV>) -> Result<StatementV, ErrorKind> {
    let (zm, am) = match index_suffix(r) {
        Some(None) => (AddressingMode::ZPG, AddressingMode::ABS),
        Some(Some(true)) => (AddressingMode::ZPG_X, AddressingMode::ABS_X),
        _ => (AddressingMode::ZPG_Y, AddressingMode::ABS_Y),
    };
    if index_suffix(r) is None {
        Err(ErrorKind::UnexpectedToken)
    } else if n < 256 && has_mode(o, zm) {
        Ok(ins(o, zm, OperandV::U8(n as u8)))
    } else {
        Ok(ins(o, am, OperandV::U16(n)))
    }
}

/// A label operand: two bytes, filled in by the second pass.
pub open spec fn label_line(o: Opcode, l: Seq<char>, r: Seq<TokenV>) -> Result<StatementV, ErrorKind> {
    if has_mode(o, AddressingMode::REL) && r.len() == 1 {
        Ok(ins(o, AddressingMode::REL, OperandV::Label(l)))
    } else {
        match index_suffix(r) {
            Some(None) => Ok(ins(o, AddressingMode::ABS, OperandV::Label(l))),
            Some(Some(true)) => Ok(ins(o, AddressingMode::ABS_X, OperandV::Label(l))),
            Some(Some(false)) => Ok(ins(o, AddressingMode::ABS_Y, OperandV::Label(l))),
            None => Err(ErrorKind::UnexpectedToken),
        }
    }
}

/// The indirect forms: `(N)`, `(N),Y` and `(N,X)`.
pub open spec fn indirect_line(o: Opcode, r: Seq<TokenV>) -> Result<StatementV, ErrorKind> {
    if r.len() < 3 || !(r[1] is Num || r[1] is Ident) {
        Err(ErrorKind::UnexpectedToken)
    } else if r.len() == 3 && r[2] is ParenClose {
        match r[1] {
            TokenV::Num(n) => Ok(ins(o, AddressingMode::IND, OperandV::U16(n))),
            TokenV::Ident(l) => Ok(ins(o, AddressingMode::IND, OperandV::Label(l))),
            _ => Err(ErrorKind::UnexpectedToken),
        }
    } else if r.len() == 5 && ((r[2] is ParenClose && r[3] is Comma && r[4] is Y) || (r[2] is Comma
        && r[3] is X && r[4] is ParenClose)) {
        let m = if r[2] is ParenClose { AddressingMode::IND_Y } else { AddressingMode::X_IND };
        match r[1] {
            TokenV::Num(n) => if n < 256 {
                Ok(ins(o, m, OperandV::U8(n as u8)))
            } else {
                Err(ErrorKind::ExpectedU8)
            },
            _ => Err(ErrorKind::UnexpectedToken),
        }
    } else {
        Err(ErrorKind::UnexpectedToken)
    }
}

/// An instruction: the mnemonic's operand tokens `r` decide the addressing mode.
pub open spec fn operand_line(o: Opcode, r: Seq<TokenV>) -> Result<StatementV, ErrorKind> {
    if r.len() == 0 {
        Ok(ins(o, AddressingMode::IMPL, OperandV::No))
    } else {
        match r[0] {
            TokenV::Hash => if r.len() >= 2 && r[1] is Num {
                if r[1]->Num_0 >= 256 {
                    Err(ErrorKind::ExpectedU8)
                } else if r.len() > 2 {
                    Err(ErrorKind::UnexpectedToken)
                } else {
                    Ok(ins(o, AddressingMode::IMM, OperandV::U8(r[1]->Num_0 as u8)))
                }
            } else {
                Err(ErrorKind::UnexpectedToken)
            },
            TokenV::Num(n) => if has_mode(o, AddressingMode::REL) {
                if n >= 256 {
                    Err(ErrorKind::ExpectedU8)
                } else if r.len() > 1 {
                    Err(ErrorKind::UnexpectedToken)
                } else {
                    Ok(ins(o, AddressingMode::REL, OperandV::U8(n as u8)))
                }
            } else {
                numeric_line(o, n, r)
            },
            TokenV::Ident(l) => label_line(o, l, r),
            TokenV::ParenOpen => indirect_line(o, r),
            TokenV::A => if r.len() == 1 {
                Ok(ins(o, AddressingMode::A, OperandV::No))
            } else {
                Err(ErrorKind::UnexpectedToken)
            },
            _ => Err(ErrorKind::UnexpectedToken),
        }
    }
}

/// The statement of one line's tokens (without its newline), if any.
pub open spec fn parse_line_spec(t: Seq<TokenV>) -> Result<Option<StatementV>, ErrorKind> {
    if t.len() == 0 {
        Ok(None)
    } else {
        let r = match t[0] {
            TokenV::Directive(d) => directive_line(d, t),
            TokenV::Ident(i) => if t.len() >= 2 && t[1] is Colon {
                if t.len() == 2 {
                    Ok(StatementV::Label(i))
                } else {
                    Err(ErrorKind::UnexpectedToken)
                }
            } else {
                match opcode_of_name(i) {
                    Some(o) => operand_line(o, t.drop_first()),
                    None => Err(ErrorKind::UnknownMnemonic),
                }
            },
            _ => Err(ErrorKind::UnexpectedToken),
        };
        match r {
            Ok(s) => Ok(Some(s)),
            Err(k) => Err(k),
        }
    }
}

/// Index of the newline that ends the line starting at `i`, or the end.
pub open spec fn line_end(toks: Seq<(TokenV, usize)>, i: int) -> int
    decreases toks.len() - i,
{
    if i < 0 || i >= toks.len() {
        toks.len() as int
    } else if toks[i].0 is Newline {
        i
    } else {
        line_end(toks, i + 1)
    }
}

pub open spec fn line_tokens(toks: Seq<(TokenV, usize)>, i: int, e: int) -> Seq<TokenV> {
    toks.subrange(i, e).map_values(|d: (TokenV, usize)| d.0)
}

/// The statements of the lines from token `i` on, each with its line; or the first error.
pub open spec fn parse_from(toks: Seq<(TokenV, usize)>, i: int) -> Result<Seq<(StatementV, usize)>, AsmnesError>
    decreases toks.len() + 1 - i,
{
    let e = line_end(toks, i);
    if i < 0 || i >= toks.len() || e < i || e > toks.len() {
        Ok(Seq::empty())
    } else {
        match parse_line_spec(line_tokens(toks, i, e)) {
            Err(k) => Err(AsmnesError { line: toks[i].1, kind: k }),
            Ok(None) => parse_from(toks, e + 1),
            Ok(Some(st)) => match parse_from(toks, e + 1) {
                Ok(rest) => Ok(seq![(st, toks[i].1)] + rest),
                Err(x) => Err(x),
            },
        }
    }
}

pub open spec fn statements_view(out: Seq<DStatement>) -> Seq<(StatementV, usize)> {
    out.map_values(|d: DStatement| (d.statement@, d.line))
}

/// The result of the parser agrees with the statement the grammar gives.
pub open spec fn agrees(r: Result<Statement, ErrorKind>, s: Result<StatementV, ErrorKind>) -> bool {
    match r {
        Ok(st) => s == Ok::<StatementV, ErrorKind>(st@),
        Err(k) => s == Err::<StatementV, ErrorKind>(k),
    }
}

/// The mnemonic an identifier names.
fn parse_opcode(i: &String) -> (r: Option<Opcode>)
    ensures
        r == opcode_of_name(i@),
{
    let s = i.as_str();
    if s.unicode_len() == 3 {
        opcode_from_chars(s.get_char(0), s.get_char(1), s.get_char(2))
    } else {
        None
    }
}

/// The token at index `k` of the line `i..e`.
fn tok(toks: &Vec<DToken>, i: usize, e: usize, k: usize) -> (r: &Token)
    requires
        i + k < e <= toks@.len(),
    ensures
        r@ == line_tokens(tokens_view(toks@), i as int, e as int)[k as int],
{
    &toks[i + k].token
}

fn instruction(o: Opcode, m: AddressingMode, v: Operand) -> (r: Statement)
    ensures
        r@ == ins(o, m, v@),
{
    Statement::Instruction(Instruction(o, m, v))
}

/// Parses a directive line.
fn parse_directive(name: &String, toks: &Vec<DToken>, i: usize, e: usize) -> (r: Result<Statement, ErrorKind>)
    requires
        i < e <= toks@.len(),
    ensures
        agrees(r, directive_line(name@, line_tokens(tokens_view(toks@), i as int, e as int))),
{
    let known = spells(name, "org") || spells(name, "bank") || spells(name, "inesprg") || spells(
        name,
        "ineschr",
    ) || spells(name, "inesmap") || spells(name, "inesmir") || spells(name, "db") || spells(name, "ds");
    if !known {
        return Err(ErrorKind::UnknownDirective);
    }
    if e - i < 2 {
        return Err(ErrorKind::UnexpectedToken);
    }
    let n = match tok(toks, i, e, 1) {
        Token::Num(n) => *n,
        _ => {
            return Err(ErrorKind::UnexpectedToken);
        },
    };
    let d = if spells(name, "org") {
        Directive::Org(n)
    } else if spells(name, "bank") {
        Directive::Bank(n)
    } else if spells(name, "inesprg") {
        Directive::Inesprg(n)
    } else if spells(name, "ineschr") {
        Directive::Ineschr(n)
    } else if spells(name, "inesmap") {
        Directive::Inesmap(n)
    } else if spells(name, "inesmir") {
        Directive::Inesmir(n)
    } else if spells(name, "db") {
        if n < 256 {
            Directive::Db(n as u8)
        } else {
            return Err(ErrorKind::ExpectedU8);
        }
    } else {
        Directive::Ds(n)
    };
    if e - i > 2 {
        return Err(ErrorKind::UnexpectedToken);
    }
    Ok(Statement::Directive(d))
}

/// What follows an address operand at index 1 of `i..e`.
fn parse_index(toks: &Vec<DToken>, i: usize, e: usize) -> (r: Option<Option<bool>>)
    requires
        i < e <= toks@.len(),
    ensures
        r == index_suffix(line_tokens(tokens_view(toks@), i as int, e as int).drop_first()),
{
    if e - i == 2 {
        Some(None)
    } else if e - i == 4 {
        match (tok(toks, i, e, 2), tok(toks, i, e, 3)) {
            (Token::Comma, Token::X) => Some(Some(true)),
            (Token::Comma, Token::Y) => Some(Some(false)),
            _ => None,
        }
    } else {
        None
    }
}

/// Parses the operand of a mnemonic; the mnemonic is token 0 of `i..e`.
#[verifier::rlimit(60)]
fn parse_operand(o: Opcode, toks: &Vec<DToken>, i: usize, e: usize) -> (r: Result<Statement, ErrorKind>)
    requires
        i < e <= toks@.len(),
    ensures
        agrees(r, operand_line(o, line_tokens(tokens_view(toks@), i as int, e as int).drop_first())),
{
    if e - i == 1 {
        return Ok(instruction(o, AddressingMode::IMPL, Operand::No));
    }
    match tok(toks, i, e, 1) {
        Token::Hash => {
            if e - i >= 3 {
                if let Token::Num(n) = tok(toks, i, e, 2) {
                    if *n >= 256 {
                        Err(ErrorKind::ExpectedU8)
                    } else if e - i > 3 {
                        Err(ErrorKind::UnexpectedToken)
                    } else {
                        Ok(instruction(o, AddressingMode::IMM, Operand::U8(*n as u8)))
                    }
                } else {
                    Err(ErrorKind::UnexpectedToken)
                }
            } else {
                Err(ErrorKind::UnexpectedToken)
            }
        },
        Token::Num(n) => {
            let n = *n;
            if supports(o, AddressingMode::REL) {
                if n >= 256 {
                    Err(ErrorKind::ExpectedU8)
                } else if e - i > 2 {
                    Err(ErrorKind::UnexpectedToken)
                } else {
                    Ok(instruction(o, AddressingMode::REL, Operand::U8(n as u8)))
                }
            } else {
                let (zm, am) = match parse_index(toks, i, e) {
                    None => {
                        return Err(ErrorKind::UnexpectedToken);
                    },
                    Some(None) => (AddressingMode::ZPG, AddressingMode::ABS),
                    Some(Some(true)) => (AddressingMode::ZPG_X, AddressingMode::ABS_X),
                    Some(Some(false)) => (AddressingMode::ZPG_Y, AddressingMode::ABS_Y),
                };
                if n < 256 && supports(o, zm) {
                    Ok(instruction(o, zm, Operand::U8(n as u8)))
                } else {
                    Ok(instruction(o, am, Operand::U16(n)))
                }
            }
        },
        Token::Ident(l) => {
            if supports(o, AddressingMode::REL) && e - i == 2 {
                Ok(instruction(o, AddressingMode::REL, Operand::Label(l.clone())))
            } else {
                match parse_index(toks, i, e) {
                    None => Err(ErrorKind::UnexpectedToken),
                    Some(None) => Ok(instruction(o, AddressingMode::ABS, Operand::Label(l.clone()))),
                    Some(Some(true)) => Ok(instruction(o, AddressingMode::ABS_X, Operand::Label(l.clone()))),
                    Some(Some(false)) => Ok(instruction(o, AddressingMode::ABS_Y, Operand::Label(l.clone()))),
                }
            }
        },
        Token::ParenOpen => parse_indirect(o, toks, i, e),
        Token::A => {
            if e - i == 2 {
                Ok(instruction(o, AddressingMode::A, Operand::No))
            } else {
                Err(ErrorKind::UnexpectedToken)
            }
        },
        _ => Err(ErrorKind::UnexpectedToken),
    }
}

/// Parses the indirect forms; the mnemonic is token 0 of `i..e`.
#[verifier::rlimit(60)]
fn parse_indirect(o: Opcode, toks: &Vec<DToken>, i: usize, e: usize) -> (r: Result<Statement, ErrorKind>)
    requires
        i + 1 < e <= toks@.len(),
    ensures
        agrees(r, indirect_line(o, line_tokens(tokens_view(toks@), i as int, e as int).drop_first())),
{
    if e - i < 4 {
        return Err(ErrorKind::UnexpectedToken);
    }
    let inner = tok(toks, i, e, 2);
    if !(matches!(inner, Token::Num(_)) || matches!(inner, Token::Ident(_))) {
        return Err(ErrorKind::UnexpectedToken);
    }
    if e - i == 4 && matches!(tok(toks, i, e, 3), Token::ParenClose) {
        return match inner {
            Token::Num(n) => Ok(instruction(o, AddressingMode::IND, Operand::U16(*n))),
            Token::Ident(l) => Ok(instruction(o, AddressingMode::IND, Operand::Label(l.clone()))),
            _ => Err(ErrorKind::UnexpectedToken),
        };
    }
    if e - i == 6 {
        let t3 = tok(toks, i, e, 3);
        let t4 = tok(toks, i, e, 4);
        let t5 = tok(toks, i, e, 5);
        let y_form = matches!(t3, Token::ParenClose) && matches!(t4, Token::Comma) && matches!(t5, Token::Y);
        let x_form = matches!(t3, Token::Comma) && matches!(t4, Token::X) && matches!(t5, Token::ParenClose);
        if y_form || x_form {
            let m = if matches!(t3, Token::ParenClose) {
                AddressingMode::IND_Y
            } else {
                AddressingMode::X_IND
            };
            return match inner {
                Token::Num(n) => if *n < 256 {
                    Ok(instruction(o, m, Operand::U8(*n as u8)))
                } else {
                    Err(ErrorKind::ExpectedU8)
                },
                _ => Err(ErrorKind::UnexpectedToken),
            };
        }
    }
    Err(ErrorKind::UnexpectedToken)
}

/// Parses the line `i..e` (without its newline).
fn parse_line(toks: &Vec<DToken>, i: usize, e: usize) -> (r: Result<Option<Statement>, ErrorKind>)
    requires
        i <= e <= toks@.len(),
    ensures
        match r {
            Ok(Some(st)) => parse_line_spec(line_tokens(tokens_view(toks@), i as int, e as int)) == Ok::<Option<StatementV>, ErrorKind>(Some(st@)),
            Ok(None) => parse_line_spec(line_tokens(tokens_view(toks@), i as int, e as int)) == Ok::<Option<StatementV>, ErrorKind>(None),
            Err(k) => parse_line_spec(line_tokens(tokens_view(toks@), i as int, e as int)) == Err::<Option<StatementV>, ErrorKind>(k),
        },
{
    if i == e {
        return Ok(None);
    }
    let r = match tok(toks, i, e, 0) {
        Token::Directive(d) => parse_directive(d, toks, i, e),
        Token::Ident(name) => {
            if e - i >= 2 && matches!(tok(toks, i, e, 1), Token::Colon) {
                if e - i == 2 {
                    Ok(Statement::Label(name.clone()))
                } else {
                    Err(ErrorKind::UnexpectedToken)
                }
            } else {
                match parse_opcode(name) {
                    Some(o) => parse_operand(o, toks, i, e),
                    None => Err(ErrorKind::UnknownMnemonic),
                }
            }
        },
        _ => Err(ErrorKind::UnexpectedToken),
    };
    match r {
        Ok(s) => Ok(Some(s)),
        Err(k) => Err(k),
    }
}

/// `out` followed by what parsing from token `i` gives.
pub open spec fn then(out: Seq<(StatementV, usize)>, rest: Result<Seq<(StatementV, usize)>, AsmnesError>) -> Result<Seq<(StatementV, usize)>, AsmnesError> {
    match rest {
        Ok(r) => Ok(out + r),
        Err(x) => Err(x),
    }
}

proof fn lemma_line_end_bounds(toks: Seq<(TokenV, usize)>, i: int)
    requires
        0 <= i <= toks.len(),
    ensures
        i <= line_end(toks, i) <= toks.len(),
    decreases toks.len() - i,
{
    if i < toks.len() && !(toks[i].0 is Newline) {
        lemma_line_end_bounds(toks, i + 1);
    }
}

/// Parses the tokens into statements, line by line; each statement carries the line of its
/// first token. The first line that does not parse gives the error.
pub fn parse(program: Vec<DToken>) -> (r: Result<Vec<DStatement>, AsmnesError>)
    ensures
        match r {
            Ok(out) => parse_from(tokens_view(program@), 0) == Ok::<Seq<(StatementV, usize)>, AsmnesError>(statements_view(out@)),
            Err(x) => parse_from(tokens_view(program@), 0) == Err::<Seq<(StatementV, usize)>, AsmnesError>(x),
        },
{
    let mut output: Vec<DStatement> = Vec::new();
    let mut i: usize = 0;
    while i < program.len()
        invariant
            i <= program@.len(),
            parse_from(tokens_view(program@), 0) == then(statements_view(output@), parse_from(tokens_view(program@), i as int)),
        decreases program@.len() - i,
    {
        let mut e = i;
        while e < program.len() && !matches!(program[e].token, Token::Newline)
            invariant
                i <= e <= program@.len(),
                line_end(tokens_view(program@), i as int) == line_end(tokens_view(program@), e as int),
            decreases program@.len() - e,
        {
            e = e + 1;
        }
        proof {
            lemma_line_end_bounds(tokens_view(program@), i as int);
        }
        let line = program[i].line;
        match parse_line(&program, i, e) {
            Err(k) => {
                return Err(err(k, line));
            },
            Ok(None) => {},
            Ok(Some(statement)) => {
                let ghost before = statements_view(output@);
                output.push(DStatement { statement, line });
                proof {
                    assert(statements_view(output@) =~= before + seq![(statement@, line)]);
                    let rest = parse_from(tokens_view(program@), e + 1);
                    match rest {
                        Ok(rr) => {
                            assert(before + seq![(statement@, line)] + rr =~= before + (seq![(statement@, line)] + rr));
                        },
                        Err(_) => {},
                    }
                }
            },
        }
        if e == program.len() {
            i = e;
        } else {
            i = e + 1;
        }
    }
    proof {
        assert(statements_view(output@) + Seq::<(StatementV, usize)>::empty() =~= statements_view(output@));
    }
    Ok(output)
}

/// Line numbers never decrease along a sequence of statements.
pub open spec fn statement_lines_nondecreasing(s: Seq<(StatementV, usize)>) -> bool {
    forall|i: int, j: int| 0 <= i <= j < s.len() ==> #[trigger] s[i].1 <= #[trigger] s[j].1
}

proof fn lemma_parse_from_lines(toks: Seq<(TokenV, usize)>, i: int)
    requires
        lines_nondecreasing(toks),
        0 <= i,
    ensures
        parse_from(toks, i) matches Ok(out) ==> statement_lines_nondecreasing(out) && (forall|k: int|
            0 <= k < out.len() ==> toks[i].1 <= #[trigger] out[k].1),
    decreases toks.len() + 1 - i,
{
    let e = line_end(toks, i);
    if 0 <= i < toks.len() {
        lemma_line_end_bounds(toks, i);
        if e + 1 < toks.len() {
            assert(toks[i].1 <= toks[e + 1].1);
        }
        lemma_parse_from_lines(toks, e + 1);
        if let Ok(out) = parse_from(toks, i) {
            if let Ok(Some(st)) = parse_line_spec(line_tokens(toks, i, e)) {
                let rest = parse_from(toks, e + 1)->Ok_0;
                assert(out == seq![(st, toks[i].1)] + rest);
                assert forall|a: int, b: int| 0 <= a <= b < out.len() implies #[trigger] out[a].1 <= #[trigger] out[b].1 by {
                    if a > 0 {
                        assert(out[a] == rest[a - 1]);
                        assert(out[b] == rest[b - 1]);
                    } else if b > 0 {
                        assert(out[b] == rest[b - 1]);
                    }
                }
                assert forall|k: int| 0 <= k < out.len() implies toks[i].1 <= #[trigger] out[k].1 by {
                    if k > 0 {
                        assert(out[k] == rest[k - 1]);
                    }
                }
            }
        }
    }
}

/// Every statement carries the line of its source, and the lines never decrease along
/// the statements of a program.
pub proof fn lemma_statement_lines(cs: Seq<char>)
    requires
        cs.len() < usize::MAX,
    ensures
        lex_spec(cs) matches Ok(t) ==> (parse_from(t, 0) matches Ok(stmts) ==> statement_lines_nondecreasing(stmts)),
{
    lemma_lex_lines(cs);
    if let Ok(t) = lex_spec(cs) {
        lemma_parse_from_lines(t, 0);
    }
}

/// A number that fits in a byte after a mnemonic with a zero-page form (and no relative
/// form) gives the zero-page form; a larger one, or a mnemonic without it, the absolute form.
pub proof fn lemma_zero_page_preference(o: Opcode, n: u16)
    requires
        !has_mode(o, AddressingMode::REL),
    ensures
        n < 256 && has_mode(o, AddressingMode::ZPG) ==> operand_line(o, seq![TokenV::Num(n)])
            == Ok::<StatementV, ErrorKind>(ins(o, AddressingMode::ZPG, OperandV::U8(n as u8))),
        !(n < 256 && has_mode(o, AddressingMode::ZPG)) ==> operand_line(o, seq![TokenV::Num(n)])
            == Ok::<StatementV, ErrorKind>(ins(o, AddressingMode::ABS, OperandV::U16(n))),
{
}

/// A mnemonic with a relative form always takes a number as a relative offset.
pub proof fn lemma_relative_preference(o: Opcode, n: u16)
    requires
        has_mode(o, AddressingMode::REL),
        n < 256,
    ensures
        operand_line(o, seq![TokenV::Num(n)]) == Ok::<StatementV, ErrorKind>(
            ins(o, AddressingMode::REL, OperandV::U8(n as u8)),
        ),
{
}

} // verus!
