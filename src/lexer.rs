//! The lexer: characters to tokens, each with its source line.
use crate::error::{err, AsmnesError, ErrorKind};
use crate::text::{chars_of, string_of};
use vstd::prelude::*;

verus! {

/// A token, the result of lexing.
#[derive(Debug, Clone)]
pub enum Token {
    Ident(String),
    /// The name that followed a `.`.
    Directive(String),
    Num(u16),
    ParenOpen,
    ParenClose,
    Comma,
    Hash,
    Colon,
    Newline,
    X,
    Y,
    A,
}

/// A token as a mathematical value.
pub enum TokenV {
    Ident(Seq<char>),
    Directive(Seq<char>),
    Num(u16),
    ParenOpen,
    ParenClose,
    Comma,
    Hash,
    Colon,
    Newline,
    X,
    Y,
    A,
}

impl View for Token {
    type V = TokenV;

    open spec fn view(&self) -> TokenV {
        match self {
            Token::Ident(s) => TokenV::Ident(s@),
            Token::Directive(s) => TokenV::Directive(s@),
            Token::Num(n) => TokenV::Num(*n),
            Token::ParenOpen => TokenV::ParenOpen,
            Token::ParenClose => TokenV::ParenClose,
            Token::Comma => TokenV::Comma,
            Token::Hash => TokenV::Hash,
            Token::Colon => TokenV::Colon,
            Token::Newline => TokenV::Newline,
            Token::X => TokenV::X,
            Token::Y => TokenV::Y,
            Token::A => TokenV::A,
        }
    }
}

/// Tokens with their lines, as mathematical values.
pub open spec fn tokens_view(toks: Seq<DToken>) -> Seq<(TokenV, usize)> {
    toks.map_values(|d: DToken| (d.token@, d.line))
}

/// A token with its source line.
#[derive(Debug, Clone)]
pub struct DToken {
    pub token: Token,
    pub line: usize,
}

/// What the lexer is in the middle of.
#[derive(Debug, PartialEq, Eq, Structural, Clone, Copy)]
pub enum LexState {
    Awaiting,
    ReadingBin,
    ReadingHex,
    ReadingDec,
    ReadingIdent,
    ReadingDirective,
    ReadingComment,
}

/// The value of a digit in a radix, if it is one.
pub open spec fn digit_of(c: char, radix: nat) -> Option<nat> {
    let d = if '0' <= c && c <= '9' {
        c as int - '0' as int
    } else if 'a' <= c && c <= 'f' {
        c as int - 'a' as int + 10
    } else if 'A' <= c && c <= 'F' {
        c as int - 'A' as int + 10
    } else {
        radix as int
    };
    if d < radix {
        Some(d as nat)
    } else {
        None
    }
}

/// The value of a string of digits, if every one is a digit of the radix.
pub open spec fn digits_value(s: Seq<char>, radix: nat) -> Option<nat>
    decreases s.len(),
{
    if s.len() == 0 {
        Some(0)
    } else {
        match (digits_value(s.drop_last(), radix), digit_of(s.last(), radix)) {
            (Some(v), Some(d)) => Some(v * radix + d),
            _ => None,
        }
    }
}

/// The number a string of digits spells: at least one digit, at most `$FFFF`.
pub open spec fn number_value(s: Seq<char>, radix: nat) -> Option<u16> {
    if s.len() > 0 && digits_value(s, radix) is Some && digits_value(s, radix)->0 <= 0xFFFF {
        Some(digits_value(s, radix)->0 as u16)
    } else {
        None
    }
}

proof fn lemma_digits_prefix(s: Seq<char>, k: int, radix: nat)
    requires
        0 <= k <= s.len(),
        radix >= 1,
    ensures
        digits_value(s.subrange(0, k), radix) is None ==> digits_value(s, radix) is None,
        digits_value(s, radix) is Some ==> digits_value(s.subrange(0, k), radix) is Some
            && digits_value(s.subrange(0, k), radix)->0 <= digits_value(s, radix)->0,
    decreases s.len(),
{
    if k == s.len() {
        assert(s.subrange(0, k) =~= s);
    } else {
        lemma_digits_prefix(s.drop_last(), k, radix);
        assert(s.drop_last().subrange(0, k) =~= s.subrange(0, k));
        if digits_value(s, radix) is Some {
            let v = digits_value(s.drop_last(), radix)->0;
            let d = digit_of(s.last(), radix)->0;
            assert(v <= v * radix + d) by (nonlinear_arith)
                requires
                    radix >= 1,
            ;
        }
    }
}

fn digit(c: char, radix: u32) -> (r: Option<u32>)
    requires
        radix <= 16,
    ensures
        r matches Some(d) ==> digit_of(c, radix as nat) == Some(d as nat),
        r is None ==> digit_of(c, radix as nat) is None,
{
    let d: u32 = if '0' <= c && c <= '9' {
        c as u32 - '0' as u32
    } else if 'a' <= c && c <= 'f' {
        c as u32 - 'a' as u32 + 10
    } else if 'A' <= c && c <= 'F' {
        c as u32 - 'A' as u32 + 10
    } else {
        radix
    };
    if d < radix {
        Some(d)
    } else {
        None
    }
}

/// Reads a number in a radix.
fn parse_number(acc: &Vec<char>, radix: u32) -> (r: Option<u16>)
    requires
        2 <= radix <= 16,
    ensures
        r == number_value(acc@, radix as nat),
{
    if acc.len() == 0 {
        return None;
    }
    let mut v: u32 = 0;
    let mut i: usize = 0;
    while i < acc.len()
        invariant
            i <= acc@.len(),
            2 <= radix <= 16,
            digits_value(acc@.subrange(0, i as int), radix as nat) == Some(v as nat),
            v <= 0xFFFF,
        decreases acc@.len() - i,
    {
        proof {
            lemma_digits_prefix(acc@, i + 1, radix as nat);
            assert(acc@.subrange(0, i + 1).drop_last() =~= acc@.subrange(0, i as int));
        }
        match digit(acc[i], radix) {
            Some(d) => {
                assert(v * radix + d <= 0xFFFF * 16 + 16) by (nonlinear_arith)
                    requires
                        v <= 0xFFFF,
                        radix <= 16,
                        d < radix,
                ;
                v = v * radix + d;
                i = i + 1;
                if v > 0xFFFF {
                    proof {
                        lemma_digits_prefix(acc@, i as int, radix as nat);
                    }
                    return None;
                }
            },
            None => {
                return None;
            },
        }
    }
    assert(acc@.subrange(0, i as int) =~= acc@);
    Some(v as u16)
}

/// The lexer between two characters: its state, the characters of the token being
/// read, the current line, and the tokens so far.
pub struct LexV {
    pub state: LexState,
    pub acc: Seq<char>,
    pub line: usize,
    pub out: Seq<(TokenV, usize)>,
}

pub open spec fn lex_start() -> LexV {
    LexV { state: LexState::Awaiting, acc: Seq::empty(), line: 1, out: Seq::empty() }
}

/// The token of an identifier: the register names take precedence.
pub open spec fn ident_token(acc: Seq<char>) -> TokenV {
    if acc == seq!['X'] {
        TokenV::X
    } else if acc == seq!['Y'] {
        TokenV::Y
    } else if acc == seq!['A'] {
        TokenV::A
    } else {
        TokenV::Ident(acc)
    }
}

pub open spec fn radix_of(s: LexState) -> nat {
    match s {
        LexState::ReadingHex => 16,
        LexState::ReadingBin => 2,
        _ => 10,
    }
}

/// A delimiter ends the token being read: it is emitted, and the state returns to awaiting.
pub open spec fn flush(st: LexV) -> Result<LexV, AsmnesError> {
    let done = LexV { state: LexState::Awaiting, acc: Seq::empty(), ..st };
    match st.state {
        LexState::ReadingIdent => Ok(LexV { out: st.out.push((ident_token(st.acc), st.line)), ..done }),
        LexState::ReadingHex | LexState::ReadingBin | LexState::ReadingDec => match number_value(
            st.acc,
            radix_of(st.state),
        ) {
            Some(n) => Ok(LexV { out: st.out.push((TokenV::Num(n), st.line)), ..done }),
            None => Err(AsmnesError { line: st.line, kind: ErrorKind::MalformedNumber }),
        },
        LexState::ReadingDirective => Ok(LexV { out: st.out.push((TokenV::Directive(st.acc), st.line)), ..done }),
        LexState::Awaiting => Ok(done),
        LexState::ReadingComment => Ok(LexV { acc: Seq::empty(), ..st }),
    }
}

pub open spec fn is_letter(c: char) -> bool {
    ('a' <= c && c <= 'z') || ('A' <= c && c <= 'Z') || c == '_'
}

pub open spec fn is_digit(c: char) -> bool {
    '0' <= c && c <= '9'
}

/// Characters that end a token and start nothing: `.`, `$`, `%` and `;` start a directive,
/// a hexadecimal or binary number, or a comment.
pub open spec fn is_plain_delimiter(c: char) -> bool {
    c == '.' || c == '$' || c == '%' || c == ';' || c == ' ' || c == '\t' || c == '\r'
}

pub open spec fn punctuation(c: char) -> Option<TokenV> {
    if c == '(' {
        Some(TokenV::ParenOpen)
    } else if c == ')' {
        Some(TokenV::ParenClose)
    } else if c == ',' {
        Some(TokenV::Comma)
    } else if c == '#' {
        Some(TokenV::Hash)
    } else if c == ':' {
        Some(TokenV::Colon)
    } else {
        None
    }
}

/// The state that a plain delimiter leads to.
pub open spec fn state_after(c: char) -> LexState {
    if c == '.' {
        LexState::ReadingDirective
    } else if c == '$' {
        LexState::ReadingHex
    } else if c == '%' {
        LexState::ReadingBin
    } else if c == ';' {
        LexState::ReadingComment
    } else {
        LexState::Awaiting
    }
}

/// The lexer on one character.
pub open spec fn lex_char(st: LexV, c: char) -> Result<LexV, AsmnesError> {
    if c == '\n' {
        let flushed = if st.state == LexState::ReadingComment { Ok(st) } else { flush(st) };
        match flushed {
            Ok(s1) => Ok(LexV {
                state: LexState::Awaiting,
                acc: Seq::empty(),
                line: (st.line + 1) as usize,
                out: s1.out.push((TokenV::Newline, st.line)),
            }),
            Err(e) => Err(e),
        }
    } else if st.state == LexState::ReadingComment {
        Ok(st)
    } else if is_plain_delimiter(c) {
        match flush(st) {
            Ok(s1) => Ok(LexV { state: state_after(c), ..s1 }),
            Err(e) => Err(e),
        }
    } else if punctuation(c) is Some {
        match flush(st) {
            Ok(s1) => Ok(LexV { out: s1.out.push((punctuation(c)->0, st.line)), ..s1 }),
            Err(e) => Err(e),
        }
    } else {
        match st.state {
            LexState::Awaiting => if is_digit(c) {
                Ok(LexV { state: LexState::ReadingDec, acc: st.acc.push(c), ..st })
            } else if is_letter(c) {
                Ok(LexV { state: LexState::ReadingIdent, acc: st.acc.push(c), ..st })
            } else {
                Err(AsmnesError { line: st.line, kind: ErrorKind::UnexpectedCharacter })
            },
            LexState::ReadingIdent | LexState::ReadingDirective => if is_letter(c) || is_digit(c) {
                Ok(LexV { acc: st.acc.push(c), ..st })
            } else {
                Err(AsmnesError { line: st.line, kind: ErrorKind::UnexpectedCharacter })
            },
            _ => Ok(LexV { acc: st.acc.push(c), ..st }),
        }
    }
}

/// The lexer after the first `n` characters.
pub open spec fn lex_upto(cs: Seq<char>, n: nat) -> Result<LexV, AsmnesError>
    decreases n,
{
    if n == 0 || n > cs.len() {
        Ok(lex_start())
    } else {
        match lex_upto(cs, (n - 1) as nat) {
            Ok(st) => lex_char(st, cs[n - 1]),
            Err(e) => Err(e),
        }
    }
}

/// The tokens of a program, each with its line: the end of the input ends the last token.
pub open spec fn lex_spec(cs: Seq<char>) -> Result<Seq<(TokenV, usize)>, AsmnesError> {
    match lex_upto(cs, cs.len()) {
        Ok(st) => match flush(st) {
            Ok(s1) => Ok(s1.out),
            Err(e) => Err(e),
        },
        Err(e) => Err(e),
    }
}

proof fn lemma_lex_err(cs: Seq<char>, j: nat, n: nat)
    requires
        j <= n <= cs.len(),
        lex_upto(cs, j) is Err,
    ensures
        lex_upto(cs, n) == lex_upto(cs, j),
    decreases n,
{
    if n > j {
        lemma_lex_err(cs, j, (n - 1) as nat);
    }
}

/// The lexer's state as a mathematical value.
pub open spec fn lex_view(state: LexState, acc: Seq<char>, line: usize, out: Seq<DToken>) -> LexV {
    LexV { state, acc, line, out: tokens_view(out) }
}

/// A delimiter ends the token being read, and the state returns to awaiting.
fn delimiter(state: &mut LexState, line: usize, output: &mut Vec<DToken>, acc: &mut Vec<char>) -> (r: Result<(), AsmnesError>)
    ensures
        match flush(lex_view(*old(state), old(acc)@, line, old(output)@)) {
            Ok(st) => r is Ok && lex_view(*final(state), final(acc)@, line, final(output)@) == st,
            Err(e) => r == Err::<(), AsmnesError>(e),
        },
{
    let ghost before = tokens_view(output@);
    match *state {
        LexState::ReadingIdent => {
            // The register names take precedence over identifiers.
            let t = if acc.len() == 1 && acc[0] == 'X' {
                Token::X
            } else if acc.len() == 1 && acc[0] == 'Y' {
                Token::Y
            } else if acc.len() == 1 && acc[0] == 'A' {
                Token::A
            } else {
                Token::Ident(string_of(acc))
            };
            proof {
                if acc@.len() == 1 {
                    assert(acc@ == seq![acc@[0]]);
                }
            }
            output.push(DToken { token: t, line });
            *state = LexState::Awaiting;
        },
        LexState::ReadingHex | LexState::ReadingBin | LexState::ReadingDec => {
            let radix: u32 = match *state {
                LexState::ReadingHex => 16,
                LexState::ReadingBin => 2,
                _ => 10,
            };
            match parse_number(acc, radix) {
                Some(n) => output.push(DToken { token: Token::Num(n), line }),
                None => {
                    return Err(err(ErrorKind::MalformedNumber, line));
                },
            }
            *state = LexState::Awaiting;
        },
        LexState::ReadingDirective => {
            output.push(DToken { token: Token::Directive(string_of(acc)), line });
            *state = LexState::Awaiting;
        },
        LexState::Awaiting => {},
        LexState::ReadingComment => {},
    }
    acc.clear();
    proof {
        if output@.len() > before.len() {
            assert(tokens_view(output@) =~= before.push((output@.last().token@, line)));
        } else {
            assert(tokens_view(output@) =~= before);
        }
    }
    Ok(())
}

fn is_ident_char(c: char) -> (r: bool)
    ensures
        r == (is_letter(c) || is_digit(c)),
{
    ('a' <= c && c <= 'z') || ('A' <= c && c <= 'Z') || ('0' <= c && c <= '9') || c == '_'
}

/// Splits a program into tokens, each with its line. A newline is a token of its own,
/// on the line it ends; a comment runs from `;` to the end of its line.
pub fn lex(program: &str) -> (r: Result<Vec<DToken>, AsmnesError>)
    requires
        program@.len() < usize::MAX,
    ensures
        match r {
            Ok(toks) => lex_spec(program@) == Ok::<Seq<(TokenV, usize)>, AsmnesError>(tokens_view(toks@)),
            Err(e) => lex_spec(program@) == Err::<Seq<(TokenV, usize)>, AsmnesError>(e),
        },
{
    let cs = chars_of(program);
    let mut output: Vec<DToken> = Vec::new();
    let mut line: usize = 1;
    let mut state = LexState::Awaiting;
    let mut acc: Vec<char> = Vec::new();
    let mut i: usize = 0;
    proof {
        assert(tokens_view(output@) =~= Seq::<(TokenV, usize)>::empty());
        assert(acc@ =~= Seq::<char>::empty());
    }
    while i < cs.len()
        invariant
            cs@ == program@,
            cs@.len() < usize::MAX,
            i <= cs@.len(),
            1 <= line <= i + 1,
            lex_upto(cs@, i as nat) == Ok::<LexV, AsmnesError>(lex_view(state, acc@, line, output@)),
        decreases cs@.len() - i,
    {
        let c = cs[i];
        proof {
            assert(((i + 1) as nat - 1) as nat == i as nat);
        }
        if c == '\n' {
            if state != LexState::ReadingComment {
                match delimiter(&mut state, line, &mut output, &mut acc) {
                    Ok(()) => {},
                    Err(e) => {
                        proof {
                            lemma_lex_err(cs@, (i + 1) as nat, cs@.len());
                        }
                        return Err(e);
                    },
                }
            }
            let ghost before = tokens_view(output@);
            output.push(DToken { token: Token::Newline, line });
            proof {
                assert(tokens_view(output@) =~= before.push((TokenV::Newline, line)));
            }
            line = line + 1;
            state = LexState::Awaiting;
            acc.clear();
        } else if state == LexState::ReadingComment {
        } else if c == '.' || c == '$' || c == '%' || c == ';' || c == ' ' || c == '\t' || c == '\r' {
            match delimiter(&mut state, line, &mut output, &mut acc) {
                Ok(()) => {},
                Err(e) => {
                    proof {
                        lemma_lex_err(cs@, (i + 1) as nat, cs@.len());
                    }
                    return Err(e);
                },
            }
            state = if c == '.' {
                LexState::ReadingDirective
            } else if c == '$' {
                LexState::ReadingHex
            } else if c == '%' {
                LexState::ReadingBin
            } else if c == ';' {
                LexState::ReadingComment
            } else {
                LexState::Awaiting
            };
        } else if c == '(' || c == ')' || c == ',' || c == '#' || c == ':' {
            match delimiter(&mut state, line, &mut output, &mut acc) {
                Ok(()) => {},
                Err(e) => {
                    proof {
                        lemma_lex_err(cs@, (i + 1) as nat, cs@.len());
                    }
                    return Err(e);
                },
            }
            let t = if c == '(' {
                Token::ParenOpen
            } else if c == ')' {
                Token::ParenClose
            } else if c == ',' {
                Token::Comma
            } else if c == '#' {
                Token::Hash
            } else {
                Token::Colon
            };
            let ghost before = tokens_view(output@);
            output.push(DToken { token: t, line });
            proof {
                assert(tokens_view(output@) =~= before.push((t@, line)));
            }
        } else {
            match state {
                LexState::Awaiting => {
                    if '0' <= c && c <= '9' {
                        acc.push(c);
                        state = LexState::ReadingDec;
                    } else if ('a' <= c && c <= 'z') || ('A' <= c && c <= 'Z') || c == '_' {
                        acc.push(c);
                        state = LexState::ReadingIdent;
                    } else {
                        proof {
                            lemma_lex_err(cs@, (i + 1) as nat, cs@.len());
                        }
                        return Err(err(ErrorKind::UnexpectedCharacter, line));
                    }
                },
                LexState::ReadingIdent | LexState::ReadingDirective => {
                    if is_ident_char(c) {
                        acc.push(c);
                    } else {
                        proof {
                            lemma_lex_err(cs@, (i + 1) as nat, cs@.len());
                        }
                        return Err(err(ErrorKind::UnexpectedCharacter, line));
                    }
                },
                _ => {
                    acc.push(c);
                },
            }
        }
        i = i + 1;
    }
    match delimiter(&mut state, line, &mut output, &mut acc) {
        Ok(()) => {},
        Err(e) => {
            return Err(e);
        },
    }
    Ok(output)
}

/// Line numbers never decrease along a sequence of tokens.
pub open spec fn lines_nondecreasing(t: Seq<(TokenV, usize)>) -> bool {
    forall|i: int, j: int| 0 <= i <= j < t.len() ==> #[trigger] t[i].1 <= #[trigger] t[j].1
}

/// What the lexer keeps between characters: its tokens' lines never decrease and none
/// is past the current line.
pub open spec fn lines_ok(st: LexV) -> bool {
    &&& lines_nondecreasing(st.out)
    &&& forall|i: int| 0 <= i < st.out.len() ==> #[trigger] st.out[i].1 <= st.line
}

proof fn lemma_push_line(st: LexV, t: TokenV)
    requires
        lines_ok(st),
    ensures
        lines_ok(LexV { out: st.out.push((t, st.line)), ..st }),
{
    let o = st.out.push((t, st.line));
    assert forall|i: int, j: int| 0 <= i <= j < o.len() implies #[trigger] o[i].1 <= #[trigger] o[j].1 by {
        if j == o.len() - 1 {
            if i < st.out.len() {
                assert(st.out[i].1 <= st.line);
            }
        } else {
            assert(st.out[i].1 <= st.out[j].1);
        }
    }
}

proof fn lemma_flush_lines(st: LexV)
    requires
        lines_ok(st),
    ensures
        flush(st) matches Ok(s1) ==> lines_ok(s1) && s1.line == st.line,
{
    match st.state {
        LexState::ReadingIdent => lemma_push_line(st, ident_token(st.acc)),
        LexState::ReadingHex | LexState::ReadingBin | LexState::ReadingDec => {
            if let Some(n) = number_value(st.acc, radix_of(st.state)) {
                lemma_push_line(st, TokenV::Num(n));
            }
        },
        LexState::ReadingDirective => lemma_push_line(st, TokenV::Directive(st.acc)),
        _ => {},
    }
}

proof fn lemma_lex_char_lines(st: LexV, c: char)
    requires
        lines_ok(st),
        st.line < usize::MAX,
    ensures
        lex_char(st, c) matches Ok(s1) ==> lines_ok(s1) && st.line <= s1.line <= st.line + 1,
{
    lemma_flush_lines(st);
    if c == '\n' {
        let flushed = if st.state == LexState::ReadingComment { Ok(st) } else { flush(st) };
        if let Ok(s1) = flushed {
            lemma_push_line(s1, TokenV::Newline);
        }
    } else if st.state != LexState::ReadingComment && !is_plain_delimiter(c) && punctuation(c) is Some {
        if let Ok(s1) = flush(st) {
            lemma_push_line(s1, punctuation(c)->0);
        }
    }
}

proof fn lemma_lex_upto_lines(cs: Seq<char>, n: nat)
    requires
        cs.len() < usize::MAX,
        n <= cs.len(),
    ensures
        lex_upto(cs, n) matches Ok(st) ==> lines_ok(st) && st.line <= n + 1,
    decreases n,
{
    if n > 0 {
        lemma_lex_upto_lines(cs, (n - 1) as nat);
        if let Ok(st) = lex_upto(cs, (n - 1) as nat) {
            lemma_lex_char_lines(st, cs[n - 1]);
        }
    }
}

/// The lexer gives each token its source line, and the lines never decrease.
pub proof fn lemma_lex_lines(cs: Seq<char>)
    requires
        cs.len() < usize::MAX,
    ensures
        lex_spec(cs) matches Ok(t) ==> lines_nondecreasing(t),
{
    lemma_lex_upto_lines(cs, cs.len());
    if let Ok(st) = lex_upto(cs, cs.len()) {
        lemma_flush_lines(st);
    }
}

} // verus!
