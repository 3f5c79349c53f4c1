use remun::{assemble, lex, parse, AsmnesError, Directive, ErrorKind, Ines, InesParseError, Statement, Token};

const HEADER: &str = ".inesprg 1\n.ineschr 0\n.inesmap 0\n.inesmir 0\n.bank 0\n.org $C000\n";

fn fails(program: &str) -> AsmnesError {
    match assemble(program) {
        Ok(_) => panic!("expected an error"),
        Err(e) => e,
    }
}

#[test]
fn test_lexer() {
    let tokens = lex("LDA #$10 ; load\n.org %101\nSTA ($20,X)\n").unwrap();
    let kinds: Vec<String> = tokens.iter().map(|t| format!("{:?}", t.token)).collect();
    assert_eq!(
        kinds,
        vec![
            "Ident(\"LDA\")", "Hash", "Num(16)", "Newline", "Directive(\"org\")", "Num(5)", "Newline",
            "Ident(\"STA\")", "ParenOpen", "Num(32)", "Comma", "X", "ParenClose", "Newline",
        ]
    );
    assert_eq!(tokens[0].line, 1);
    assert_eq!(tokens[4].line, 2);
    assert_eq!(tokens[7].line, 3);
}

#[test]
fn lexer_decimal_and_registers() {
    let tokens = lex("LDX 200,Y").unwrap();
    assert!(matches!(tokens[1].token, Token::Num(200)));
    assert!(matches!(tokens[3].token, Token::Y));
}

#[test]
fn lexer_rejects_bad_input() {
    assert_eq!(lex("LDA @").unwrap_err().kind, ErrorKind::UnexpectedCharacter);
    assert_eq!(lex("LDA $1G").unwrap_err().kind, ErrorKind::MalformedNumber);
    assert_eq!(lex("\nLDA $10000").unwrap_err(), AsmnesError { line: 2, kind: ErrorKind::MalformedNumber });
}

#[test]
fn parser_statements() {
    let stmts = parse(lex(".db $FF\nloop:\nJMP loop\n").unwrap()).unwrap();
    assert_eq!(stmts.len(), 3);
    assert!(matches!(stmts[0].statement, Statement::Directive(Directive::Db(0xFF))));
    assert!(matches!(&stmts[1].statement, Statement::Label(l) if l == "loop"));
    assert_eq!(stmts[2].line, 3);
}

#[test]
fn parser_errors() {
    assert_eq!(parse(lex(".foo 1").unwrap()).unwrap_err().kind, ErrorKind::UnknownDirective);
    assert_eq!(parse(lex("XYZ").unwrap()).unwrap_err().kind, ErrorKind::UnknownMnemonic);
    assert_eq!(parse(lex("LDA #$100").unwrap()).unwrap_err().kind, ErrorKind::ExpectedU8);
    assert_eq!(parse(lex("LDA $10 $20").unwrap()).unwrap_err().kind, ErrorKind::UnexpectedToken);
    assert_eq!(parse(lex("\n\n.db").unwrap()).unwrap_err(), AsmnesError { line: 3, kind: ErrorKind::UnexpectedToken });
}

#[test]
fn undefined_label_reports_line() {
    let e = fails(&format!("{}NOP\nJMP nowhere\n", HEADER));
    assert_eq!(e, AsmnesError { line: 8, kind: ErrorKind::UndefinedLabel });
}

#[test]
fn assembly_errors() {
    assert_eq!(fails(&format!("{}STA #$10\n", HEADER)).kind, ErrorKind::UnknownCodepoint);
    assert_eq!(fails(&format!("{}BNE target\ntarget:\n", HEADER)).kind, ErrorKind::OperandSizeMismatch);
    assert_eq!(fails(&format!("{}a:\na:\n", HEADER)).kind, ErrorKind::LabelRedefined);
    assert_eq!(fails(".inesprg 1\n.ineschr 0\n.bank 2\n.db 1\n").kind, ErrorKind::BankOutOfRange);
    assert_eq!(fails(".inesprg 1\n.ineschr 0\n.db 1\n").kind, ErrorKind::NoBankSelected);
    assert_eq!(fails(".inesprg 1\n.bank 0\n.db 1\n").kind, ErrorKind::BanksNotAllocated);
    assert_eq!(fails(".inesprg 1\n.inesprg 1\n").kind, ErrorKind::HeaderRedefined);
    assert_eq!(fails(".ineschr 0\n.inesmap 0\n.inesmir 0\n"), AsmnesError { line: 0, kind: ErrorKind::MissingInesprg });
    assert_eq!(fails(".inesprg 1\n.inesmap 0\n.inesmir 0\n").kind, ErrorKind::MissingIneschr);
    assert_eq!(fails(".inesprg 1\n.ineschr 0\n.inesmir 0\n").kind, ErrorKind::MissingInesmap);
    assert_eq!(fails(".inesprg 1\n.ineschr 0\n.inesmap 0\n").kind, ErrorKind::MissingInesmir);
}

#[test]
fn bank_offsets_and_reserve() {
    let ines = assemble(".inesprg 1\n.ineschr 1\n.inesmap 0\n.inesmir 0\n.bank 2\n.org $0010\n.ds 2\n.db $77\n").unwrap();
    assert_eq!(ines.banks.len(), 24 * 1024);
    assert_eq!(ines.banks[2 * 8192 + 0x12], 0x77);
}

#[test]
fn ines_from_bytes_errors() {
    assert_eq!(Ines::from_bytes(&[0u8; 16]).err(), Some(InesParseError::InvalidHeader));
    let mut short = vec![0x4E, 0x45, 0x53, 0x1A, 1, 0, 0, 0, 0, 0, 0, 0, 0, 0, 0, 0];
    short.extend_from_slice(&[0u8; 100]);
    assert_eq!(Ines::from_bytes(&short).err(), Some(InesParseError::FileInvalidLength));
    let mut good = vec![0x4E, 0x45, 0x53, 0x1A, 1, 0, 0x31, 0, 0, 0, 0, 0, 0, 0, 0, 0];
    good.extend_from_slice(&[7u8; 16384]);
    let ines = Ines::from_bytes(&good).unwrap();
    assert_eq!(ines.mirroring, 1);
    assert_eq!(ines.mapper, 3);
    assert_eq!(ines.banks.len(), 16384);
}

#[test]
fn ines_parse_error_converts() {
    let e: remun::InesError = InesParseError::FileInvalidLength.into();
    assert!(matches!(e, remun::InesError::ParseError(InesParseError::FileInvalidLength)));
}
