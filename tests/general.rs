use remun::flags;
use remun::{assemble, disassemble, Ines, Instruction, Opcode, AddressingMode, Operand, State};

const HEADER: &str = ".inesprg 1\n.ineschr 0\n.inesmap 0\n.inesmir 0\n.bank 0\n";

/// Assembles a program whose code starts at `$C000`, and runs `n` instructions from there.
fn run_program(n: u64, body: &str) -> State {
    let program = format!("{}.org $C000\n{}", HEADER, body);
    let ines = assemble(&program).expect("program assembles");
    let mut state = State::new(ines);
    state.pc = 0xC000;
    state.run_instructions(n);
    state
}

fn flag(state: &State, f: u8) -> bool {
    state.sr & f == f
}

#[test]
fn test_transfer_registers_by_label() {
    let state = run_program(
        6,
        "        LDA #$02\n        STA $00\n        LDA #$04\n        STA $01\n        LDX $00\n        LDY $01\n",
    );
    assert_eq!(state.x, 0x02);
    assert_eq!(state.y, 0x04);
}

#[test]
fn lda_sets_zero_and_negative() {
    let state = run_program(1, "LDA #$00\n");
    assert!(flag(&state, flags::Z));
    assert!(!flag(&state, flags::N));
    let state = run_program(1, "LDA #$80\n");
    assert!(!flag(&state, flags::Z));
    assert!(flag(&state, flags::N));
}

#[test]
fn adc_signed_overflow() {
    let state = run_program(3, "CLC\nLDA #$7F\nADC #$01\n");
    assert_eq!(state.a, 0x80);
    assert!(flag(&state, flags::V));
    assert!(!flag(&state, flags::C));
    assert!(flag(&state, flags::N));
    assert!(!flag(&state, flags::Z));
}

#[test]
fn adc_carry_out() {
    let state = run_program(3, "SEC\nLDA #$FF\nADC #$01\n");
    assert_eq!(state.a, 0x01);
    assert!(flag(&state, flags::C));
    assert!(!flag(&state, flags::V));
}

#[test]
fn sbc_borrow() {
    let state = run_program(3, "SEC\nLDA #$00\nSBC #$01\n");
    assert_eq!(state.a, 0xFF);
    assert!(!flag(&state, flags::C));
    assert!(flag(&state, flags::N));
}

#[test]
fn sbc_signed_overflow() {
    let state = run_program(3, "SEC\nLDA #$80\nSBC #$01\n");
    assert_eq!(state.a, 0x7F);
    assert!(flag(&state, flags::V));
    assert!(flag(&state, flags::C));
}

#[test]
fn cmp_equal() {
    let state = run_program(2, "LDA #$10\nCMP #$10\n");
    assert!(flag(&state, flags::Z));
    assert!(flag(&state, flags::C));
    assert!(!flag(&state, flags::N));
    assert_eq!(state.a, 0x10);
}

#[test]
fn asl_accumulator() {
    let state = run_program(2, "LDA #$81\nASL A\n");
    assert_eq!(state.a, 0x02);
    assert!(flag(&state, flags::C));
    assert!(!flag(&state, flags::N));
    assert!(!flag(&state, flags::Z));
}

#[test]
fn ror_memory_rotates_carry_in() {
    let state = run_program(4, "SEC\nLDA #$02\nSTA $10\nROR $10\n");
    let mut state = state;
    assert_eq!(state.read(0x10, true), 0x81);
    assert!(!flag(&state, flags::C));
    assert!(flag(&state, flags::N));
}

#[test]
fn stack_round_trip() {
    let state = run_program(4, "LDA #$AA\nPHA\nLDA #$00\nPLA\n");
    assert_eq!(state.a, 0xAA);
    assert_eq!(state.sp, 0xFF);
}

#[test]
fn branch_backwards() {
    let ines = assemble(&format!("{}.org $C00E\nBNE $FE\n", HEADER)).unwrap();
    let mut state = State::new(ines);
    state.pc = 0xC00E;
    state.set_flag(flags::Z, false);
    state.run_one_instruction();
    assert_eq!(state.pc, 0xC00E);
}

#[test]
fn branch_not_taken() {
    let ines = assemble(&format!("{}.org $C00E\nBEQ $FE\n", HEADER)).unwrap();
    let mut state = State::new(ines);
    state.pc = 0xC00E;
    state.run_one_instruction();
    assert_eq!(state.pc, 0xC010);
}

#[test]
fn jsr_and_rts() {
    let ines = assemble(&format!("{}.org $C000\nJSR $C100\n.org $C100\nRTS\n", HEADER)).unwrap();
    let mut state = State::new(ines);
    state.pc = 0xC000;
    state.run_one_instruction();
    assert_eq!(state.pc, 0xC100);
    assert_eq!(state.read(0x01FF, true), 0xC0);
    assert_eq!(state.read(0x01FE, true), 0x02);
    assert_eq!(state.sp, 0xFD);
    state.run_one_instruction();
    assert_eq!(state.pc, 0xC003);
    assert_eq!(state.sp, 0xFF);
}

#[test]
fn ppu_address_latch() {
    let ines = assemble(&format!("{}.org $C000\nNOP\n", HEADER)).unwrap();
    let mut state = State::new(ines);
    state.write(0x2006, 0x20);
    state.write(0x2006, 0x05);
    assert_eq!(state.ppu_state.tmp_addr, Some(0x2005));
    state.write(0x2007, 0xAA);
    assert_eq!(state.ppu_read(0x2005, true), 0xAA);
    state.read(0x2002, false);
    assert_eq!(state.ppu_state.tmp_addr, None);
}

#[test]
fn ppu_data_read_is_buffered() {
    let ines = assemble(&format!("{}.org $C000\nNOP\n", HEADER)).unwrap();
    let mut state = State::new(ines);
    state.ppu_write(0x2100, 0x42);
    state.write(0x2006, 0x21);
    state.write(0x2006, 0x00);
    assert_eq!(state.read(0x2007, false), 0x00);
    assert_eq!(state.read(0x2007, false), 0x42);
}

#[test]
fn palette_mirrors() {
    let ines = assemble(&format!("{}.org $C000\nNOP\n", HEADER)).unwrap();
    let mut state = State::new(ines);
    state.ppu_write(0x3F10, 0x2C);
    assert_eq!(state.ppu_read(0x3F00, true), 0x2C);
    assert_eq!(state.ppu_read(0x3F20, true), 0x2C);
}

#[test]
fn status_read_only_keeps_vblank() {
    let ines = assemble(&format!("{}.org $C000\nNOP\n", HEADER)).unwrap();
    let mut state = State::new(ines);
    state.ppu_state.vblank = true;
    assert_eq!(state.read(0x2002, true), 0x80);
    assert!(state.ppu_state.vblank);
    assert_eq!(state.read(0x2002, false), 0x80);
    assert!(!state.ppu_state.vblank);
}

#[test]
fn reset_reads_vector() {
    let ines = assemble(&format!("{}.bank 1\n.org $FFFC\n.db $34\n.db $C2\n", HEADER)).unwrap();
    let state = State::new(ines);
    assert_eq!(state.pc, 0xC234);
}

#[test]
fn brk_jumps_through_vector() {
    let program = format!("{}.org $C000\nBRK\n.bank 1\n.org $FFFE\n.db $00\n.db $D0\n", HEADER);
    let mut state = State::new(assemble(&program).unwrap());
    state.pc = 0xC000;
    state.run_one_instruction();
    assert_eq!(state.pc, 0xD000);
    assert_eq!(state.read(0x01FF, true), 0xC0);
    assert_eq!(state.read(0x01FE, true), 0x02);
    assert_eq!(state.read(0x01FD, true), flags::B | flags::I);
    assert_eq!(state.sp, 0xFC);
}

#[test]
fn ines_header_round_trip() {
    let ines = assemble(".inesprg 1\n.ineschr 1\n.inesmap 3\n.inesmir 1\n").unwrap();
    let bytes = ines.to_bytes();
    assert_eq!(&bytes[0..4], &[0x4E, 0x45, 0x53, 0x1A]);
    assert_eq!(bytes[4], 1);
    assert_eq!(bytes[5], 1);
    assert_eq!(bytes[6] & 1, 1);
    assert_eq!(bytes[6] >> 4, 3);
    assert_eq!(bytes.len(), 16 + 24 * 1024);
    let back = Ines::from_bytes(&bytes).unwrap();
    assert_eq!(back.inesprg, 1);
    assert_eq!(back.ineschr, 1);
    assert_eq!(back.mirroring, 1);
    assert_eq!(back.mapper, 3);
    assert_eq!(back.banks, ines.banks);
}

#[test]
fn zero_page_preference() {
    let ines = assemble(&format!("{}.org $C000\nLDA $10\nLDA $1234\nLDX $10,Y\nLDA $10,Y\n", HEADER)).unwrap();
    assert_eq!(&ines.banks[0..9], &[0xA5, 0x10, 0xAD, 0x34, 0x12, 0xB6, 0x10, 0xB9, 0x10]);
}

#[test]
fn assemble_disassemble_round_trip() {
    let ines = assemble(&format!("{}.org $C000\nLDA $1234,X\nSTA ($20),Y\nJMP ($0300)\nBNE $FE\nASL A\n", HEADER)).unwrap();
    let (instructions, used) = disassemble(&ines.banks[0..11]);
    assert_eq!(used, 11);
    let expect = [
        (Opcode::LDA, AddressingMode::ABS_X, "U16(4660)"),
        (Opcode::STA, AddressingMode::IND_Y, "U8(32)"),
        (Opcode::JMP, AddressingMode::IND, "U16(768)"),
        (Opcode::BNE, AddressingMode::REL, "U8(254)"),
        (Opcode::ASL, AddressingMode::A, "No"),
    ];
    assert_eq!(instructions.len(), expect.len());
    for (Instruction(o, m, v), (eo, em, ev)) in instructions.iter().zip(expect.iter()) {
        assert_eq!(o, eo);
        assert_eq!(m, em);
        assert_eq!(format!("{:?}", v), *ev);
    }
}

#[test]
fn disassemble_stops_at_cut_instruction() {
    let (instructions, used) = disassemble(&[0xEA, 0xAD, 0x00]);
    assert_eq!(instructions.len(), 1);
    assert_eq!(used, 1);
    let (i, n) = Instruction::from_bytes(&[0xAD, 0x34, 0x12]).unwrap();
    assert_eq!(n, 3);
    assert!(matches!(i, Instruction(Opcode::LDA, AddressingMode::ABS, Operand::U16(0x1234))));
}

#[test]
fn labels_resolve_forward_and_backward() {
    let program = format!("{}.org $C000\nstart:\nJMP forward\nforward:\nJMP start\n", HEADER);
    let ines = assemble(&program).unwrap();
    assert_eq!(&ines.banks[0..6], &[0x4C, 0x03, 0xC0, 0x4C, 0x00, 0xC0]);
    assert!(ines.labels.iter().any(|(n, a)| n == "start" && *a == 0xC000));
    assert!(ines.labels.iter().any(|(n, a)| n == "forward" && *a == 0xC003));
}

#[test]
fn instruction_text_in_source_syntax() {
    let ines = assemble(&format!(
        "{}.org $C000\nLDA $1234,X\nSTA ($20),Y\nLDA ($05,X)\nJMP ($0300)\nASL A\nLDA #$0A\nBRK\nLDX $10,Y\n",
        HEADER
    ))
    .unwrap();
    let (instructions, _) = disassemble(&ines.banks[0..16]);
    let texts: Vec<String> = instructions.iter().map(|i| i.to_text()).collect();
    assert_eq!(
        texts,
        vec!["LDA $1234,X", "STA ($20),Y", "LDA ($05,X)", "JMP ($0300)", "ASL A", "LDA #$0A", "BRK", "LDX $10,Y"]
    );
}

#[test]
fn pla_sets_zero_and_negative() {
    let state = run_program(4, "LDA #$00\nPHA\nLDA #$01\nPLA\n");
    assert_eq!(state.a, 0x00);
    assert!(flag(&state, flags::Z));
    assert!(!flag(&state, flags::N));
}

#[test]
fn inc_and_dec_memory() {
    let mut state = run_program(4, "LDA #$FF\nSTA $20\nINC $20\nDEC $21\n");
    assert_eq!(state.read(0x20, true), 0x00);
    assert_eq!(state.read(0x21, true), 0xFF);
    assert!(flag(&state, flags::N));
    assert!(!flag(&state, flags::Z));
}

#[test]
fn bit_test_flags() {
    let state = run_program(4, "LDA #$C0\nSTA $30\nLDA #$01\nBIT $30\n");
    assert!(flag(&state, flags::Z));
    assert!(flag(&state, flags::N));
    assert!(flag(&state, flags::V));
}

#[test]
fn indexed_zero_page_wraps() {
    let mut state = run_program(4, "LDX #$10\nLDA #$5A\nSTA $F8,X\nNOP\n");
    assert_eq!(state.read(0x0008, true), 0x5A);
    assert_eq!(state.read(0x0108, true), 0x00);
}
