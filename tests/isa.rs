use remun::isa::codepoint;
use remun::machine::Range;
use remun::{opcode_addressing_modes, opcode_iter, AddressingMode, Codepoint, Opcode};

#[test]
fn table_covers_every_byte() {
    for b in 0..=255u8 {
        let c = codepoint(b);
        if c.addressing_mode != AddressingMode::J {
            assert_eq!(c.addressing_mode.get_len() as usize, c.addressing_mode.arity() + 1);
        }
    }
    assert_eq!(codepoint(0xA9), Codepoint { opcode: Opcode::LDA, addressing_mode: AddressingMode::IMM });
    assert_eq!(codepoint(0x02), Codepoint { opcode: Opcode::JAM, addressing_mode: AddressingMode::J });
}

#[test]
fn mnemonic_list() {
    let all = opcode_iter();
    assert_eq!(all.len(), 77);
    assert_eq!(all[0], Opcode::ADC);
    assert_eq!(all[76], Opcode::JAM);
}

#[test]
fn modes_of_a_mnemonic() {
    let modes = opcode_addressing_modes(&Opcode::LDX);
    assert_eq!(
        modes,
        vec![AddressingMode::IMM, AddressingMode::ZPG, AddressingMode::ABS, AddressingMode::ZPG_Y, AddressingMode::ABS_Y]
    );
    assert_eq!(opcode_addressing_modes(&Opcode::BNE), vec![AddressingMode::REL]);
}

#[test]
fn mode_lengths() {
    assert_eq!(AddressingMode::IMPL.get_len(), 1);
    assert_eq!(AddressingMode::ZPG_X.get_len(), 2);
    assert_eq!(AddressingMode::IND.get_len(), 3);
    assert_eq!(AddressingMode::J.arity(), 0);
}

#[test]
fn half_open_range() {
    let r = Range(0x2000, 0x2008);
    assert!(r.contains(0x2000));
    assert!(r.contains(0x2007));
    assert!(!r.contains(0x2008));
}
