use okto::cpu::Operation;
use okto::disassembly::{disassemble, Line};
use okto::{OktoError, OktoErrorKind};

#[test]
fn disassemble_lists_each_pair_of_bytes() {
    let rom = [0x60, 0x25, 0x00, 0xE0, 0xF1, 0x78, 0xD1];
    let lines = disassemble(&rom, 0).unwrap();
    assert_eq!(
        vec![
            Line { address: 0x200, instruction: 0x6025, operation: Some(Operation::LoadImm(0, 0x25)) },
            Line { address: 0x202, instruction: 0x00E0, operation: Some(Operation::Cls) },
            Line { address: 0x204, instruction: 0xF178, operation: None },
        ],
        lines
    );
}

#[test]
fn disassemble_starts_at_the_offset() {
    let rom = [0xAA, 0x60, 0x25, 0x00, 0xEE, 0x12];
    let lines = disassemble(&rom, 1).unwrap();
    assert_eq!(
        vec![
            Line { address: 0x201, instruction: 0x6025, operation: Some(Operation::LoadImm(0, 0x25)) },
            Line { address: 0x203, instruction: 0x00EE, operation: Some(Operation::Ret) },
        ],
        lines
    );
    assert_eq!(Ok(vec![]), disassemble(&rom, 6));
    assert_eq!(Ok(vec![]), disassemble(&rom, 5));
    assert_eq!(1, disassemble(&rom, 4).unwrap().len());
}

#[test]
fn disassemble_of_empty_rom() {
    assert_eq!(Ok(vec![]), disassemble(&[], 0));
}

#[test]
fn disassemble_refuses_a_rom_that_cannot_be_loaded() {
    let rom = vec![0u8; 3584];
    assert_eq!(Err(OktoError::new(OktoErrorKind::RomTooLarge)), disassemble(&rom, 0));
    let rom = vec![0x12u8; 3583];
    let lines = disassemble(&rom, 0).unwrap();
    assert_eq!(1791, lines.len());
    assert_eq!(
        Line { address: 0xFFC, instruction: 0x1212, operation: Some(Operation::Jump(0x212)) },
        lines[1790]
    );
}
