use okto::cpu::{Instruction, InstructionParts, Operation};

#[test]
fn decode_is_total_over_all_words() {
    let mut decoded: u32 = 0;
    let mut unknown: u32 = 0;
    for word in 0..=0xFFFFu32 {
        match Operation::from_instruction(&(word as Instruction)) {
            Some(_) => decoded += 1,
            None => unknown += 1,
        }
    }
    assert_eq!(0x10000, decoded + unknown);
    // Families 5 and 9 keep one low nibble of 16, family 8 nine of 16,
    // family E two low bytes of 256 and family F twelve of 256.
    let expected_unknown = 2 * 15 * 256 + 7 * 256 + 254 * 16 + 244 * 16;
    assert_eq!(expected_unknown, unknown);
}

#[test]
fn decode_reads_every_field() {
    for word in 0..=0xFFFFu32 {
        let instruction = word as Instruction;
        assert_eq!(((word >> 8) & 0xF) as u8, instruction.vx());
        assert_eq!(((word >> 4) & 0xF) as u8, instruction.vy());
        assert_eq!((word & 0xFFF) as u16, instruction.addr());
        assert_eq!((word & 0xFF) as u8, instruction.imm());
        assert_eq!((word & 0xF) as u8, instruction.nib());
    }
}

#[test]
fn decode_scroll_down_forms() {
    assert_eq!(Some(Operation::Scd(0x5)), Operation::from_instruction(&0x00C5));
    assert_eq!(Some(Operation::Scd(0x0)), Operation::from_instruction(&0x00C0));
    assert_eq!(Some(Operation::Scd(0xF)), Operation::from_instruction(&0x00CF));
    // Only the y field selects the scroll: the x field is free.
    assert_eq!(Some(Operation::Scd(0x5)), Operation::from_instruction(&0x01C5));
}

#[test]
fn decode_system_calls() {
    assert_eq!(Some(Operation::Sys(0x000)), Operation::from_instruction(&0x0000));
    assert_eq!(Some(Operation::Sys(0x0E1)), Operation::from_instruction(&0x00E1));
    assert_eq!(Some(Operation::Sys(0x0FA)), Operation::from_instruction(&0x00FA));
    assert_eq!(Some(Operation::Sys(0xFFF)), Operation::from_instruction(&0x0FFF));
    assert_eq!(Some(Operation::Sys(0x1E0)), Operation::from_instruction(&0x01E0));
}

#[test]
fn decode_documented_patterns() {
    assert_eq!(Some(Operation::Draw(1, 0xF, 3)), Operation::from_instruction(&0xD1F3));
    assert_eq!(Some(Operation::Draw(4, 5, 3)), Operation::from_instruction(&0xD453));
    assert_eq!(Some(Operation::Cls), Operation::from_instruction(&0x00E0));
    assert_eq!(Some(Operation::LoadAddrBigDigit(5)), Operation::from_instruction(&0xF530));
    assert_eq!(Some(Operation::LoadImm(0, 0x25)), Operation::from_instruction(&0x6025));
    assert_eq!(None, Operation::from_instruction(&0xF178));
}

#[test]
fn decode_shifts_ignore_the_y_field() {
    assert_eq!(Some(Operation::Shr(0x2)), Operation::from_instruction(&0x8206));
    assert_eq!(Some(Operation::Shr(0x2)), Operation::from_instruction(&0x82F6));
    assert_eq!(Some(Operation::Shl(0xA)), Operation::from_instruction(&0x8A0E));
    assert_eq!(Some(Operation::Shl(0xA)), Operation::from_instruction(&0x8A3E));
}

#[test]
fn decode_every_family_with_extreme_operands() {
    assert_eq!(Some(Operation::Jump(0x000)), Operation::from_instruction(&0x1000));
    assert_eq!(Some(Operation::Jump(0xFFF)), Operation::from_instruction(&0x1FFF));
    assert_eq!(Some(Operation::Call(0x000)), Operation::from_instruction(&0x2000));
    assert_eq!(Some(Operation::SkipEqImm(0xF, 0xFF)), Operation::from_instruction(&0x3FFF));
    assert_eq!(Some(Operation::SkipNeqImm(0x0, 0x00)), Operation::from_instruction(&0x4000));
    assert_eq!(Some(Operation::SkipEqReg(0xF, 0xF)), Operation::from_instruction(&0x5FF0));
    assert_eq!(Some(Operation::LoadImm(0xF, 0xFF)), Operation::from_instruction(&0x6FFF));
    assert_eq!(Some(Operation::AddImm(0x0, 0xFF)), Operation::from_instruction(&0x70FF));
    assert_eq!(Some(Operation::SkipNeqReg(0x0, 0x0)), Operation::from_instruction(&0x9000));
    assert_eq!(Some(Operation::LoadAddr(0xFFF)), Operation::from_instruction(&0xAFFF));
    assert_eq!(Some(Operation::JumpAddrPlusV0(0x000)), Operation::from_instruction(&0xB000));
    assert_eq!(Some(Operation::RandModImm(0x0, 0xFF)), Operation::from_instruction(&0xC0FF));
    assert_eq!(Some(Operation::Draw(0xF, 0xF, 0x0)), Operation::from_instruction(&0xDFF0));
    assert_eq!(Some(Operation::SkipKey(0xF)), Operation::from_instruction(&0xEF9E));
    assert_eq!(Some(Operation::SkipNotKey(0x0)), Operation::from_instruction(&0xE0A1));
    assert_eq!(Some(Operation::RplLoadRegs(0xF)), Operation::from_instruction(&0xFF85));
}
