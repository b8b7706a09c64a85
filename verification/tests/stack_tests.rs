use okto::cpu::{Cpu, DEFAULT_PC_ADDRESS, FLAG_REGISTER_INDEX, INSTRUCTION_BYTES, MAX_NUM_STACK_ITEMS};
use okto::{OktoError, OktoErrorKind};

#[test]
fn new_cpu_has_documented_defaults() {
    let cpu = Cpu::new();
    assert_eq!([0u8; 16], cpu.v);
    assert_eq!(0, cpu.i);
    assert_eq!(0x200, cpu.pc);
    assert_eq!(DEFAULT_PC_ADDRESS, cpu.pc);
    assert_eq!(0, cpu.sp);
    assert_eq!([0u16; 16], cpu.stack);
    assert_eq!([0u8; 8], cpu.hp48);
}

#[test]
fn push_increments_stack_pointer_and_stores_value() {
    let mut cpu = Cpu::new();
    assert_eq!(0, cpu.sp);
    assert_eq!(0, cpu.stack[0]);
    cpu.push_stack(0x123).unwrap();
    assert_eq!(1, cpu.sp);
    assert_eq!(0x123, cpu.stack[0]);
}

#[test]
fn sixteen_pushes_succeed_and_the_next_overflows() {
    let mut cpu = Cpu::new();
    for index in 0..MAX_NUM_STACK_ITEMS {
        assert_eq!(Ok(()), cpu.push_stack(0x200 + index as u16));
    }
    assert_eq!(16, cpu.sp);
    let stack_before = cpu.stack;
    assert_eq!(
        Err(OktoError::new(OktoErrorKind::StackOverflow)),
        cpu.push_stack(0x999)
    );
    assert_eq!(16, cpu.sp);
    assert_eq!(stack_before, cpu.stack);
    for index in (0..MAX_NUM_STACK_ITEMS).rev() {
        assert_eq!(Some(0x200 + index as u16), cpu.pop_stack());
    }
    assert_eq!(None, cpu.pop_stack());
}

#[test]
fn pop_of_empty_stack_gives_none_and_keeps_state() {
    let mut cpu = Cpu::new();
    assert_eq!(None, cpu.pop_stack());
    assert_eq!(0, cpu.sp);
    assert_eq!(0x200, cpu.pc);
}

#[test]
fn push_then_pop_gives_the_value_back() {
    let mut cpu = Cpu::new();
    cpu.push_stack(0x123).unwrap();
    assert_eq!(1, cpu.sp);
    assert_eq!(Some(0x123), cpu.pop_stack());
    assert_eq!(0, cpu.sp);
    cpu.push_stack(0x456).unwrap();
    assert_eq!(1, cpu.sp);
    assert_eq!(Some(0x456), cpu.pop_stack());
    cpu.push_stack(0x111).unwrap();
    cpu.push_stack(0x222).unwrap();
    assert_eq!(Some(0x222), cpu.pop_stack());
    assert_eq!(Some(0x111), cpu.pop_stack());
    assert_eq!(None, cpu.pop_stack());
}

#[test]
fn flag_register_is_register_fifteen() {
    let mut cpu = Cpu::new();
    assert_eq!(0, cpu.v[FLAG_REGISTER_INDEX]);
    cpu.set_flag_reg(0x1);
    assert_eq!(1, cpu.v[FLAG_REGISTER_INDEX]);
    assert_eq!(1, cpu.v[15]);
    assert_eq!([0u8; 15], cpu.v[0..15]);
}

#[test]
fn skip_moves_program_counter_by_two() {
    let mut cpu = Cpu::new();
    assert_eq!(0x200, cpu.pc);
    cpu.skip_next_instr();
    assert_eq!(0x200 + INSTRUCTION_BYTES, cpu.pc);
    cpu.skip_if(false);
    assert_eq!(0x202, cpu.pc);
    cpu.skip_if(true);
    assert_eq!(0x204, cpu.pc);
}

#[test]
fn skip_wraps_at_the_width_of_the_counter() {
    let mut cpu = Cpu::new();
    cpu.pc = 0xFFFE;
    cpu.skip_next_instr();
    assert_eq!(0x0000, cpu.pc);
    cpu.pc = 0xFFFF;
    cpu.skip_next_instr();
    assert_eq!(0x0001, cpu.pc);
}

#[test]
fn ret_and_call_use_the_stack() {
    let mut cpu = Cpu::new();
    assert_eq!(Err(OktoError::new(OktoErrorKind::StackUnderflow)), cpu.ret());
    assert_eq!(0x200, cpu.pc);
    assert_eq!(Ok(()), cpu.call(0x345));
    assert_eq!(0x345, cpu.pc);
    assert_eq!(1, cpu.sp);
    assert_eq!(0x200, cpu.stack[0]);
    assert_eq!(Ok(()), cpu.ret());
    assert_eq!(0x200, cpu.pc);
    assert_eq!(0, cpu.sp);
}

#[test]
fn cpu_arithmetic_examples() {
    let mut cpu = Cpu::new();
    cpu.v[2] = 0xFE;
    cpu.v[3] = 0x03;
    cpu.add_reg(2, 3);
    assert_eq!((0x01, 1), (cpu.v[2], cpu.v[0xF]));
    cpu.v[2] = 10;
    cpu.v[3] = 15;
    cpu.add_reg(2, 3);
    assert_eq!((25, 0), (cpu.v[2], cpu.v[0xF]));
    cpu.v[1] = 5;
    cpu.v[2] = 3;
    cpu.sub(1, 2);
    assert_eq!((2, 1), (cpu.v[1], cpu.v[0xF]));
    cpu.v[1] = 3;
    cpu.v[2] = 5;
    cpu.sub(1, 2);
    assert_eq!((0xFE, 0), (cpu.v[1], cpu.v[0xF]));
    cpu.v[1] = 0x03;
    cpu.shr(1);
    assert_eq!((0x01, 1), (cpu.v[1], cpu.v[0xF]));
    cpu.v[1] = 0xC0;
    cpu.shl(1);
    assert_eq!((0x80, 1), (cpu.v[1], cpu.v[0xF]));
    cpu.v[4] = 0xFF;
    cpu.v[0xF] = 7;
    cpu.add_imm(4, 2);
    assert_eq!((0x01, 7), (cpu.v[4], cpu.v[0xF]));
}
