use okto::cpu::DEFAULT_PC_ADDRESS;
use okto::keyboard::{nop_wait_key_callback, WaitKeyResult};
use okto::machine::Machine;
use okto::{OktoError, OktoErrorKind};

fn loaded(rom: &[u8]) -> Machine<fn() -> WaitKeyResult<u8>> {
    let mut machine = Machine::new(Box::new(nop_wait_key_callback as fn() -> WaitKeyResult<u8>));
    machine.memory.load(rom, DEFAULT_PC_ADDRESS, rom.len()).unwrap();
    machine
}

#[test]
fn step_executes_the_instruction_at_the_program_counter() {
    let mut machine = loaded(&[0x60, 0x25]);
    machine.step().unwrap();
    assert_eq!(0x25, machine.cpu.v[0]);
    assert_eq!(0x202, machine.cpu.pc);
}

#[test]
fn step_runs_a_short_program() {
    // V0 = 0xFE; V1 = 3; V0 += V1; call 0x20A; (skipped); I = 0x123; return.
    let mut machine = loaded(&[
        0x60, 0xFE, 0x61, 0x03, 0x80, 0x14, 0x22, 0x0A, 0x00, 0xFD, 0xA1, 0x23, 0x00, 0xEE,
    ]);
    machine.step().unwrap();
    machine.step().unwrap();
    machine.step().unwrap();
    assert_eq!((0x01, 1), (machine.cpu.v[0], machine.cpu.v[0xF]));
    machine.step().unwrap();
    assert_eq!(0x20A, machine.cpu.pc);
    assert_eq!(1, machine.cpu.sp);
    assert_eq!(0x208, machine.cpu.stack[0]);
    machine.step().unwrap();
    assert_eq!(0x123, machine.cpu.i);
    machine.step().unwrap();
    assert_eq!(0x208, machine.cpu.pc);
    assert_eq!(0, machine.cpu.sp);
    machine.step().unwrap();
    assert!(!machine.machine_on);
    assert_eq!(0x20A, machine.cpu.pc);
}

#[test]
fn step_of_a_machine_that_is_off_does_nothing() {
    let mut machine = loaded(&[0x00, 0xFD, 0x60, 0x25]);
    machine.step().unwrap();
    assert!(!machine.machine_on);
    assert_eq!(0x202, machine.cpu.pc);
    for _ in 0..3 {
        assert!(machine.step().is_ok());
        assert_eq!(0x202, machine.cpu.pc);
        assert_eq!(0, machine.cpu.v[0]);
    }
    // Not even an instruction that cannot be fetched is a failure then.
    machine.cpu.pc = 0xFFF;
    assert!(machine.step().is_ok());
    assert_eq!(0xFFF, machine.cpu.pc);
}

#[test]
fn step_skips_relative_to_the_next_instruction() {
    let mut machine = loaded(&[0x30, 0x00, 0x60, 0x11, 0x61, 0x22]);
    machine.step().unwrap();
    assert_eq!(0x204, machine.cpu.pc);
    machine.step().unwrap();
    assert_eq!((0x00, 0x22), (machine.cpu.v[0], machine.cpu.v[1]));
    assert_eq!(0x206, machine.cpu.pc);
}

#[test]
fn step_fails_on_an_instruction_that_cannot_be_decoded() {
    let mut machine = loaded(&[0xF1, 0x78]);
    assert_eq!(
        Some(OktoError::new(OktoErrorKind::InvalidOpcode)),
        machine.step().err()
    );
    assert_eq!(0x200, machine.cpu.pc);
}

#[test]
fn step_fails_on_an_instruction_that_cannot_be_fetched() {
    let mut machine = loaded(&[]);
    machine.cpu.pc = 0xFFF;
    assert_eq!(
        Some(OktoError::new(OktoErrorKind::InvalidOpcode)),
        machine.step().err()
    );
    assert_eq!(0xFFF, machine.cpu.pc);
    machine.cpu.pc = 0xFFFF;
    assert_eq!(
        Some(OktoError::new(OktoErrorKind::InvalidOpcode)),
        machine.step().err()
    );
    assert_eq!(0xFFFF, machine.cpu.pc);
    machine.cpu.pc = 0xFFE;
    machine.memory.data[0xFFE] = 0x6A;
    machine.memory.data[0xFFF] = 0x42;
    machine.step().unwrap();
    assert_eq!(0x42, machine.cpu.v[0xA]);
    assert_eq!(0x1000, machine.cpu.pc);
}

#[test]
fn step_leaves_the_program_counter_advanced_when_the_operation_fails() {
    let mut machine = loaded(&[0x00, 0xEE]);
    assert_eq!(
        Some(OktoError::new(OktoErrorKind::StackUnderflow)),
        machine.step().err()
    );
    assert_eq!(0x202, machine.cpu.pc);
    let mut machine = loaded(&[0xF5, 0x30]);
    assert_eq!(
        Some(OktoError::new(OktoErrorKind::InvalidOpcode)),
        machine.step().err()
    );
    assert_eq!(0x202, machine.cpu.pc);
}

#[test]
fn step_returns_the_machine() {
    let mut machine = loaded(&[0x6B, 0x07, 0x7B, 0x01]);
    let after = machine.step().unwrap().step().unwrap();
    assert_eq!(0x08, after.cpu.v[0xB]);
    assert_eq!(0x204, machine.cpu.pc);
}

#[test]
fn tick_counts_both_timers_down() {
    let mut machine = loaded(&[]);
    machine.tick();
    assert_eq!((0, 0), (machine.delay_timer.value, machine.sound.timer));
    machine.delay_timer.value = 2;
    machine.sound.set_timer(1);
    machine.tick();
    assert_eq!((1, 0), (machine.delay_timer.value, machine.sound.timer));
    machine.tick();
    assert_eq!((0, 0), (machine.delay_timer.value, machine.sound.timer));
    machine.tick();
    assert_eq!((0, 0), (machine.delay_timer.value, machine.sound.timer));
    assert_eq!(0x200, machine.cpu.pc);
}

#[test]
fn timers_do_not_move_with_steps() {
    let mut machine = loaded(&[0x60, 0x09, 0xF0, 0x15, 0xF0, 0x18, 0xF1, 0x07]);
    for _ in 0..4 {
        machine.step().unwrap();
    }
    assert_eq!((9, 9), (machine.delay_timer.value, machine.sound.timer));
    assert_eq!(9, machine.cpu.v[1]);
}
