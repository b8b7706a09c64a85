//! The assembled machine: its state, and the execution of operations on it.
use vstd::prelude::*;
use crate::cpu::{Address, Cpu, CpuState, Immediate, Nibble, Operation, Register, decode};
use crate::display::{Display, DisplayState};
use crate::keyboard::{KeyState, Keyboard, WaitKeyResult, key_state};
use crate::memory::{Memory, initial_memory, range_accessible, with_bytes, word_of};
use crate::sound::Sound;
use crate::timer::{CountdownTimer, DelayTimer, Timer, ticked};
use crate::{OktoError, OktoErrorKind, OktoResult};

verus! {

/// Data structure representing the complete machine.
pub struct Machine<F> where F: FnMut() -> WaitKeyResult<u8> {
    /// CPU component of the machine.
    pub cpu: Cpu,
    /// Delay countdown timer.
    pub delay_timer: DelayTimer,
    /// Video display.
    pub display: Display,
    /// Keyboard component.
    pub keyboard: Keyboard<F>,
    /// Memory component of the machine.
    pub memory: Memory,
    /// Sound card, which is really a glorified timer.
    pub sound: Sound,
    /// Indicates whether or not the machine is still on.
    pub machine_on: bool,
}

/// Mathematical model of the machine: the state of each of its parts.
pub struct MachineState {
    /// The registers and the call stack.
    pub cpu: CpuState,
    /// The value of the delay timer.
    pub delay_timer: Timer,
    /// The frame buffer and the resolution mode.
    pub display: DisplayState,
    /// The state of each key.
    pub keys: Seq<KeyState>,
    /// The bytes of memory.
    pub memory: Seq<u8>,
    /// The value of the sound timer.
    pub sound_timer: Timer,
    /// Whether the machine is still on.
    pub machine_on: bool,
}

/// What an operation leaves behind: the state of the machine, and the kind
/// of failure if the operation failed.
pub struct Outcome {
    /// The state of the machine after the operation.
    pub state: MachineState,
    /// The kind of failure, or `None` if the operation succeeded.
    pub error: Option<OktoErrorKind>,
}

/// The value of the flag register that reports `condition`.
pub open spec fn flag(condition: bool) -> Register {
    if condition {
        1
    } else {
        0
    }
}

/// A call that returned `result` and left the machine in `state` had the
/// given outcome.
pub open spec fn reports(result: OktoResult<()>, state: MachineState, outcome: Outcome) -> bool {
    &&& state == outcome.state
    &&& match result {
        Ok(_) => outcome.error is None,
        Err(error) => outcome.error == Some(error.kind),
    }
}

impl MachineState {
    /// The state of a machine that has just been created.
    pub open spec fn initial() -> MachineState {
        MachineState {
            cpu: CpuState::initial(),
            delay_timer: 0,
            display: DisplayState::blank(),
            keys: Seq::new(16, |k: int| KeyState::Released),
            memory: initial_memory(),
            sound_timer: 0,
            machine_on: true,
        }
    }

    /// Every part of the machine has its fixed size, and the stack pointer
    /// is within the stack.
    pub open spec fn wf(self) -> bool {
        &&& self.cpu.wf()
        &&& self.display.wf()
        &&& self.keys.len() == 16
        &&& self.memory.len() == 0x1000
    }

    /// The outcome of an operation that succeeded and left this state.
    pub open spec fn done(self) -> Outcome {
        Outcome { state: self, error: None }
    }

    /// The outcome of an operation that failed and left this state.
    pub open spec fn failed(self, kind: OktoErrorKind) -> Outcome {
        Outcome { state: self, error: Some(kind) }
    }

    /// The value of register `x`.
    pub open spec fn register(self, x: Register) -> Register {
        self.cpu.v[x as int]
    }

    /// The state with the given CPU state.
    pub open spec fn with_cpu(self, cpu: CpuState) -> MachineState {
        MachineState { cpu, ..self }
    }

    /// The state with the given display.
    pub open spec fn with_display(self, display: DisplayState) -> MachineState {
        MachineState { display, ..self }
    }

    /// The state with the given contents of memory.
    pub open spec fn with_memory(self, memory: Seq<u8>) -> MachineState {
        MachineState { memory, ..self }
    }

    /// The state with register `x` holding `value`.
    pub open spec fn with_register(self, x: Register, value: Register) -> MachineState {
        self.with_cpu(self.cpu.with_register(x as int, value))
    }

    /// The state with the next instruction skipped if `condition` holds.
    pub open spec fn skip_if(self, condition: bool) -> MachineState {
        self.with_cpu(self.cpu.skip_if(condition))
    }

    /// Return from a subroutine; on an empty call stack a failure that
    /// changes nothing.
    pub open spec fn returned(self) -> Outcome {
        if self.cpu.sp == 0 {
            self.failed(OktoErrorKind::StackUnderflow)
        } else {
            self.with_cpu(self.cpu.returned()).done()
        }
    }

    /// Call of the subroutine at `addr`; on a full call stack a failure that
    /// changes nothing.
    pub open spec fn called(self, addr: Address) -> Outcome {
        if self.cpu.sp >= 16 {
            self.failed(OktoErrorKind::StackOverflow)
        } else {
            self.with_cpu(self.cpu.called(addr)).done()
        }
    }

    /// The address register points at the sprite of the digit in register
    /// `x`.
    pub open spec fn digit_addressed(self, x: Register) -> Outcome {
        if self.register(x) > 0xF {
            self.failed(OktoErrorKind::InvalidDigitSprite)
        } else {
            self.with_cpu(self.cpu.with_index((self.register(x) * 5) as Address)).done()
        }
    }

    /// Register `x` takes the random byte `byte`, reduced modulo `imm + 1`.
    pub open spec fn after_random(self, x: Register, imm: Immediate, byte: u8) -> MachineState {
        self.with_register(x, ((byte as int) % (imm + 1)) as Register)
    }

    /// Register `x` takes the key code that the provider returned; a failure
    /// of the provider is passed on with its message.
    pub open spec fn after_key(self, x: Register, key: WaitKeyResult<u8>) -> Outcome {
        match key {
            Ok(code) => self.with_register(x, code).done(),
            Err(message) => self.failed(OktoErrorKind::Unknown(message)),
        }
    }

    /// The sprite of `n` bytes at the address register, or of 16x16 pixels
    /// if `n` is 0, is drawn at the position that registers `x` and `y`
    /// give; then the flag register reports whether a pixel was erased.
    pub open spec fn sprite_drawn(self, x: Register, y: Register, n: Nibble) -> Outcome {
        let count = if n == 0 {
            32
        } else {
            n as int
        };
        let address = self.cpu.i as int;
        let sprite = self.memory.subrange(address, address + count);
        let left = self.register(x) as int;
        let top = self.register(y) as int;
        if !range_accessible(address, count) {
            self.failed(OktoErrorKind::AddressOutOfRange)
        } else if n == 0 {
            MachineState {
                display: self.display.drawn_large(left, top, sprite),
                cpu: self.cpu.with_flag(flag(self.display.erases_large(left, top, sprite))),
                ..self
            }.done()
        } else if n > 15 {
            self.failed(OktoErrorKind::InvalidSprite)
        } else {
            MachineState {
                display: self.display.drawn(left, top, sprite),
                cpu: self.cpu.with_flag(flag(self.display.erases(left, top, sprite))),
                ..self
            }.done()
        }
    }

    /// The three decimal digits of register `x` are stored at the address
    /// register, hundreds first.
    pub open spec fn bcd_stored(self, x: Register) -> Outcome {
        let address = self.cpu.i as int;
        let value = self.register(x);
        if !range_accessible(address, 3) {
            self.failed(OktoErrorKind::AddressOutOfRange)
        } else {
            self.with_memory(
                with_bytes(
                    self.memory,
                    address,
                    seq![(value / 100) as u8, ((value / 10) % 10) as u8, (value % 10) as u8],
                ),
            ).done()
        }
    }

    /// Registers `V0` to `Vx` are stored in memory from the address register
    /// on.
    pub open spec fn registers_stored(self, x: Register) -> Outcome {
        let address = self.cpu.i as int;
        if !range_accessible(address, x + 1) {
            self.failed(OktoErrorKind::AddressOutOfRange)
        } else {
            self.with_memory(with_bytes(self.memory, address, self.cpu.v.take(x + 1))).done()
        }
    }

    /// Registers `V0` to `Vx` are loaded from memory from the address
    /// register on.
    pub open spec fn registers_loaded(self, x: Register) -> Outcome {
        let address = self.cpu.i as int;
        if !range_accessible(address, x + 1) {
            self.failed(OktoErrorKind::AddressOutOfRange)
        } else {
            self.with_cpu(
                CpuState {
                    v: Seq::new(
                        16,
                        |k: int| if k <= x { self.memory[address + k] } else { self.cpu.v[k] },
                    ),
                    ..self.cpu
                },
            ).done()
        }
    }

    /// The first `x` general registers are copied to the HP48 registers.
    pub open spec fn rpl_stored(self, x: Register) -> Outcome {
        if x > 8 {
            self.failed(OktoErrorKind::RegisterOutOfRange(x))
        } else {
            self.with_cpu(
                CpuState {
                    hp48: Seq::new(
                        8,
                        |k: int| if k < x { self.cpu.v[k] } else { self.cpu.hp48[k] },
                    ),
                    ..self.cpu
                },
            ).done()
        }
    }

    /// The first `x` general registers are copied from the HP48 registers.
    pub open spec fn rpl_loaded(self, x: Register) -> Outcome {
        if x > 8 {
            self.failed(OktoErrorKind::RegisterOutOfRange(x))
        } else {
            self.with_cpu(
                CpuState {
                    v: Seq::new(
                        16,
                        |k: int| if k < x { self.cpu.hp48[k] } else { self.cpu.v[k] },
                    ),
                    ..self.cpu
                },
            ).done()
        }
    }

    /// The outcome of one operation. `random` is the byte that the random
    /// number generator gives and `key` what the key-wait provider returns;
    /// only `RandModImm` reads the first and only `WaitKey` the second.
    pub open spec fn executed(self, operation: Operation, random: u8, key: WaitKeyResult<u8>)
        -> Outcome {
        match operation {
            Operation::Cls => self.with_display(self.display.cleared()).done(),
            Operation::Ret => self.returned(),
            Operation::Sys(addr) => self.with_cpu(self.cpu.with_pc(addr)).done(),
            Operation::Jump(addr) => self.with_cpu(self.cpu.with_pc(addr)).done(),
            Operation::JumpAddrPlusV0(addr) => self.with_cpu(
                self.cpu.jumped_with_offset(addr),
            ).done(),
            Operation::Call(addr) => self.called(addr),
            Operation::SkipEqImm(x, imm) => self.skip_if(self.register(x) == imm).done(),
            Operation::SkipEqReg(x, y) => self.skip_if(self.register(x) == self.register(y)).done(),
            Operation::SkipNeqImm(x, imm) => self.skip_if(self.register(x) != imm).done(),
            Operation::SkipNeqReg(x, y) => self.skip_if(
                self.register(x) != self.register(y),
            ).done(),
            Operation::LoadImm(x, imm) => self.with_register(x, imm).done(),
            Operation::LoadReg(x, y) => self.with_register(x, self.register(y)).done(),
            Operation::LoadAddr(addr) => self.with_cpu(self.cpu.with_index(addr)).done(),
            Operation::LoadAddrDigit(x) => self.digit_addressed(x),
            Operation::LoadRegDelay(x) => self.with_register(x, self.delay_timer).done(),
            Operation::LoadDelayReg(x) => MachineState {
                delay_timer: self.register(x),
                ..self
            }.done(),
            Operation::LoadSoundReg(x) => MachineState {
                sound_timer: self.register(x),
                ..self
            }.done(),
            Operation::AddImm(x, imm) => self.with_cpu(self.cpu.added_imm(x, imm)).done(),
            Operation::AddReg(x, y) => self.with_cpu(self.cpu.added(x, y)).done(),
            Operation::AddAddrReg(x) => self.with_cpu(self.cpu.index_advanced(x)).done(),
            Operation::Sub(x, y) => self.with_cpu(
                self.cpu.subtracted(x, self.register(x), self.register(y)),
            ).done(),
            Operation::SubNeg(x, y) => self.with_cpu(
                self.cpu.subtracted(x, self.register(y), self.register(x)),
            ).done(),
            Operation::Or(x, y) => self.with_register(
                x,
                self.register(x) | self.register(y),
            ).done(),
            Operation::And(x, y) => self.with_register(
                x,
                self.register(x) & self.register(y),
            ).done(),
            Operation::Xor(x, y) => self.with_register(
                x,
                self.register(x) ^ self.register(y),
            ).done(),
            Operation::Shr(x) => self.with_cpu(self.cpu.shifted_right(x)).done(),
            Operation::Shl(x) => self.with_cpu(self.cpu.shifted_left(x)).done(),
            Operation::RandModImm(x, imm) => self.after_random(x, imm, random).done(),
            Operation::Draw(x, y, n) => self.sprite_drawn(x, y, n),
            Operation::SkipKey(x) => self.skip_if(
                key_state(self.keys, self.register(x) as int) == Some(KeyState::Pressed),
            ).done(),
            Operation::SkipNotKey(x) => self.skip_if(
                key_state(self.keys, self.register(x) as int) == Some(KeyState::Released),
            ).done(),
            Operation::WaitKey(x) => self.after_key(x, key),
            Operation::MemStoreBcd(x) => self.bcd_stored(x),
            Operation::MemStoreRegs(x) => self.registers_stored(x),
            Operation::MemLoadRegs(x) => self.registers_loaded(x),
            Operation::Scd(n) => self.with_display(self.display.scrolled_down(n as int)).done(),
            Operation::Scr => self.with_display(self.display.scrolled_right()).done(),
            Operation::Scl => self.with_display(self.display.scrolled_left()).done(),
            Operation::Exit => MachineState { machine_on: false, ..self }.done(),
            Operation::Low => self.with_display(self.display.with_resolution(false)).done(),
            Operation::High => self.with_display(self.display.with_resolution(true)).done(),
            Operation::LoadAddrBigDigit(_) => self.failed(OktoErrorKind::InvalidOpcode),
            Operation::RplStoreRegs(x) => self.rpl_stored(x),
            Operation::RplLoadRegs(x) => self.rpl_loaded(x),
        }
    }

    /// The next step executes a `WaitKey` operation: the machine is on and
    /// the instruction at the program counter decodes to one.
    pub open spec fn waits_for_key(self) -> bool {
        let pc = self.cpu.pc as int;
        &&& self.machine_on
        &&& pc < 0xFFF
        &&& decode(word_of(self.memory[pc], self.memory[pc + 1])) matches Some(operation)
        &&& operation is WaitKey
    }

    /// The outcome of one step. A machine that is off stays as it is. One
    /// that is on fetches the instruction at the program counter, moves the
    /// program counter past it and executes the operation that it decodes
    /// to. An instruction that cannot be fetched or decoded is a failure
    /// that changes nothing.
    pub open spec fn stepped(self, random: u8, key: WaitKeyResult<u8>) -> Outcome {
        let pc = self.cpu.pc as int;
        if !self.machine_on {
            self.done()
        } else if pc >= 0xFFF {
            self.failed(OktoErrorKind::InvalidOpcode)
        } else {
            match decode(word_of(self.memory[pc], self.memory[pc + 1])) {
                None => self.failed(OktoErrorKind::InvalidOpcode),
                Some(operation) => self.with_cpu(self.cpu.skip()).executed(operation, random, key),
            }
        }
    }

    /// The state after both timers have ticked once.
    pub open spec fn ticked(self) -> MachineState {
        MachineState {
            delay_timer: ticked(self.delay_timer),
            sound_timer: ticked(self.sound_timer),
            ..self
        }
    }
}

/// Only `RandModImm` depends on the random byte and only `WaitKey` on the
/// answer of the key-wait provider: the outcome of every other operation is
/// fixed by the state of the machine.
pub proof fn lemma_outside_inputs(
    state: MachineState,
    operation: Operation,
    random: u8,
    key: WaitKeyResult<u8>,
    other_random: u8,
    other_key: WaitKeyResult<u8>,
)
    ensures
        !(operation is RandModImm) ==> state.executed(operation, random, key) == state.executed(
            operation,
            other_random,
            key,
        ),
        !(operation is WaitKey) ==> state.executed(operation, random, key) == state.executed(
            operation,
            random,
            other_key,
        ),
{
}

/// What `RplStoreRegs` has saved, `RplLoadRegs` with the same count brings
/// back, whatever the general registers held in between. Both succeed for a
/// count of at most 8, and both fail for a greater one.
pub proof fn lemma_rpl_round_trip(saved: MachineState, later: MachineState, x: Register)
    requires
        saved.wf(),
        later.wf(),
        later.cpu.hp48 == saved.rpl_stored(x).state.cpu.hp48,
    ensures
        x <= 8 ==> saved.rpl_stored(x).error is None && later.rpl_loaded(x).error is None,
        x <= 8 ==> forall|k: int|
            0 <= k < x ==> later.rpl_loaded(x).state.cpu.v[k] == saved.cpu.v[k],
        x > 8 ==> saved.rpl_stored(x).error == Some(OktoErrorKind::RegisterOutOfRange(x))
            && later.rpl_loaded(x).error == Some(OktoErrorKind::RegisterOutOfRange(x)),
{
}

/// Every operation on registers that exist leaves the parts of the machine
/// at their sizes and the stack pointer within the stack.
pub proof fn lemma_executed_wf(
    state: MachineState,
    operation: Operation,
    random: u8,
    key: WaitKeyResult<u8>,
)
    requires
        state.wf(),
        operation.registers_valid(),
    ensures
        state.executed(operation, random, key).state.wf(),
{
}

impl<F> View for Machine<F> where F: FnMut() -> WaitKeyResult<u8> {
    type V = MachineState;

    open spec fn view(&self) -> MachineState {
        MachineState {
            cpu: self.cpu@,
            delay_timer: self.delay_timer.value,
            display: self.display@,
            keys: self.keyboard@,
            memory: self.memory@,
            sound_timer: self.sound@,
            machine_on: self.machine_on,
        }
    }
}

/// Draws a random byte with `rand::random`, which takes it from the random
/// number generator of the calling thread. Every byte may come back, so
/// nothing is claimed of the result.
#[verifier::external_body]
fn random_byte() -> u8 {
    rand::random::<u8>()
}

impl<F> Machine<F> where F: FnMut() -> WaitKeyResult<u8> {
    /// The key-wait provider asks nothing of its caller, so that it may be
    /// called whenever a `WaitKey` operation comes.
    pub open spec fn provider_callable(&self) -> bool {
        call_requires(*self.keyboard.wait_key_callback, ())
    }

    /// `key` is an answer that the key-wait provider may give.
    pub open spec fn provider_answers(&self, key: WaitKeyResult<u8>) -> bool {
        call_ensures(*self.keyboard.wait_key_callback, (), key)
    }

    /// This machine is attached to the same host as `other`: it has the same
    /// key-wait provider and writes the sound timer to the same shared cell.
    pub open spec fn same_host(&self, other: &Self) -> bool {
        &&& self.keyboard.wait_key_callback == other.keyboard.wait_key_callback
        &&& self.sound.shared == other.sound.shared
    }

    /// `outcome` is what `operation` leaves behind for some random byte and
    /// some answer of the key-wait provider. Where the operation is
    /// `WaitKey`, the answer is one that the provider may give.
    pub open spec fn executes_to(&self, operation: Operation, outcome: Outcome) -> bool {
        exists|random: u8, key: WaitKeyResult<u8>|
            #[trigger] self@.executed(operation, random, key) == outcome && (operation is WaitKey
                ==> self.provider_answers(key))
    }

    /// `outcome` is what one step leaves behind for some random byte and
    /// some answer of the key-wait provider. Where the step executes a
    /// `WaitKey` operation, the answer is one that the provider may give.
    pub open spec fn steps_to(&self, outcome: Outcome) -> bool {
        exists|random: u8, key: WaitKeyResult<u8>|
            #[trigger] self@.stepped(random, key) == outcome && (self@.waits_for_key()
                ==> self.provider_answers(key))
    }

    /// Construct a new machine with all of its components.
    pub fn new(wait_key_callback: Box<F>) -> (machine: Self)
        ensures
            machine@ == MachineState::initial(),
            machine@.wf(),
            machine.keyboard.wait_key_callback == wait_key_callback,
    {
        Self {
            cpu: Cpu::new(),
            delay_timer: DelayTimer::new(),
            display: Display::new(),
            keyboard: Keyboard::new(wait_key_callback),
            memory: Memory::new(),
            sound: Sound::new(),
            machine_on: true,
        }
    }

    /// Attempt to read the next instruction from memory and execute it. A
    /// machine that is powered off does nothing and succeeds. Where the
    /// instruction waits for a key, the provider must be one that may be
    /// called; the machine stays attached to the same host.
    pub fn step(&mut self) -> (result: OktoResult<&mut Self>)
        requires
            old(self)@.wf(),
            old(self)@.waits_for_key() ==> old(self).provider_callable(),
        ensures
            match result {
                Ok(machine) => {
                    &&& *final(machine) == *final(self)
                    &&& machine@.wf()
                    &&& machine.same_host(old(self))
                    &&& old(self).steps_to(machine@.done())
                },
                Err(error) => {
                    &&& final(self)@.wf()
                    &&& final(self).same_host(old(self))
                    &&& old(self).steps_to(final(self)@.failed(error.kind))
                },
            },
    {
        if !self.machine_on {
            assert(old(self)@.stepped(0, Ok(0)) == self@.done());
            return Ok(self);
        }
        let result = self.memory.read_instruction(self.cpu.pc);

        if result.is_none() {
            assert(old(self)@.stepped(0, Ok(0)) == self@.failed(OktoErrorKind::InvalidOpcode));
            return Err(OktoError::new(OktoErrorKind::InvalidOpcode));
        }
        let operation = Operation::from_instruction(&result.unwrap());

        if operation.is_none() {
            assert(old(self)@.stepped(0, Ok(0)) == self@.failed(OktoErrorKind::InvalidOpcode));
            return Err(OktoError::new(OktoErrorKind::InvalidOpcode));
        }
        // Move the program counter to the next instruction.
        self.cpu.skip_next_instr();
        let ghost fetched = self@;
        assert(fetched == old(self)@.with_cpu(old(self)@.cpu.skip()));
        assert(forall|random: u8, key: WaitKeyResult<u8>|
            old(self)@.stepped(random, key) == #[trigger] fetched.executed(
                operation.unwrap(),
                random,
                key,
            ));
        self.execute(operation.unwrap())
    }

    /// Executes a single operation on the machine and returns the resulting
    /// updated machine, or an error if the operation failed. What was done
    /// before the failure stays done. `WaitKey` calls the key-wait provider,
    /// which must be one that may be called; the machine stays attached to
    /// the same host.
    pub fn execute(&mut self, operation: Operation) -> (result: OktoResult<&mut Self>)
        requires
            old(self)@.wf(),
            operation.registers_valid(),
            operation is WaitKey ==> old(self).provider_callable(),
        ensures
            match result {
                Ok(machine) => {
                    &&& *final(machine) == *final(self)
                    &&& machine@.wf()
                    &&& machine.same_host(old(self))
                    &&& old(self).executes_to(operation, machine@.done())
                },
                Err(error) => {
                    &&& final(self)@.wf()
                    &&& final(self).same_host(old(self))
                    &&& old(self).executes_to(operation, final(self)@.failed(error.kind))
                },
            },
    {
        let ghost before = self@;
        let ghost mut random: u8 = 0;
        let ghost mut key: WaitKeyResult<u8> = Ok(0);
        let outcome: OktoResult<()> = match operation {
            Operation::Cls => {
                self.display.clear();
                Ok(())
            },
            Operation::Ret => self.cpu.ret(),
            Operation::Sys(addr) => {
                self.cpu.pc = addr;
                Ok(())
            },
            Operation::Jump(addr) => {
                self.cpu.pc = addr;
                Ok(())
            },
            Operation::JumpAddrPlusV0(addr) => {
                self.cpu.jump_with_offset(addr);
                Ok(())
            },
            Operation::Call(addr) => self.cpu.call(addr),
            Operation::SkipEqImm(vx, imm) => {
                self.cpu.skip_if(self.cpu.v[vx as usize] == imm);
                Ok(())
            },
            Operation::SkipEqReg(vx, vy) => {
                self.cpu.skip_if(self.cpu.v[vx as usize] == self.cpu.v[vy as usize]);
                Ok(())
            },
            Operation::SkipNeqImm(vx, imm) => {
                self.cpu.skip_if(self.cpu.v[vx as usize] != imm);
                Ok(())
            },
            Operation::SkipNeqReg(vx, vy) => {
                self.cpu.skip_if(self.cpu.v[vx as usize] != self.cpu.v[vy as usize]);
                Ok(())
            },
            Operation::LoadImm(vx, imm) => {
                self.cpu.v[vx as usize] = imm;
                Ok(())
            },
            Operation::LoadReg(vx, vy) => {
                self.cpu.v[vx as usize] = self.cpu.v[vy as usize];
                Ok(())
            },
            Operation::LoadAddr(addr) => {
                self.cpu.i = addr;
                Ok(())
            },
            Operation::LoadAddrDigit(vx) => {
                let sprite_address = self.memory.sprite_address_for_digit(self.cpu.v[vx as usize]);
                if let Some(digit_addr) = sprite_address {
                    self.cpu.i = digit_addr;
                    Ok(())
                } else {
                    Err(OktoError::new(OktoErrorKind::InvalidDigitSprite))
                }
            },
            Operation::LoadRegDelay(vx) => {
                self.cpu.v[vx as usize] = self.delay_timer.value;
                Ok(())
            },
            Operation::LoadDelayReg(vx) => {
                self.delay_timer.value = self.cpu.v[vx as usize];
                Ok(())
            },
            Operation::LoadSoundReg(vx) => {
                self.sound.set_timer(self.cpu.v[vx as usize]);
                Ok(())
            },
            Operation::AddImm(vx, imm) => {
                self.cpu.add_imm(vx, imm);
                Ok(())
            },
            Operation::AddReg(vx, vy) => {
                self.cpu.add_reg(vx, vy);
                Ok(())
            },
            Operation::AddAddrReg(vx) => {
                self.cpu.add_to_index(vx);
                Ok(())
            },
            Operation::Sub(vx, vy) => {
                self.cpu.sub(vx, vy);
                Ok(())
            },
            Operation::SubNeg(vx, vy) => {
                self.cpu.sub_neg(vx, vy);
                Ok(())
            },
            Operation::Or(vx, vy) => {
                self.cpu.v[vx as usize] = self.cpu.v[vx as usize] | self.cpu.v[vy as usize];
                Ok(())
            },
            Operation::And(vx, vy) => {
                self.cpu.v[vx as usize] = self.cpu.v[vx as usize] & self.cpu.v[vy as usize];
                Ok(())
            },
            Operation::Xor(vx, vy) => {
                self.cpu.v[vx as usize] = self.cpu.v[vx as usize] ^ self.cpu.v[vy as usize];
                Ok(())
            },
            Operation::Shr(vx) => {
                self.cpu.shr(vx);
                Ok(())
            },
            Operation::Shl(vx) => {
                self.cpu.shl(vx);
                Ok(())
            },
            Operation::RandModImm(vx, imm) => {
                let byte = random_byte();
                proof {
                    random = byte;
                }
                self.load_random(vx, imm, byte);
                Ok(())
            },
            Operation::Draw(vx, vy, size_bytes) => self.draw_sprite(vx, vy, size_bytes),
            Operation::SkipKey(vx) => {
                let pressed = self.keyboard.key_is(self.cpu.v[vx as usize], KeyState::Pressed);
                self.cpu.skip_if(pressed);
                Ok(())
            },
            Operation::SkipNotKey(vx) => {
                let released = self.keyboard.key_is(self.cpu.v[vx as usize], KeyState::Released);
                self.cpu.skip_if(released);
                Ok(())
            },
            Operation::WaitKey(vx) => {
                let pressed = self.keyboard.wait_key();
                proof {
                    key = pressed;
                }
                self.load_key(vx, pressed)
            },
            Operation::MemStoreBcd(vx) => self.store_bcd(vx),
            Operation::MemStoreRegs(vx) => self.store_registers(vx),
            Operation::MemLoadRegs(vx) => self.load_registers(vx),
            // SuperChip8 operations
            Operation::Scd(num_lines) => {
                self.display.scroll_down(num_lines as usize);
                Ok(())
            },
            Operation::Scr => {
                self.display.scroll_right();
                Ok(())
            },
            Operation::Scl => {
                self.display.scroll_left();
                Ok(())
            },
            Operation::Exit => {
                self.machine_on = false;
                Ok(())
            },
            Operation::High => {
                self.display.high_resolution = true;
                Ok(())
            },
            Operation::Low => {
                self.display.high_resolution = false;
                Ok(())
            },
            Operation::LoadAddrBigDigit(_) => Err(OktoError::new(OktoErrorKind::InvalidOpcode)),
            Operation::RplStoreRegs(vx) => self.rpl_store(vx),
            Operation::RplLoadRegs(vx) => self.rpl_load(vx),
        };
        assert(reports(outcome, self@, before.executed(operation, random, key)));
        match outcome {
            Ok(()) => Ok(self),
            Err(error) => Err(error),
        }
    }

    /// Advance both timers by one tick.
    pub fn tick(&mut self)
        ensures
            final(self)@ == old(self)@.ticked(),
            final(self).same_host(old(self)),
    {
        self.sound.tick();
        self.delay_timer.tick();
    }

    /// What the `RandModImm` operation does once the random byte is drawn:
    /// register `vx` takes `byte` modulo `imm + 1`.
    pub fn load_random(&mut self, vx: Register, imm: Immediate, byte: u8)
        requires
            vx < 16,
        ensures
            final(self)@ == old(self)@.after_random(vx, imm, byte),
            final(self).keyboard == old(self).keyboard,
            final(self).sound == old(self).sound,
    {
        self.cpu.v[vx as usize] = (byte as u16 % (imm as u16 + 1)) as u8;
    }

    /// What the `WaitKey` operation does once the provider has returned:
    /// register `vx` takes the key code, or the failure is passed on.
    pub fn load_key(&mut self, vx: Register, key: WaitKeyResult<u8>) -> (result: OktoResult<()>)
        requires
            vx < 16,
        ensures
            reports(result, final(self)@, old(self)@.after_key(vx, key)),
            final(self).keyboard == old(self).keyboard,
            final(self).sound == old(self).sound,
    {
        match key {
            Ok(value) => {
                self.cpu.v[vx as usize] = value;
                Ok(())
            },
            Err(err) => Err(OktoError::new(OktoErrorKind::Unknown(err))),
        }
    }

    /// Draws the sprite at the address register at the position that the
    /// two registers give, and reports in the flag register whether a pixel
    /// was erased.
    fn draw_sprite(&mut self, vx: Register, vy: Register, size_bytes: Nibble) -> (result:
        OktoResult<()>)
        requires
            vx < 16,
            vy < 16,
        ensures
            reports(result, final(self)@, old(self)@.sprite_drawn(vx, vy, size_bytes)),
            final(self).keyboard == old(self).keyboard,
            final(self).sound == old(self).sound,
    {
        let x = self.cpu.v[vx as usize] as usize;
        let y = self.cpu.v[vy as usize] as usize;
        if size_bytes == 0 {
            let sprite_data = match self.memory.read_bytes(self.cpu.i, 32) {
                Ok(data) => data,
                Err(error) => {
                    return Err(error);
                },
            };
            let pixels_erased = match self.display.draw_large(x, y, sprite_data) {
                Ok(erased) => erased,
                Err(error) => {
                    return Err(error);
                },
            };
            self.cpu.set_flag_reg(if pixels_erased { 0x01 } else { 0x00 });
        } else {
            let sprite_data = match self.memory.read_bytes(self.cpu.i, size_bytes as usize) {
                Ok(data) => data,
                Err(error) => {
                    return Err(error);
                },
            };
            let pixels_erased = match self.display.draw(x, y, sprite_data) {
                Ok(erased) => erased,
                Err(error) => {
                    return Err(error);
                },
            };
            self.cpu.set_flag_reg(if pixels_erased { 0x01 } else { 0x00 });
        }
        Ok(())
    }

    /// Stores the decimal digits of a register at the address register.
    fn store_bcd(&mut self, vx: Register) -> (result: OktoResult<()>)
        requires
            vx < 16,
        ensures
            reports(result, final(self)@, old(self)@.bcd_stored(vx)),
            final(self).keyboard == old(self).keyboard,
            final(self).sound == old(self).sound,
    {
        let addr = self.cpu.i as usize;
        let value = self.cpu.v[vx as usize];
        if addr + 3 >= 0x1000 {
            return Err(OktoError::new(OktoErrorKind::AddressOutOfRange));
        }
        self.memory.data[addr] = value / 100;
        self.memory.data[addr + 1] = (value / 10) % 10;
        self.memory.data[addr + 2] = value % 10;
        assert(self.memory@ =~= with_bytes(
            old(self).memory@,
            addr as int,
            seq![(value / 100) as u8, ((value / 10) % 10) as u8, (value % 10) as u8],
        ));
        Ok(())
    }

    /// Stores the registers up to `vx` in memory at the address register.
    fn store_registers(&mut self, vx: Register) -> (result: OktoResult<()>)
        requires
            vx < 16,
        ensures
            reports(result, final(self)@, old(self)@.registers_stored(vx)),
            final(self).keyboard == old(self).keyboard,
            final(self).sound == old(self).sound,
    {
        let addr = self.cpu.i as usize;
        if addr + (vx as usize) + 1 >= 0x1000 {
            return Err(OktoError::new(OktoErrorKind::AddressOutOfRange));
        }
        let mut index: usize = 0;
        while index <= vx as usize
            invariant
                index <= vx + 1,
                vx < 16,
                addr == old(self).cpu.i,
                addr + vx + 1 < 0x1000,
                self.cpu == old(self).cpu,
                self.delay_timer == old(self).delay_timer,
                self.display == old(self).display,
                self.keyboard == old(self).keyboard,
                self.sound == old(self).sound,
                self.machine_on == old(self).machine_on,
                forall|a: int|
                    0 <= a < 0x1000 ==> #[trigger] self.memory.data@[a] == if addr <= a < addr
                        + index {
                        self.cpu.v@[a - addr]
                    } else {
                        old(self).memory.data@[a]
                    },
            decreases vx + 1 - index,
        {
            self.memory.data[addr + index] = self.cpu.v[index];
            index += 1;
        }
        assert(self.memory@ =~= with_bytes(
            old(self).memory@,
            addr as int,
            old(self).cpu.v@.take(vx + 1),
        ));
        Ok(())
    }

    /// Loads the registers up to `vx` from memory at the address register.
    fn load_registers(&mut self, vx: Register) -> (result: OktoResult<()>)
        requires
            vx < 16,
        ensures
            reports(result, final(self)@, old(self)@.registers_loaded(vx)),
            final(self).keyboard == old(self).keyboard,
            final(self).sound == old(self).sound,
    {
        let addr = self.cpu.i as usize;
        if addr + (vx as usize) + 1 >= 0x1000 {
            return Err(OktoError::new(OktoErrorKind::AddressOutOfRange));
        }
        let mut index: usize = 0;
        while index <= vx as usize
            invariant
                index <= vx + 1,
                vx < 16,
                addr == old(self).cpu.i,
                addr + vx + 1 < 0x1000,
                self.cpu.i == old(self).cpu.i,
                self.cpu.pc == old(self).cpu.pc,
                self.cpu.sp == old(self).cpu.sp,
                self.cpu.stack == old(self).cpu.stack,
                self.cpu.hp48 == old(self).cpu.hp48,
                self.memory == old(self).memory,
                self.delay_timer == old(self).delay_timer,
                self.display == old(self).display,
                self.keyboard == old(self).keyboard,
                self.sound == old(self).sound,
                self.machine_on == old(self).machine_on,
                forall|k: int|
                    0 <= k < 16 ==> #[trigger] self.cpu.v@[k] == if k < index {
                        self.memory.data@[addr + k]
                    } else {
                        old(self).cpu.v@[k]
                    },
            decreases vx + 1 - index,
        {
            self.cpu.v[index] = self.memory.data[addr + index];
            index += 1;
        }
        assert(self@.cpu.v =~= old(self)@.registers_loaded(vx).state.cpu.v);
        Ok(())
    }

    /// Copies the first `vx` registers to the HP48 registers.
    fn rpl_store(&mut self, vx: Register) -> (result: OktoResult<()>)
        requires
            vx < 16,
        ensures
            reports(result, final(self)@, old(self)@.rpl_stored(vx)),
            final(self).keyboard == old(self).keyboard,
            final(self).sound == old(self).sound,
    {
        if vx > 8 {
            return Err(OktoError::new(OktoErrorKind::RegisterOutOfRange(vx)));
        }
        let mut index: usize = 0;
        while index < vx as usize
            invariant
                index <= vx <= 8,
                self.cpu.v == old(self).cpu.v,
                self.cpu.i == old(self).cpu.i,
                self.cpu.pc == old(self).cpu.pc,
                self.cpu.sp == old(self).cpu.sp,
                self.cpu.stack == old(self).cpu.stack,
                self.memory == old(self).memory,
                self.delay_timer == old(self).delay_timer,
                self.display == old(self).display,
                self.keyboard == old(self).keyboard,
                self.sound == old(self).sound,
                self.machine_on == old(self).machine_on,
                forall|k: int|
                    0 <= k < 8 ==> #[trigger] self.cpu.hp48@[k] == if k < index {
                        self.cpu.v@[k]
                    } else {
                        old(self).cpu.hp48@[k]
                    },
            decreases vx - index,
        {
            self.cpu.hp48[index] = self.cpu.v[index];
            index += 1;
        }
        assert(self@.cpu.hp48 =~= old(self)@.rpl_stored(vx).state.cpu.hp48);
        Ok(())
    }

    /// Copies the first `vx` registers from the HP48 registers.
    fn rpl_load(&mut self, vx: Register) -> (result: OktoResult<()>)
        requires
            vx < 16,
        ensures
            reports(result, final(self)@, old(self)@.rpl_loaded(vx)),
            final(self).keyboard == old(self).keyboard,
            final(self).sound == old(self).sound,
    {
        if vx > 8 {
            return Err(OktoError::new(OktoErrorKind::RegisterOutOfRange(vx)));
        }
        let mut index: usize = 0;
        while index < vx as usize
            invariant
                index <= vx <= 8,
                self.cpu.hp48 == old(self).cpu.hp48,
                self.cpu.i == old(self).cpu.i,
                self.cpu.pc == old(self).cpu.pc,
                self.cpu.sp == old(self).cpu.sp,
                self.cpu.stack == old(self).cpu.stack,
                self.memory == old(self).memory,
                self.delay_timer == old(self).delay_timer,
                self.display == old(self).display,
                self.keyboard == old(self).keyboard,
                self.sound == old(self).sound,
                self.machine_on == old(self).machine_on,
                forall|k: int|
                    0 <= k < 16 ==> #[trigger] self.cpu.v@[k] == if k < index {
                        self.cpu.hp48@[k]
                    } else {
                        old(self).cpu.v@[k]
                    },
            decreases vx - index,
        {
            self.cpu.v[index] = self.cpu.hp48[index];
            index += 1;
        }
        assert(self@.cpu.v =~= old(self)@.rpl_loaded(vx).state.cpu.v);
        Ok(())
    }
}

} // verus!
