//! Register file, call stack and instruction set of the machine.
use vstd::prelude::*;
use crate::{OktoError, OktoErrorKind, OktoResult};

verus! {

/// Memory address type.
pub type Address = u16;

/// Register type.
pub type Register = u8;

/// Opcode immediate value type.
pub type Immediate = u8;

/// Opcode nibble value type.
pub type Nibble = u8;

/// Instruction type.
pub type Instruction = u16;

/// The number of general registers.
pub const NUM_REGISTERS: usize = 16;

/// The maximum number of items allowed on the stack.
pub const MAX_NUM_STACK_ITEMS: usize = 16;

/// The default address for the program counter.
pub const DEFAULT_PC_ADDRESS: Address = 0x200;

/// The number of bytes in an instruction.
pub const INSTRUCTION_BYTES: Address = 2;

/// The index of the flag register (a.k.a. VF).
pub const FLAG_REGISTER_INDEX: usize = 0xF;

/// The number of HP48 registers.
pub const NUM_HP48_REGISTERS: usize = 8;

/// CPU state at a moment in time.
pub struct Cpu {
    /// The 16 8-bit registers.
    pub v: [Register; NUM_REGISTERS],
    /// The 16-bit address register.
    pub i: Address,
    /// The 16-bit program counter.
    pub pc: Address,
    /// The 8-bit stack pointer.
    pub sp: Register,
    /// The 16 item stack.
    pub stack: [Address; MAX_NUM_STACK_ITEMS],
    /// The 8 HP48 flag registers.
    pub hp48: [Register; NUM_HP48_REGISTERS],
}

/// Mathematical model of the CPU: what a `Cpu` holds, as plain values.
pub struct CpuState {
    /// The general registers, `V0` first.
    pub v: Seq<Register>,
    /// The address register.
    pub i: Address,
    /// The program counter.
    pub pc: Address,
    /// The number of addresses on the call stack.
    pub sp: Register,
    /// The slots of the call stack; those below `sp` are in use.
    pub stack: Seq<Address>,
    /// The HP48 flag registers.
    pub hp48: Seq<Register>,
}

impl CpuState {
    /// The state of a CPU that has just been created.
    pub open spec fn initial() -> CpuState {
        CpuState {
            v: Seq::new(16, |k: int| 0u8),
            i: 0,
            pc: 0x200,
            sp: 0,
            stack: Seq::new(16, |k: int| 0u16),
            hp48: Seq::new(8, |k: int| 0u8),
        }
    }

    /// The register banks have their fixed sizes and the stack pointer is
    /// within the stack.
    pub open spec fn wf(self) -> bool {
        &&& self.v.len() == 16
        &&& self.stack.len() == 16
        &&& self.hp48.len() == 8
        &&& self.sp <= 16
    }

    /// The return addresses that are on the call stack, oldest first.
    pub open spec fn call_stack(self) -> Seq<Address> {
        self.stack.take(self.sp as int)
    }

    /// The state after `value` has been pushed on a stack that is not full.
    pub open spec fn push(self, value: Address) -> CpuState {
        CpuState {
            stack: self.stack.update(self.sp as int, value),
            sp: (self.sp + 1) as Register,
            ..self
        }
    }

    /// The address on top of a stack that is not empty.
    pub open spec fn top(self) -> Address {
        self.stack[self.sp - 1]
    }

    /// The state after the top of a stack that is not empty has been popped.
    pub open spec fn pop(self) -> CpuState {
        CpuState { sp: (self.sp - 1) as Register, ..self }
    }

    /// The state with register `x` holding `value`.
    pub open spec fn with_register(self, x: int, value: Register) -> CpuState {
        CpuState { v: self.v.update(x, value), ..self }
    }

    /// The state with the flag register holding `value`.
    pub open spec fn with_flag(self, value: Register) -> CpuState {
        self.with_register(0xF, value)
    }

    /// The state with the address register holding `value`.
    pub open spec fn with_index(self, value: Address) -> CpuState {
        CpuState { i: value, ..self }
    }

    /// The state with the program counter at `value`.
    pub open spec fn with_pc(self, value: Address) -> CpuState {
        CpuState { pc: value, ..self }
    }

    /// The state with the program counter moved past one instruction,
    /// wrapping at the width of the counter.
    pub open spec fn skip(self) -> CpuState {
        self.with_pc(((self.pc + 2) % 0x1_0000) as Address)
    }

    /// The state with the next instruction skipped if `condition` holds.
    pub open spec fn skip_if(self, condition: bool) -> CpuState {
        if condition {
            self.skip()
        } else {
            self
        }
    }

    /// The value of register `x`.
    pub open spec fn register(self, x: Register) -> Register {
        self.v[x as int]
    }

    /// The state after a return from a subroutine, on a stack that is not
    /// empty: the address on top of the stack is the program counter.
    pub open spec fn returned(self) -> CpuState {
        self.pop().with_pc(self.top())
    }

    /// The state after a call of the subroutine at `addr`, on a stack that
    /// is not full: the program counter is on the stack.
    pub open spec fn called(self, addr: Address) -> CpuState {
        self.push(self.pc).with_pc(addr)
    }

    /// The state after a jump to `addr` plus the value of `V0`, within the
    /// address space.
    pub open spec fn jumped_with_offset(self, addr: Address) -> CpuState {
        self.with_pc(((addr + self.register(0)) % 0x1000) as Address)
    }

    /// Register `x` takes the sum of itself and `imm`, wrapping; the flag
    /// register stays.
    pub open spec fn added_imm(self, x: Register, imm: Immediate) -> CpuState {
        self.with_register(x as int, ((self.register(x) + imm) % 0x100) as Register)
    }

    /// The flag register takes the carry of the sum of registers `x` and
    /// `y`; then register `x` takes the sum, wrapping.
    pub open spec fn added(self, x: Register, y: Register) -> CpuState {
        let sum = self.register(x) + self.register(y);
        self.with_flag(if sum > 0xFF { 1 } else { 0 }).with_register(
            x as int,
            (sum % 0x100) as Register,
        )
    }

    /// The address register is advanced by the value of register `x`,
    /// within the address space.
    pub open spec fn index_advanced(self, x: Register) -> CpuState {
        self.with_index(((self.i + self.register(x)) % 0x1000) as Address)
    }

    /// Register `x` takes `minuend - subtrahend`, wrapping; then the flag
    /// register reports whether the minuend was the greater.
    pub open spec fn subtracted(self, x: Register, minuend: Register, subtrahend: Register)
        -> CpuState {
        self.with_register(x as int, ((minuend - subtrahend) % 0x100) as Register).with_flag(
            if minuend > subtrahend {
                1
            } else {
                0
            },
        )
    }

    /// The flag register takes the lowest bit of register `x`; then register
    /// `x` is shifted right by one bit.
    pub open spec fn shifted_right(self, x: Register) -> CpuState {
        let flagged = self.with_flag(self.register(x) & 1);
        flagged.with_register(x as int, flagged.register(x) >> 1)
    }

    /// The flag register takes the highest bit of register `x`; then
    /// register `x` is shifted left by one bit.
    pub open spec fn shifted_left(self, x: Register) -> CpuState {
        let flagged = self.with_flag((self.register(x) >> 7) & 1);
        flagged.with_register(x as int, flagged.register(x) << 1)
    }
}

impl View for Cpu {
    type V = CpuState;

    open spec fn view(&self) -> CpuState {
        CpuState {
            v: self.v@,
            i: self.i,
            pc: self.pc,
            sp: self.sp,
            stack: self.stack@,
            hp48: self.hp48@,
        }
    }
}

impl Cpu {
    /// Initialize a new `Cpu` with cleared registers, an empty stack and the
    /// program counter at the start of program memory.
    pub fn new() -> (cpu: Self)
        ensures
            cpu@ == CpuState::initial(),
            cpu@.wf(),
    {
        let cpu = Self {
            v: [0u8; 16],
            i: 0,
            pc: DEFAULT_PC_ADDRESS,
            sp: 0,
            stack: [0u16; 16],
            hp48: [0u8; 8],
        };
        assert(cpu@.v =~= CpuState::initial().v);
        assert(cpu@.stack =~= CpuState::initial().stack);
        assert(cpu@.hp48 =~= CpuState::initial().hp48);
        cpu
    }

    /// Attempts to push a new value on top of the call stack. On success the
    /// stack pointer is incremented. A full stack is left as it is and
    /// reported as an overflow.
    pub fn push_stack(&mut self, value: Address) -> (result: OktoResult<()>)
        ensures
            old(self).sp < 16 ==> result is Ok && final(self)@ == old(self)@.push(value),
            old(self).sp >= 16 ==> result is Err && result->Err_0.kind
                == OktoErrorKind::StackOverflow && *final(self) == *old(self),
            old(self)@.wf() ==> final(self)@.wf(),
    {
        if self.sp as usize >= MAX_NUM_STACK_ITEMS {
            return Err(OktoError::new(OktoErrorKind::StackOverflow));
        }
        self.stack[self.sp as usize] = value;
        self.sp += 1;
        Ok(())
    }

    /// Attempts to pop the call stack. On success the stack pointer is
    /// decremented and the address that was on top is returned. An empty
    /// stack is left as it is and `None` is returned.
    pub fn pop_stack(&mut self) -> (result: Option<Address>)
        requires
            old(self)@.wf(),
        ensures
            old(self).sp == 0 ==> result is None && *final(self) == *old(self),
            old(self).sp > 0 ==> result == Some(old(self)@.top()) && final(self)@ == old(
                self,
            )@.pop(),
            final(self)@.wf(),
    {
        if self.sp == 0 {
            return None;
        }
        self.sp -= 1;
        Some(self.stack[self.sp as usize])
    }

    /// Set the value of the flag register.
    pub fn set_flag_reg(&mut self, value: Register)
        ensures
            final(self)@ == old(self)@.with_flag(value),
    {
        self.v[FLAG_REGISTER_INDEX] = value;
    }

    /// Skips the next instruction by moving the program counter past it.
    pub fn skip_next_instr(&mut self)
        ensures
            final(self)@ == old(self)@.skip(),
    {
        self.pc = self.pc.wrapping_add(INSTRUCTION_BYTES);
    }

    /// Skips the next instruction if `condition` holds.
    pub fn skip_if(&mut self, condition: bool)
        ensures
            final(self)@ == old(self)@.skip_if(condition),
    {
        if condition {
            self.skip_next_instr();
        }
    }

    /// Returns from a subroutine: pops the call stack into the program
    /// counter. An empty stack is reported as an underflow, and nothing
    /// changes.
    pub fn ret(&mut self) -> (result: OktoResult<()>)
        requires
            old(self)@.wf(),
        ensures
            old(self).sp > 0 ==> result is Ok && final(self)@ == old(self)@.returned(),
            old(self).sp == 0 ==> result is Err && result->Err_0.kind
                == OktoErrorKind::StackUnderflow && *final(self) == *old(self),
            final(self)@.wf(),
    {
        if let Some(return_addr) = self.pop_stack() {
            self.pc = return_addr;
            Ok(())
        } else {
            Err(OktoError::new(OktoErrorKind::StackUnderflow))
        }
    }

    /// Calls the subroutine at `addr`: pushes the program counter and jumps.
    /// A full stack is reported as an overflow, and nothing changes.
    pub fn call(&mut self, addr: Address) -> (result: OktoResult<()>)
        ensures
            old(self).sp < 16 ==> result is Ok && final(self)@ == old(self)@.called(addr),
            old(self).sp >= 16 ==> result is Err && result->Err_0.kind
                == OktoErrorKind::StackOverflow && *final(self) == *old(self),
            old(self)@.wf() ==> final(self)@.wf(),
    {
        let pc = self.pc;
        match self.push_stack(pc) {
            Err(error) => Err(error),
            Ok(()) => {
                self.pc = addr;
                Ok(())
            },
        }
    }

    /// Jumps to `addr` plus the value of `V0`, wrapping within the address
    /// space.
    pub fn jump_with_offset(&mut self, addr: Address)
        ensures
            final(self)@ == old(self)@.jumped_with_offset(addr),
    {
        self.pc = ((addr as u32 + self.v[0] as u32) % 0x1000) as u16;
    }

    /// Adds `imm` to register `vx`, wrapping. The flag register is not
    /// touched.
    pub fn add_imm(&mut self, vx: Register, imm: Immediate)
        requires
            vx < 16,
        ensures
            final(self)@ == old(self)@.added_imm(vx, imm),
    {
        self.v[vx as usize] = self.v[vx as usize].wrapping_add(imm);
    }

    /// Adds register `vy` to register `vx`, wrapping. The flag register
    /// tells whether the addition overflowed the 8 bits available.
    pub fn add_reg(&mut self, vx: Register, vy: Register)
        requires
            vx < 16,
            vy < 16,
        ensures
            final(self)@ == old(self)@.added(vx, vy),
    {
        let vx_val = self.v[vx as usize];
        let vy_val = self.v[vy as usize];
        let overflowed = vx_val as u16 + vy_val as u16 > 0xFF;
        self.set_flag_reg(if overflowed { 0x01 } else { 0x00 });
        self.v[vx as usize] = vx_val.wrapping_add(vy_val);
    }

    /// Adds register `vx` to the address register, wrapping within the
    /// address space.
    pub fn add_to_index(&mut self, vx: Register)
        requires
            vx < 16,
        ensures
            final(self)@ == old(self)@.index_advanced(vx),
    {
        self.i = ((self.i as u32 + self.v[vx as usize] as u32) % 0x1000) as u16;
    }

    /// Subtracts register `vy` from register `vx`, wrapping. The flag
    /// register tells whether `vx` was greater than `vy`.
    pub fn sub(&mut self, vx: Register, vy: Register)
        requires
            vx < 16,
            vy < 16,
        ensures
            final(self)@ == old(self)@.subtracted(
                vx,
                old(self)@.register(vx),
                old(self)@.register(vy),
            ),
    {
        let vx_val = self.v[vx as usize];
        let vy_val = self.v[vy as usize];
        self.v[vx as usize] = vx_val.wrapping_sub(vy_val);
        self.set_flag_reg(if vx_val > vy_val { 0x01 } else { 0x00 });
    }

    /// Stores register `vy` minus register `vx` in register `vx`, wrapping.
    /// The flag register tells whether `vy` was greater than `vx`.
    pub fn sub_neg(&mut self, vx: Register, vy: Register)
        requires
            vx < 16,
            vy < 16,
        ensures
            final(self)@ == old(self)@.subtracted(
                vx,
                old(self)@.register(vy),
                old(self)@.register(vx),
            ),
    {
        let vy_val = self.v[vy as usize];
        let vx_val = self.v[vx as usize];
        self.v[vx as usize] = vy_val.wrapping_sub(vx_val);
        self.set_flag_reg(if vy_val > vx_val { 0x01 } else { 0x00 });
    }

    /// Shifts register `vx` right by one bit. The flag register takes the
    /// bit that is shifted out.
    pub fn shr(&mut self, vx: Register)
        requires
            vx < 16,
        ensures
            final(self)@ == old(self)@.shifted_right(vx),
    {
        let flag_value = self.v[vx as usize] & 0x1;
        self.set_flag_reg(flag_value);
        self.v[vx as usize] = self.v[vx as usize] >> 1;
    }

    /// Shifts register `vx` left by one bit. The flag register takes the
    /// bit that is shifted out.
    pub fn shl(&mut self, vx: Register)
        requires
            vx < 16,
        ensures
            final(self)@ == old(self)@.shifted_left(vx),
    {
        let flag_value = (self.v[vx as usize] >> 7) & 0x1;
        self.set_flag_reg(flag_value);
        self.v[vx as usize] = self.v[vx as usize] << 1;
    }
}

/// Popping what was just pushed gives the pushed address back and leaves the
/// call stack as it was before the push.
pub proof fn lemma_push_then_pop(cpu: CpuState, value: Address)
    requires
        cpu.wf(),
        cpu.sp < 16,
    ensures
        cpu.push(value).wf(),
        cpu.push(value).sp > 0,
        cpu.push(value).top() == value,
        cpu.push(value).pop().call_stack() == cpu.call_stack(),
        cpu.push(value).pop().sp == cpu.sp,
        cpu.push(value).call_stack() == cpu.call_stack().push(value),
{
    assert(cpu.push(value).pop().call_stack() =~= cpu.call_stack());
    assert(cpu.push(value).call_stack() =~= cpu.call_stack().push(value));
}

/// The x register field of an instruction: bits 8 to 11.
pub open spec fn x_field(instruction: Instruction) -> Register {
    ((instruction / 0x100) % 0x10) as Register
}

/// The y register field of an instruction: bits 4 to 7.
pub open spec fn y_field(instruction: Instruction) -> Register {
    ((instruction / 0x10) % 0x10) as Register
}

/// The address field of an instruction: bits 0 to 11.
pub open spec fn addr_field(instruction: Instruction) -> Address {
    (instruction % 0x1000) as Address
}

/// The immediate field of an instruction: bits 0 to 7.
pub open spec fn imm_field(instruction: Instruction) -> Immediate {
    (instruction % 0x100) as Immediate
}

/// The nibble field of an instruction: bits 0 to 3.
pub open spec fn nib_field(instruction: Instruction) -> Nibble {
    (instruction % 0x10) as Nibble
}

/// The opcode family of an instruction: bits 12 to 15.
pub open spec fn family(instruction: Instruction) -> int {
    instruction as int / 0x1000
}

/// The masks and shifts that take an instruction apart agree with the
/// arithmetic reading of its fields.
proof fn lemma_instruction_fields(w: Instruction)
    by (bit_vector)
    ensures
        (w & 0x0F00) >> 8 == (w / 0x100) % 0x10,
        (w & 0x00F0) >> 4 == (w / 0x10) % 0x10,
        w & 0x0FFF == w % 0x1000,
        w & 0x00FF == w % 0x100,
        w & 0x000F == w % 0x10,
        w & 0xF000 == (w / 0x1000) * 0x1000,
        w & 0x00F0 == ((w / 0x10) % 0x10) * 0x10,
{
}

/// Parts of an instruction value that can be retrieved independently.
pub trait InstructionParts {
    /// The x register field of the value.
    spec fn x_part(&self) -> Register;

    /// The y register field of the value.
    spec fn y_part(&self) -> Register;

    /// The address field of the value.
    spec fn addr_part(&self) -> Address;

    /// The immediate field of the value.
    spec fn imm_part(&self) -> Immediate;

    /// The nibble field of the value.
    spec fn nib_part(&self) -> Nibble;

    /// Returns the 4-bit x register value from an opcode.
    fn vx(&self) -> (x: Register)
        ensures
            x == self.x_part(),
            x < 16,
    ;

    /// Returns the 4-bit y register value from an opcode.
    fn vy(&self) -> (y: Register)
        ensures
            y == self.y_part(),
            y < 16,
    ;

    /// Returns the 12-bit address value from an opcode.
    fn addr(&self) -> (addr: Address)
        ensures
            addr == self.addr_part(),
            addr < 0x1000,
    ;

    /// Returns the 8-bit immediate value from an opcode.
    fn imm(&self) -> (imm: Immediate)
        ensures
            imm == self.imm_part(),
    ;

    /// Returns the 4-bit nibble value from an opcode.
    fn nib(&self) -> (nib: Nibble)
        ensures
            nib == self.nib_part(),
            nib < 16,
    ;
}

/// Allow access to instruction parts functions for `Instruction`.
impl InstructionParts for Instruction {
    open spec fn x_part(&self) -> Register {
        x_field(*self)
    }

    open spec fn y_part(&self) -> Register {
        y_field(*self)
    }

    open spec fn addr_part(&self) -> Address {
        addr_field(*self)
    }

    open spec fn imm_part(&self) -> Immediate {
        imm_field(*self)
    }

    open spec fn nib_part(&self) -> Nibble {
        nib_field(*self)
    }

    fn vx(&self) -> (x: Register) {
        proof {
            lemma_instruction_fields(*self);
        }
        ((*self & 0x0F00) >> 8) as Register
    }

    fn vy(&self) -> (y: Register) {
        proof {
            lemma_instruction_fields(*self);
        }
        ((*self & 0x00F0) >> 4) as Register
    }

    fn addr(&self) -> (addr: Address) {
        proof {
            lemma_instruction_fields(*self);
        }
        (*self & 0x0FFF) as Address
    }

    fn imm(&self) -> (imm: Immediate) {
        proof {
            lemma_instruction_fields(*self);
        }
        (*self & 0x00FF) as Immediate
    }

    fn nib(&self) -> (nib: Nibble) {
        proof {
            lemma_instruction_fields(*self);
        }
        (*self & 0x000F) as Nibble
    }
}

/// Enumeration of Chip8 and SuperChip8 CPU operations.
#[derive(Debug, PartialEq, Clone, Copy)]
pub enum Operation {
    // Chip8 opcodes
    Cls,
    Ret,
    Sys(Address),
    Jump(Address),
    JumpAddrPlusV0(Address),
    Call(Address),
    SkipEqImm(Register, Immediate),
    SkipEqReg(Register, Register),
    SkipNeqImm(Register, Immediate),
    SkipNeqReg(Register, Register),
    LoadImm(Register, Immediate),
    LoadReg(Register, Register),
    LoadAddr(Address),
    LoadAddrDigit(Register),
    LoadRegDelay(Register),
    LoadDelayReg(Register),
    LoadSoundReg(Register),
    AddImm(Register, Immediate),
    AddReg(Register, Register),
    AddAddrReg(Register),
    Sub(Register, Register),
    SubNeg(Register, Register),
    Or(Register, Register),
    And(Register, Register),
    Xor(Register, Register),
    Shr(Register),
    Shl(Register),
    RandModImm(Register, Immediate),
    Draw(Register, Register, Nibble),
    SkipKey(Register),
    SkipNotKey(Register),
    WaitKey(Register),
    MemStoreBcd(Register),
    MemStoreRegs(Register),
    MemLoadRegs(Register),
    // SuperChip8 opcodes
    Scd(Nibble),
    Scr,
    Scl,
    Exit,
    Low,
    High,
    LoadAddrBigDigit(Register),
    RplStoreRegs(Register),
    RplLoadRegs(Register),
}

/// The operation that an instruction of family `0x0` stands for. The fixed
/// forms come first; of the rest, those with `0xC` in the y field scroll
/// down and all others are system calls.
pub open spec fn decode_special(w: Instruction) -> Option<Operation> {
    let addr = addr_field(w);
    if addr == 0x0E0 {
        Some(Operation::Cls)
    } else if addr == 0x0EE {
        Some(Operation::Ret)
    } else if addr == 0x0FB {
        Some(Operation::Scr)
    } else if addr == 0x0FC {
        Some(Operation::Scl)
    } else if addr == 0x0FD {
        Some(Operation::Exit)
    } else if addr == 0x0FE {
        Some(Operation::Low)
    } else if addr == 0x0FF {
        Some(Operation::High)
    } else if y_field(w) == 0xC {
        Some(Operation::Scd(nib_field(w)))
    } else {
        Some(Operation::Sys(addr))
    }
}

/// The operation that an instruction of family `0x8` stands for, if any.
pub open spec fn decode_alu(w: Instruction) -> Option<Operation> {
    let x = x_field(w);
    let y = y_field(w);
    let nib = nib_field(w);
    if nib == 0x0 {
        Some(Operation::LoadReg(x, y))
    } else if nib == 0x1 {
        Some(Operation::Or(x, y))
    } else if nib == 0x2 {
        Some(Operation::And(x, y))
    } else if nib == 0x3 {
        Some(Operation::Xor(x, y))
    } else if nib == 0x4 {
        Some(Operation::AddReg(x, y))
    } else if nib == 0x5 {
        Some(Operation::Sub(x, y))
    } else if nib == 0x6 {
        Some(Operation::Shr(x))
    } else if nib == 0x7 {
        Some(Operation::SubNeg(x, y))
    } else if nib == 0xE {
        Some(Operation::Shl(x))
    } else {
        None
    }
}

/// The operation that an instruction of family `0xE` stands for, if any.
pub open spec fn decode_key(w: Instruction) -> Option<Operation> {
    let x = x_field(w);
    let imm = imm_field(w);
    if imm == 0x9E {
        Some(Operation::SkipKey(x))
    } else if imm == 0xA1 {
        Some(Operation::SkipNotKey(x))
    } else {
        None
    }
}

/// The operation that an instruction of family `0xF` stands for, if any.
pub open spec fn decode_misc(w: Instruction) -> Option<Operation> {
    let x = x_field(w);
    let imm = imm_field(w);
    if imm == 0x07 {
        Some(Operation::LoadRegDelay(x))
    } else if imm == 0x0A {
        Some(Operation::WaitKey(x))
    } else if imm == 0x15 {
        Some(Operation::LoadDelayReg(x))
    } else if imm == 0x18 {
        Some(Operation::LoadSoundReg(x))
    } else if imm == 0x1E {
        Some(Operation::AddAddrReg(x))
    } else if imm == 0x29 {
        Some(Operation::LoadAddrDigit(x))
    } else if imm == 0x30 {
        Some(Operation::LoadAddrBigDigit(x))
    } else if imm == 0x33 {
        Some(Operation::MemStoreBcd(x))
    } else if imm == 0x55 {
        Some(Operation::MemStoreRegs(x))
    } else if imm == 0x65 {
        Some(Operation::MemLoadRegs(x))
    } else if imm == 0x75 {
        Some(Operation::RplStoreRegs(x))
    } else if imm == 0x85 {
        Some(Operation::RplLoadRegs(x))
    } else {
        None
    }
}

/// The operation that a 16-bit instruction stands for, or `None` where the
/// bit pattern matches no known form.
pub open spec fn decode(w: Instruction) -> Option<Operation> {
    let x = x_field(w);
    let y = y_field(w);
    let addr = addr_field(w);
    let imm = imm_field(w);
    let nib = nib_field(w);
    let fam = family(w);
    if fam == 0x0 {
        decode_special(w)
    } else if fam == 0x1 {
        Some(Operation::Jump(addr))
    } else if fam == 0x2 {
        Some(Operation::Call(addr))
    } else if fam == 0x3 {
        Some(Operation::SkipEqImm(x, imm))
    } else if fam == 0x4 {
        Some(Operation::SkipNeqImm(x, imm))
    } else if fam == 0x5 {
        if nib == 0 {
            Some(Operation::SkipEqReg(x, y))
        } else {
            None
        }
    } else if fam == 0x6 {
        Some(Operation::LoadImm(x, imm))
    } else if fam == 0x7 {
        Some(Operation::AddImm(x, imm))
    } else if fam == 0x8 {
        decode_alu(w)
    } else if fam == 0x9 {
        if nib == 0 {
            Some(Operation::SkipNeqReg(x, y))
        } else {
            None
        }
    } else if fam == 0xA {
        Some(Operation::LoadAddr(addr))
    } else if fam == 0xB {
        Some(Operation::JumpAddrPlusV0(addr))
    } else if fam == 0xC {
        Some(Operation::RandModImm(x, imm))
    } else if fam == 0xD {
        Some(Operation::Draw(x, y, nib))
    } else if fam == 0xE {
        decode_key(w)
    } else {
        decode_misc(w)
    }
}

impl Operation {
    /// Every register that the operation names exists.
    pub open spec fn registers_valid(self) -> bool {
        match self {
            Operation::SkipEqImm(x, _) => x < 16,
            Operation::SkipEqReg(x, y) => x < 16 && y < 16,
            Operation::SkipNeqImm(x, _) => x < 16,
            Operation::SkipNeqReg(x, y) => x < 16 && y < 16,
            Operation::LoadImm(x, _) => x < 16,
            Operation::LoadReg(x, y) => x < 16 && y < 16,
            Operation::LoadAddrDigit(x) => x < 16,
            Operation::LoadRegDelay(x) => x < 16,
            Operation::LoadDelayReg(x) => x < 16,
            Operation::LoadSoundReg(x) => x < 16,
            Operation::AddImm(x, _) => x < 16,
            Operation::AddReg(x, y) => x < 16 && y < 16,
            Operation::AddAddrReg(x) => x < 16,
            Operation::Sub(x, y) => x < 16 && y < 16,
            Operation::SubNeg(x, y) => x < 16 && y < 16,
            Operation::Or(x, y) => x < 16 && y < 16,
            Operation::And(x, y) => x < 16 && y < 16,
            Operation::Xor(x, y) => x < 16 && y < 16,
            Operation::Shr(x) => x < 16,
            Operation::Shl(x) => x < 16,
            Operation::RandModImm(x, _) => x < 16,
            Operation::Draw(x, y, _) => x < 16 && y < 16,
            Operation::SkipKey(x) => x < 16,
            Operation::SkipNotKey(x) => x < 16,
            Operation::WaitKey(x) => x < 16,
            Operation::MemStoreBcd(x) => x < 16,
            Operation::MemStoreRegs(x) => x < 16,
            Operation::MemLoadRegs(x) => x < 16,
            Operation::LoadAddrBigDigit(x) => x < 16,
            Operation::RplStoreRegs(x) => x < 16,
            Operation::RplLoadRegs(x) => x < 16,
            _ => true,
        }
    }

    /// Attempts to return the `Operation` corresponding to the given
    /// instruction bytes. If successful, it will return the operation along
    /// with its parameters. Otherwise, it returns `None`.
    pub fn from_instruction(instruction: &Instruction) -> (operation: Option<Operation>)
        ensures
            operation == decode(*instruction),
            operation matches Some(op) ==> op.registers_valid(),
    {
        let w = *instruction;
        proof {
            lemma_instruction_fields(w);
        }
        match w & 0xF000 {
            0x0000 => match w & 0x0FFF {
                0x00E0 => Some(Operation::Cls),
                0x00EE => Some(Operation::Ret),
                0x00FB => Some(Operation::Scr),
                0x00FC => Some(Operation::Scl),
                0x00FD => Some(Operation::Exit),
                0x00FE => Some(Operation::Low),
                0x00FF => Some(Operation::High),
                _ => match w & 0x00F0 {
                    0x00C0 => Some(Operation::Scd(w.nib())),
                    _ => Some(Operation::Sys(w.addr())),
                },
            },
            0x1000 => Some(Operation::Jump(w.addr())),
            0x2000 => Some(Operation::Call(w.addr())),
            0x3000 => Some(Operation::SkipEqImm(w.vx(), w.imm())),
            0x4000 => Some(Operation::SkipNeqImm(w.vx(), w.imm())),
            0x5000 => match w & 0x000F {
                0x0000 => Some(Operation::SkipEqReg(w.vx(), w.vy())),
                _ => None,
            },
            0x6000 => Some(Operation::LoadImm(w.vx(), w.imm())),
            0x7000 => Some(Operation::AddImm(w.vx(), w.imm())),
            0x8000 => match w & 0x000F {
                0x0000 => Some(Operation::LoadReg(w.vx(), w.vy())),
                0x0001 => Some(Operation::Or(w.vx(), w.vy())),
                0x0002 => Some(Operation::And(w.vx(), w.vy())),
                0x0003 => Some(Operation::Xor(w.vx(), w.vy())),
                0x0004 => Some(Operation::AddReg(w.vx(), w.vy())),
                0x0005 => Some(Operation::Sub(w.vx(), w.vy())),
                0x0006 => Some(Operation::Shr(w.vx())),
                0x0007 => Some(Operation::SubNeg(w.vx(), w.vy())),
                0x000E => Some(Operation::Shl(w.vx())),
                _ => None,
            },
            0x9000 => match w & 0x000F {
                0x0000 => Some(Operation::SkipNeqReg(w.vx(), w.vy())),
                _ => None,
            },
            0xA000 => Some(Operation::LoadAddr(w.addr())),
            0xB000 => Some(Operation::JumpAddrPlusV0(w.addr())),
            0xC000 => Some(Operation::RandModImm(w.vx(), w.imm())),
            0xD000 => Some(Operation::Draw(w.vx(), w.vy(), w.nib())),
            0xE000 => match w & 0x00FF {
                0x009E => Some(Operation::SkipKey(w.vx())),
                0x00A1 => Some(Operation::SkipNotKey(w.vx())),
                _ => None,
            },
            0xF000 => match w & 0x00FF {
                0x0007 => Some(Operation::LoadRegDelay(w.vx())),
                0x000A => Some(Operation::WaitKey(w.vx())),
                0x0015 => Some(Operation::LoadDelayReg(w.vx())),
                0x0018 => Some(Operation::LoadSoundReg(w.vx())),
                0x001E => Some(Operation::AddAddrReg(w.vx())),
                0x0029 => Some(Operation::LoadAddrDigit(w.vx())),
                0x0030 => Some(Operation::LoadAddrBigDigit(w.vx())),
                0x0033 => Some(Operation::MemStoreBcd(w.vx())),
                0x0055 => Some(Operation::MemStoreRegs(w.vx())),
                0x0065 => Some(Operation::MemLoadRegs(w.vx())),
                0x0075 => Some(Operation::RplStoreRegs(w.vx())),
                0x0085 => Some(Operation::RplLoadRegs(w.vx())),
                _ => None,
            },
            _ => None,
        }
    }

    /// The operands fit their fields of an instruction, and the operation is
    /// the one that its bit pattern is read as: a system call does not carry
    /// an address that one of the fixed forms or a scroll takes.
    pub open spec fn encodable(self) -> bool {
        &&& self.registers_valid()
        &&& match self {
            Operation::Sys(addr) => {
                &&& addr < 0x1000
                &&& addr != 0x0E0
                &&& addr != 0x0EE
                &&& !(0x0FB <= addr <= 0x0FF)
                &&& (addr / 0x10) % 0x10 != 0xC
            },
            Operation::Jump(addr) => addr < 0x1000,
            Operation::JumpAddrPlusV0(addr) => addr < 0x1000,
            Operation::Call(addr) => addr < 0x1000,
            Operation::LoadAddr(addr) => addr < 0x1000,
            Operation::Draw(_, _, n) => n < 16,
            Operation::Scd(n) => n < 16,
            _ => true,
        }
    }

    /// The bit pattern of the operation. Fields that the operation does not
    /// read are left zero.
    pub open spec fn encoding(self) -> int {
        match self {
            Operation::Cls => 0x00E0,
            Operation::Ret => 0x00EE,
            Operation::Sys(addr) => addr as int,
            Operation::Jump(addr) => 0x1000 + addr,
            Operation::JumpAddrPlusV0(addr) => 0xB000 + addr,
            Operation::Call(addr) => 0x2000 + addr,
            Operation::SkipEqImm(x, imm) => 0x3000 + x * 0x100 + imm,
            Operation::SkipEqReg(x, y) => 0x5000 + x * 0x100 + y * 0x10,
            Operation::SkipNeqImm(x, imm) => 0x4000 + x * 0x100 + imm,
            Operation::SkipNeqReg(x, y) => 0x9000 + x * 0x100 + y * 0x10,
            Operation::LoadImm(x, imm) => 0x6000 + x * 0x100 + imm,
            Operation::LoadReg(x, y) => 0x8000 + x * 0x100 + y * 0x10,
            Operation::LoadAddr(addr) => 0xA000 + addr,
            Operation::LoadAddrDigit(x) => 0xF029 + x * 0x100,
            Operation::LoadRegDelay(x) => 0xF007 + x * 0x100,
            Operation::LoadDelayReg(x) => 0xF015 + x * 0x100,
            Operation::LoadSoundReg(x) => 0xF018 + x * 0x100,
            Operation::AddImm(x, imm) => 0x7000 + x * 0x100 + imm,
            Operation::AddReg(x, y) => 0x8004 + x * 0x100 + y * 0x10,
            Operation::AddAddrReg(x) => 0xF01E + x * 0x100,
            Operation::Sub(x, y) => 0x8005 + x * 0x100 + y * 0x10,
            Operation::SubNeg(x, y) => 0x8007 + x * 0x100 + y * 0x10,
            Operation::Or(x, y) => 0x8001 + x * 0x100 + y * 0x10,
            Operation::And(x, y) => 0x8002 + x * 0x100 + y * 0x10,
            Operation::Xor(x, y) => 0x8003 + x * 0x100 + y * 0x10,
            Operation::Shr(x) => 0x8006 + x * 0x100,
            Operation::Shl(x) => 0x800E + x * 0x100,
            Operation::RandModImm(x, imm) => 0xC000 + x * 0x100 + imm,
            Operation::Draw(x, y, n) => 0xD000 + x * 0x100 + y * 0x10 + n,
            Operation::SkipKey(x) => 0xE09E + x * 0x100,
            Operation::SkipNotKey(x) => 0xE0A1 + x * 0x100,
            Operation::WaitKey(x) => 0xF00A + x * 0x100,
            Operation::MemStoreBcd(x) => 0xF033 + x * 0x100,
            Operation::MemStoreRegs(x) => 0xF055 + x * 0x100,
            Operation::MemLoadRegs(x) => 0xF065 + x * 0x100,
            Operation::Scd(n) => 0x00C0 + n,
            Operation::Scr => 0x00FB,
            Operation::Scl => 0x00FC,
            Operation::Exit => 0x00FD,
            Operation::Low => 0x00FE,
            Operation::High => 0x00FF,
            Operation::LoadAddrBigDigit(x) => 0xF030 + x * 0x100,
            Operation::RplStoreRegs(x) => 0xF075 + x * 0x100,
            Operation::RplLoadRegs(x) => 0xF085 + x * 0x100,
        }
    }
}

/// The fields of an instruction that is put together from four nibbles.
proof fn lemma_fields_of_nibbles(w: Instruction, fam: u16, x: u16, y: u16, n: u16)
    by (bit_vector)
    requires
        fam < 16,
        x < 16,
        y < 16,
        n < 16,
        w == fam * 0x1000 + x * 0x100 + y * 0x10 + n,
    ensures
        w / 0x1000 == fam,
        (w / 0x100) % 0x10 == x,
        (w / 0x10) % 0x10 == y,
        w % 0x10 == n,
        w % 0x100 == y * 0x10 + n,
        w % 0x1000 == x * 0x100 + y * 0x10 + n,
{
}

/// Decoding the bit pattern of an operation gives the operation back, with
/// its operands.
pub proof fn lemma_decode_encoding(op: Operation)
    requires
        op.encodable(),
    ensures
        0 <= op.encoding() < 0x1_0000,
        decode(op.encoding() as Instruction) == Some(op),
{
    let w = op.encoding() as Instruction;
    match op {
        Operation::Cls => {},
        Operation::Ret => {},
        Operation::Sys(addr) => {
            lemma_fields_of_nibbles(w, 0, addr / 0x100, (addr / 0x10) % 0x10, addr % 0x10);
        },
        Operation::Jump(addr) => {
            lemma_fields_of_nibbles(w, 0x1, addr / 0x100, (addr / 0x10) % 0x10, addr % 0x10);
        },
        Operation::JumpAddrPlusV0(addr) => {
            lemma_fields_of_nibbles(w, 0xB, addr / 0x100, (addr / 0x10) % 0x10, addr % 0x10);
        },
        Operation::Call(addr) => {
            lemma_fields_of_nibbles(w, 0x2, addr / 0x100, (addr / 0x10) % 0x10, addr % 0x10);
        },
        Operation::SkipEqImm(r, imm) => {
            lemma_fields_of_nibbles(w, 0x3, r as u16, imm as u16 / 0x10, imm as u16 % 0x10);
        },
        Operation::SkipEqReg(r, s) => {
            lemma_fields_of_nibbles(w, 0x5, r as u16, s as u16, 0);
        },
        Operation::SkipNeqImm(r, imm) => {
            lemma_fields_of_nibbles(w, 0x4, r as u16, imm as u16 / 0x10, imm as u16 % 0x10);
        },
        Operation::SkipNeqReg(r, s) => {
            lemma_fields_of_nibbles(w, 0x9, r as u16, s as u16, 0);
        },
        Operation::LoadImm(r, imm) => {
            lemma_fields_of_nibbles(w, 0x6, r as u16, imm as u16 / 0x10, imm as u16 % 0x10);
        },
        Operation::LoadReg(r, s) => {
            lemma_fields_of_nibbles(w, 0x8, r as u16, s as u16, 0x0);
        },
        Operation::LoadAddr(addr) => {
            lemma_fields_of_nibbles(w, 0xA, addr / 0x100, (addr / 0x10) % 0x10, addr % 0x10);
        },
        Operation::LoadAddrDigit(r) => {
            lemma_fields_of_nibbles(w, 0xF, r as u16, 0x2, 0x9);
        },
        Operation::LoadRegDelay(r) => {
            lemma_fields_of_nibbles(w, 0xF, r as u16, 0x0, 0x7);
        },
        Operation::LoadDelayReg(r) => {
            lemma_fields_of_nibbles(w, 0xF, r as u16, 0x1, 0x5);
        },
        Operation::LoadSoundReg(r) => {
            lemma_fields_of_nibbles(w, 0xF, r as u16, 0x1, 0x8);
        },
        Operation::AddImm(r, imm) => {
            lemma_fields_of_nibbles(w, 0x7, r as u16, imm as u16 / 0x10, imm as u16 % 0x10);
        },
        Operation::AddReg(r, s) => {
            lemma_fields_of_nibbles(w, 0x8, r as u16, s as u16, 0x4);
        },
        Operation::AddAddrReg(r) => {
            lemma_fields_of_nibbles(w, 0xF, r as u16, 0x1, 0xE);
        },
        Operation::Sub(r, s) => {
            lemma_fields_of_nibbles(w, 0x8, r as u16, s as u16, 0x5);
        },
        Operation::SubNeg(r, s) => {
            lemma_fields_of_nibbles(w, 0x8, r as u16, s as u16, 0x7);
        },
        Operation::Or(r, s) => {
            lemma_fields_of_nibbles(w, 0x8, r as u16, s as u16, 0x1);
        },
        Operation::And(r, s) => {
            lemma_fields_of_nibbles(w, 0x8, r as u16, s as u16, 0x2);
        },
        Operation::Xor(r, s) => {
            lemma_fields_of_nibbles(w, 0x8, r as u16, s as u16, 0x3);
        },
        Operation::Shr(r) => {
            lemma_fields_of_nibbles(w, 0x8, r as u16, 0x0, 0x6);
        },
        Operation::Shl(r) => {
            lemma_fields_of_nibbles(w, 0x8, r as u16, 0x0, 0xE);
        },
        Operation::RandModImm(r, imm) => {
            lemma_fields_of_nibbles(w, 0xC, r as u16, imm as u16 / 0x10, imm as u16 % 0x10);
        },
        Operation::Draw(r, s, k) => {
            lemma_fields_of_nibbles(w, 0xD, r as u16, s as u16, k as u16);
        },
        Operation::SkipKey(r) => {
            lemma_fields_of_nibbles(w, 0xE, r as u16, 0x9, 0xE);
        },
        Operation::SkipNotKey(r) => {
            lemma_fields_of_nibbles(w, 0xE, r as u16, 0xA, 0x1);
        },
        Operation::WaitKey(r) => {
            lemma_fields_of_nibbles(w, 0xF, r as u16, 0x0, 0xA);
        },
        Operation::MemStoreBcd(r) => {
            lemma_fields_of_nibbles(w, 0xF, r as u16, 0x3, 0x3);
        },
        Operation::MemStoreRegs(r) => {
            lemma_fields_of_nibbles(w, 0xF, r as u16, 0x5, 0x5);
        },
        Operation::MemLoadRegs(r) => {
            lemma_fields_of_nibbles(w, 0xF, r as u16, 0x6, 0x5);
        },
        Operation::Scd(k) => {
            lemma_fields_of_nibbles(w, 0x0, 0x0, 0xC, k as u16);
        },
        Operation::Scr => {},
        Operation::Scl => {},
        Operation::Exit => {},
        Operation::Low => {},
        Operation::High => {},
        Operation::LoadAddrBigDigit(r) => {
            lemma_fields_of_nibbles(w, 0xF, r as u16, 0x3, 0x0);
        },
        Operation::RplStoreRegs(r) => {
            lemma_fields_of_nibbles(w, 0xF, r as u16, 0x7, 0x5);
        },
        Operation::RplLoadRegs(r) => {
            lemma_fields_of_nibbles(w, 0xF, r as u16, 0x8, 0x5);
        },
    }
}

/// Every operation that an instruction decodes to names registers that
/// exist and carries operands that fit their fields, so that its own bit
/// pattern decodes to it again.
pub proof fn lemma_decoded_is_encodable(w: Instruction)
    ensures
        decode(w) matches Some(op) ==> op.encodable() && decode(op.encoding() as Instruction)
            == Some(op),
{
    if let Some(op) = decode(w) {
        assert(op.encodable());
        lemma_decode_encoding(op);
    }
}

} // verus!
