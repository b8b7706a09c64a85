//! Listing of the instructions of a ROM image, without executing them.
use vstd::prelude::*;
use crate::cpu::{Address, Instruction, Operation, decode, DEFAULT_PC_ADDRESS};
use crate::memory::{Memory, word_of};
use crate::{OktoError, OktoErrorKind, OktoResult};

verus! {

/// One instruction of a ROM image: where it stands once the image is
/// loaded, its bits, and the operation that they decode to, if any.
#[derive(Debug, PartialEq, Clone, Copy)]
pub struct Line {
    /// The address of the instruction in memory.
    pub address: Address,
    /// The instruction word.
    pub instruction: Instruction,
    /// The operation that the instruction stands for, or `None` if it
    /// matches no known form.
    pub operation: Option<Operation>,
}

/// Line `k` of the listing of `rom` that starts `offset` bytes into the
/// image.
pub open spec fn line_at(rom: Seq<u8>, offset: int, k: int) -> Line {
    let at = offset + 2 * k;
    let instruction = word_of(rom[at], rom[at + 1]);
    Line { address: (0x200 + at) as Address, instruction, operation: decode(instruction) }
}

/// The listing of `rom` from `offset` bytes into the image on: one line for
/// each pair of bytes; a single byte left over at the end is not listed.
pub open spec fn listing(rom: Seq<u8>, offset: int) -> Seq<Line> {
    Seq::new(((rom.len() - offset) / 2) as nat, |k: int| line_at(rom, offset, k))
}

/// Lists the instructions of a ROM image as they stand in memory once the
/// image is loaded at the start of program memory. An offset can be given so
/// that a ROM with an initial data section is listed from its first
/// instruction on. An image that cannot be loaded is reported as too large.
pub fn disassemble(rom_data: &[u8], offset: usize) -> (result: OktoResult<Vec<Line>>)
    requires
        offset <= rom_data@.len(),
    ensures
        0x200 + rom_data@.len() < 0x1000 ==> result is Ok && result->Ok_0@ == listing(
            rom_data@,
            offset as int,
        ),
        0x200 + rom_data@.len() >= 0x1000 ==> result is Err && result->Err_0.kind
            == OktoErrorKind::RomTooLarge,
{
    let mut memory = Memory::new();
    match memory.load(rom_data, DEFAULT_PC_ADDRESS, rom_data.len()) {
        Ok(()) => {},
        Err(error) => {
            return Err(error);
        },
    }
    let num_instructions = (rom_data.len() - offset) / 2;
    let mut lines: Vec<Line> = Vec::new();
    let mut index: usize = 0;
    while index < num_instructions
        invariant
            index <= num_instructions == (rom_data@.len() - offset) / 2,
            offset <= rom_data@.len(),
            0x200 + rom_data@.len() < 0x1000,
            forall|a: int|
                0 <= a < rom_data@.len() ==> #[trigger] memory@[0x200 + a] == rom_data@[a],
            lines@.len() == index,
            forall|k: int| 0 <= k < index ==> #[trigger] lines@[k] == line_at(
                rom_data@,
                offset as int,
                k,
            ),
        decreases num_instructions - index,
    {
        let next_address: Address = DEFAULT_PC_ADDRESS + (offset + 2 * index) as Address;
        assert(memory@[0x200 + (offset + 2 * index)] == rom_data@[offset + 2 * index]);
        assert(memory@[0x200 + (offset + 2 * index + 1)] == rom_data@[offset + 2 * index + 1]);
        if let Some(instruction) = memory.read_instruction(next_address) {
            let operation = Operation::from_instruction(&instruction);
            lines.push(Line { address: next_address, instruction, operation });
        }
        index += 1;
    }
    assert(lines@ =~= listing(rom_data@, offset as int));
    Ok(lines)
}

} // verus!
