//! Memory of the machine: access, loading and the built-in digit font.
use vstd::prelude::*;
use crate::cpu::{Address, Instruction};
use crate::{OktoError, OktoErrorKind, OktoResult};

verus! {

/// The size of the memory in bytes.
pub const MEMORY_SIZE_BYTES: usize = 0x1000;

/// The maximum size of a ROM in bytes.
pub const MAX_ROM_SIZE_BYTES: usize = 0xE00;

/// The number of bytes per digit sprite.
pub const BYTES_PER_DIGIT_SPRITE: Address = 5;

/// The number of bytes that the digit sprites take.
pub const NUM_DIGIT_SPRITES: usize = 80;

/// Hexadecimal digits represented as 5 byte sprites.
pub const DIGIT_SPRITES: [u8; NUM_DIGIT_SPRITES] = [
    0xF0, 0x90, 0x90, 0x90, 0xF0,  // 0
    0x20, 0x60, 0x20, 0x20, 0x70,  // 1
    0xF0, 0x10, 0xF0, 0x80, 0xF0,  // 2
    0xF0, 0x10, 0xF0, 0x10, 0xF0,  // 3
    0x90, 0x90, 0xF0, 0x10, 0x10,  // 4
    0xF0, 0x80, 0xF0, 0x10, 0xF0,  // 5
    0xF0, 0x80, 0xF0, 0x90, 0xF0,  // 6
    0xF0, 0x10, 0x20, 0x40, 0x40,  // 7
    0xF0, 0x90, 0xF0, 0x90, 0xF0,  // 8
    0xF0, 0x90, 0xF0, 0x10, 0xF0,  // 9
    0xF0, 0x90, 0xF0, 0x90, 0x90,  // A
    0xE0, 0x90, 0xE0, 0x90, 0xE0,  // B
    0xF0, 0x80, 0x80, 0x80, 0xF0,  // C
    0xE0, 0x90, 0x90, 0x90, 0xE0,  // D
    0xF0, 0x80, 0xF0, 0x80, 0xF0,  // E
    0xF0, 0x80, 0xF0, 0x80, 0x80,  // F
];

/// Encapsulates the memory subsystem.
pub struct Memory {
    /// Byte array representing memory.
    pub data: [u8; MEMORY_SIZE_BYTES],
}

impl View for Memory {
    type V = Seq<u8>;

    open spec fn view(&self) -> Seq<u8> {
        self.data@
    }
}

/// The 16-bit value whose upper half is `high_byte` and whose lower half is
/// `low_byte`.
pub open spec fn word_of(high_byte: u8, low_byte: u8) -> u16 {
    (high_byte * 0x100 + low_byte) as u16
}

/// The contents of memory when the machine is created: the digit sprites
/// from address 0, zero everywhere else.
pub open spec fn initial_memory() -> Seq<u8> {
    Seq::new(0x1000, |a: int| if a < 80 { DIGIT_SPRITES@[a] } else { 0u8 })
}

/// Memory `memory` with `bytes` written from address `start` on.
pub open spec fn with_bytes(memory: Seq<u8>, start: int, bytes: Seq<u8>) -> Seq<u8> {
    Seq::new(
        memory.len(),
        |a: int| if start <= a < start + bytes.len() { bytes[a - start] } else { memory[a] },
    )
}

/// A range of `count` bytes from `address` on may be accessed: it ends
/// below the last byte of memory.
pub open spec fn range_accessible(address: int, count: int) -> bool {
    address + count < 0x1000
}

/// Creates a 16-bit value by concatenating two 8-bit values. Used to read
/// instructions from memory.
pub fn bytes_to_word(high_byte: &u8, low_byte: &u8) -> (word: u16)
    ensures
        word == word_of(*high_byte, *low_byte),
{
    let high = *high_byte;
    let low = *low_byte;
    assert(((high as u16) << 8) | (low as u16) == high * 0x100 + low) by (bit_vector);
    ((high as u16) << 8) | (low as u16)
}

impl Memory {
    /// Initialize a new `Memory` and clear it. Copies the digit sprites into
    /// the reserved space at the bottom of memory.
    pub fn new() -> (memory: Self)
        ensures
            memory@ == initial_memory(),
    {
        let mut result = Self { data: [0u8; 0x1000] };
        let mut index: usize = 0;
        while index < NUM_DIGIT_SPRITES
            invariant
                index <= 80,
                forall|a: int| 0 <= a < index ==> result.data@[a] == DIGIT_SPRITES@[a],
                forall|a: int| index <= a < 0x1000 ==> result.data@[a] == 0,
            decreases 80 - index,
        {
            result.data[index] = DIGIT_SPRITES[index];
            index += 1;
        }
        assert(result@ =~= initial_memory());
        result
    }

    /// Returns the address of the sprite corresponding to the given hex digit.
    pub fn sprite_address_for_digit(&self, digit: u8) -> (address: Option<Address>)
        ensures
            digit <= 0xF ==> address == Some((digit * 5) as Address),
            digit > 0xF ==> address is None,
    {
        if digit > 0xF {
            return None;
        }
        Some((digit as Address) * BYTES_PER_DIGIT_SPRITE)
    }

    /// Load a slice of bytes of a given size into memory starting at the
    /// given address. Nothing is written unless the last byte of memory
    /// stays free behind the loaded bytes.
    pub fn load(&mut self, data: &[u8], start_address: Address, size: usize) -> (result:
        OktoResult<()>)
        requires
            start_address + size < 0x1000 ==> size == data@.len(),
        ensures
            start_address + size < 0x1000 ==> result is Ok && final(self)@ == with_bytes(
                old(self)@,
                start_address as int,
                data@,
            ),
            start_address + size >= 0x1000 ==> result is Err && result->Err_0.kind
                == OktoErrorKind::RomTooLarge && *final(self) == *old(self),
    {
        let start = start_address as usize;
        if size >= MEMORY_SIZE_BYTES || start + size >= MEMORY_SIZE_BYTES {
            return Err(OktoError::new(OktoErrorKind::RomTooLarge));
        }
        let mut index: usize = 0;
        while index < size
            invariant
                index <= size,
                size == data@.len(),
                start + size < 0x1000,
                forall|a: int|
                    0 <= a < 0x1000 ==> self.data@[a] == if start <= a < start + index {
                        data@[a - start]
                    } else {
                        old(self).data@[a]
                    },
            decreases size - index,
        {
            self.data[start + index] = data[index];
            index += 1;
        }
        assert(self@ =~= with_bytes(old(self)@, start_address as int, data@));
        Ok(())
    }

    /// Write a byte of data at the given address in memory. If the address
    /// is invalid, an error result is returned and memory stays as it is.
    pub fn write_byte(&mut self, address: Address, value: u8) -> (result: OktoResult<()>)
        ensures
            address < 0x1000 ==> result is Ok && final(self)@ == old(self)@.update(
                address as int,
                value,
            ),
            address >= 0x1000 ==> result is Err && result->Err_0.kind
                == OktoErrorKind::AddressOutOfRange && *final(self) == *old(self),
    {
        if address as usize >= MEMORY_SIZE_BYTES {
            return Err(OktoError::new(OktoErrorKind::AddressOutOfRange));
        }
        self.data[address as usize] = value;
        Ok(())
    }

    /// Read the byte at the given address in memory.
    pub fn read_byte(&self, address: Address) -> (result: OktoResult<u8>)
        ensures
            address < 0x1000 ==> result == Ok::<u8, OktoError>(self@[address as int]),
            address >= 0x1000 ==> result is Err && result->Err_0.kind
                == OktoErrorKind::AddressOutOfRange,
    {
        if address as usize >= MEMORY_SIZE_BYTES {
            return Err(OktoError::new(OktoErrorKind::AddressOutOfRange));
        }
        Ok(self.data[address as usize])
    }

    /// Read a slice of bytes from memory starting at the given address. The
    /// range must end below the last byte of memory.
    pub fn read_bytes(&self, address: Address, size_bytes: usize) -> (result: OktoResult<&[u8]>)
        ensures
            range_accessible(address as int, size_bytes as int) ==> result is Ok
                && result->Ok_0@ == self@.subrange(address as int, address + size_bytes),
            !range_accessible(address as int, size_bytes as int) ==> result is Err
                && result->Err_0.kind == OktoErrorKind::AddressOutOfRange,
    {
        let start = address as usize;
        if size_bytes >= MEMORY_SIZE_BYTES || start + size_bytes >= MEMORY_SIZE_BYTES {
            return Err(OktoError::new(OktoErrorKind::AddressOutOfRange));
        }
        let end = start + size_bytes;
        Ok(&self.data[start..end])
    }

    /// Reads an instruction from the given address. Returns the
    /// reconstructed instruction on success, or `None` if the address is too
    /// high to read two bytes from memory.
    pub fn read_instruction(&self, address: Address) -> (instruction: Option<Instruction>)
        ensures
            address < 0xFFF ==> instruction == Some(
                word_of(self@[address as int], self@[address + 1]),
            ),
            address >= 0xFFF ==> instruction is None,
    {
        if address as usize >= MEMORY_SIZE_BYTES - 1 {
            return None;
        }
        let result = bytes_to_word(
            &self.data[address as usize],
            &self.data[(address + 1) as usize],
        );
        Some(result)
    }
}

} // verus!
