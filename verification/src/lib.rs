//! Emulation core for the Chip8 and SuperChip8 virtual machines.
//!
//! The machine is assembled from a register file, a 4 KiB memory, a bitmap
//! display, a 16-key keyboard and two countdown timers. Every operation is
//! stated over the mathematical views of these parts and proved against them.
use vstd::prelude::*;
use vstd::string::StringExecFns;

pub mod cpu;
pub mod disassembly;
pub mod display;
pub mod keyboard;
pub mod machine;
pub mod memory;
pub mod sound;
pub mod timer;

verus! {

/// Result type of every fallible operation of the emulator.
pub type OktoResult<T> = Result<T, OktoError>;

/// A general emulator error.
#[derive(Debug, PartialEq)]
pub struct OktoError {
    /// The kind of error that occurred.
    pub kind: OktoErrorKind,
}

/// General categories of emulator errors.
#[derive(Debug, PartialEq)]
pub enum OktoErrorKind {
    /// The call stack had too many items pushed onto it.
    StackOverflow,
    /// The call stack had too many items popped off of it.
    StackUnderflow,
    /// Attempt to load too much data into memory.
    RomTooLarge,
    /// Attempt to access memory out of bounds.
    AddressOutOfRange,
    /// A digit sprite was requested for a value that is no hexadecimal digit.
    InvalidDigitSprite,
    /// Invalid opcode given to the interpreter.
    InvalidOpcode,
    /// Sprite with too many bytes during drawing.
    InvalidSprite,
    /// Register out of range during an HP48 load or store.
    RegisterOutOfRange(u8),
    /// Unknown error along with an error message.
    Unknown(String),
}

impl OktoErrorKind {
    /// The short text that names this kind of error.
    pub open spec fn description(self) -> Seq<char> {
        match self {
            OktoErrorKind::StackOverflow => "Stack overflow"@,
            OktoErrorKind::StackUnderflow => "Stack underflow"@,
            OktoErrorKind::RomTooLarge => "ROM too large"@,
            OktoErrorKind::AddressOutOfRange => "Address out of range"@,
            OktoErrorKind::InvalidDigitSprite => "Invalid digit sprite"@,
            OktoErrorKind::InvalidSprite => "Invalid sprite"@,
            OktoErrorKind::InvalidOpcode => "Invalid opcode"@,
            OktoErrorKind::RegisterOutOfRange(_) => "Register out of range"@,
            OktoErrorKind::Unknown(_) => "Unknown"@,
        }
    }
}

impl OktoError {
    /// Initialize a new error of the given kind.
    pub fn new(kind: OktoErrorKind) -> (error: Self)
        ensures
            error.kind == kind,
    {
        Self { kind }
    }

    /// Returns a description derived from the error kind.
    pub fn description(&self) -> (text: &'static str)
        ensures
            text@ == self.kind.description(),
    {
        match &self.kind {
            OktoErrorKind::StackOverflow => "Stack overflow",
            OktoErrorKind::StackUnderflow => "Stack underflow",
            OktoErrorKind::RomTooLarge => "ROM too large",
            OktoErrorKind::AddressOutOfRange => "Address out of range",
            OktoErrorKind::InvalidDigitSprite => "Invalid digit sprite",
            OktoErrorKind::InvalidSprite => "Invalid sprite",
            OktoErrorKind::InvalidOpcode => "Invalid opcode",
            OktoErrorKind::RegisterOutOfRange(_) => "Register out of range",
            OktoErrorKind::Unknown(_) => "Unknown",
        }
    }

    /// The error in textual form: the quoted description inside `Error('..')`.
    pub fn to_string(&self) -> (text: String)
        ensures
            text@ == "Error('\""@ + self.kind.description() + "\"')"@,
    {
        let mut text = String::from_str("Error('\"");
        text.append(self.description());
        text.append("\"')");
        text
    }
}

} // verus!
