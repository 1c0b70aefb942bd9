use vstd::prelude::*;

use crate::opcode::AddressMode;

verus! {

/// Everything that can go wrong while loading or running a program.
#[derive(Clone, Debug, PartialEq, Eq)]
pub enum Keet8Error {
    /// The ROM file was not specified on the command line
    NoROMFile,
    /// The ROM could not be loaded into memory; holds what was asked for
    FailedToLoadROM(String),
    /// The ROM holds more bytes than the program region can take; holds its
    /// length
    ROMTooLarge(usize),
    /// A return was attempted with no pending call
    CallStackEmpty,
    /// A call was attempted at the maximum nesting depth
    CallStackFull,
    /// An instruction was handed operands of a shape it does not take
    InvalidAddressMode(AddressMode),
}

} // verus!
