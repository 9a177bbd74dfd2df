//! The ways in which the core refuses to go on.

use vstd::prelude::*;

verus! {

/// A fatal condition met while building or stepping the machine.
#[derive(Debug, Clone, Copy, PartialEq, Eq, Structural)]
pub enum CoreError {
    /// The cartridge header names a controller or a size that is not
    /// supported, or the image is shorter than its header declares.
    UnsupportedCartridge,
    /// The byte fetched as an opcode has no decoding.
    UndefinedOpcode,
}

} // verus!
