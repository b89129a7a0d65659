//! Errors of the machine core.
//!
//! Only three conditions are errors at all.  A program too large for the
//! space past its load address is reported to the caller and nothing is
//! written.  A call nested deeper than the stack holds, or a return with
//! no pending return address, is fatal and halts the machine.  Everything
//! else — wrapping arithmetic, out-of-range address bits, unrecognized
//! opcodes — is defined, non-fatal behavior.

use vstd::prelude::*;

verus! {

/// A fault of the virtual machine, surfaced to the host.
#[derive(Debug, Copy, Clone, PartialEq, Eq, Structural)]
pub enum Chip8Error {
    /// The program is larger than the memory past the load address.
    Capacity,
    /// A call was made with all sixteen stack slots in use.
    StackOverflow,
    /// A return was made with no pending return address.
    StackUnderflow,
}

/// Whether an operation's result reports exactly the given fault: `Ok`
/// when there is none, the matching `Err` otherwise.
pub open spec fn matches_fault(r: Result<(), Chip8Error>, e: Option<Chip8Error>) -> bool {
    match e {
        Some(err) => r == Err::<(), Chip8Error>(err),
        None => r == Ok::<(), Chip8Error>(()),
    }
}

} // verus!
