//! Error kinds reported by this layer.
//!
//! All errors are local, synchronous and recoverable results: an instruction
//! handler that receives one must fail fast and stop, because the host treats
//! a returned error as grounds to discard the whole transaction's effects.

use vstd::prelude::*;

verus! {

/// Reasons a program operation can fail.
///
/// The kinds used by this layer are: a declared capacity exceeded
/// (`InvalidArgument`), a resize growth beyond the permitted delta
/// (`InvalidRealloc`), an access that would alias an existing borrow
/// (`AccountBorrowFailed`), and errors surfaced by an invoked program
/// (`Custom`, with a program-specific code).
#[derive(Clone, Copy, Debug, PartialEq, Eq, Structural)]
pub enum ProgramError {
    /// A program-specific error code surfaced by an invoked program.
    Custom(u32),
    /// The arguments provided to a program instruction were invalid.
    InvalidArgument,
    /// An instruction's data contents were invalid.
    InvalidInstructionData,
    /// The instruction expected additional account keys.
    NotEnoughAccountKeys,
    /// Failed to borrow a reference to account data: already borrowed.
    AccountBorrowFailed,
    /// Requested account data growth exceeds the permitted increase.
    InvalidRealloc,
    /// Program arithmetic overflowed.
    ArithmeticOverflow,
}

/// The result of a program instruction handler or host call.
pub type ProgramResult = Result<(), ProgramError>;

} // verus!
