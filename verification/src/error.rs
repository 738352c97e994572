use vstd::prelude::*;

verus! {

/// Errors raised while parsing swap inputs or invoking a program.
#[derive(Clone, Copy, Debug, PartialEq, Eq, Structural)]
pub enum SwapError {
    /// The instruction data is malformed.
    InvalidInstructionData,
    /// Fewer (or other) accounts than the instruction expects.
    NotEnoughAccountKeys,
    /// An account holds unexpected data.
    InvalidAccountData,
    /// The accounts handed over cannot be passed on as the invoked program
    /// expects them.
    InvalidArgument,
    /// An amount computed from the inputs does not fit its integer type.
    ArithmeticOverflow,
    /// The invoked program or the runtime failed; the payload is the runtime's error code.
    Runtime(u64),
}

} // verus!
