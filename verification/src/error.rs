use vstd::prelude::*;

verus! {

/// The errors the instruction handler can surface. Each variant mirrors one
/// failure the hosting runtime distinguishes, so a caller can map them
/// one-for-one onto its own error codes.
#[derive(Clone, Copy, PartialEq, Eq, Structural, Debug)]
pub enum MintError {
    /// The opcode byte names no supported instruction.
    InvalidInstructionData,
    /// The account list ran out before every required account was read.
    NotEnoughAccountKeys,
    /// The mint account's storage does not fit the packed mint layout.
    InvalidAccountData,
    /// The account handed in as the rent sysvar has the wrong address, or its
    /// data is too short to hold the rent schedule.
    InvalidArgument,
    /// The mint record's initialization flag is already set.
    AccountAlreadyInitialized,
    /// The mint account's balance is below the rent-exemption threshold.
    AccountNotRentExempt,
}

} // verus!
