use vstd::prelude::*;

verus! {

/// Every way an instruction of this program can be rejected before it has
/// any effect on the ledger.
#[derive(Debug, Clone, Copy, PartialEq, Eq, Structural)]
pub enum OnchainAccountError {
    /// The initializer did not co-sign the transaction.
    MissingSignature,
    /// The record account is not the address derived from its seeds.
    InvalidDerivedAddress,
    /// A record identifier above the largest allowed one.
    InvalidId,
    /// The encoded record would not fit in its account.
    OversizedRecord,
    /// The instruction buffer is empty, truncated or carries extra bytes.
    MalformedInstruction,
    /// The first byte of the instruction names no known operation.
    UnknownOpcode,
    /// An account passed to mint initialization is not the expected one.
    AccountMismatch,
    /// No bump value yields an address off the signing curve.
    NoValidAddress,
    /// Fewer accounts were passed than the instruction needs.
    NotEnoughAccounts,
    /// A stored record could not be read back.
    InvalidAccountData,
}

/// The numeric code under which an error reaches the caller.
pub open spec fn error_code(e: OnchainAccountError) -> u32 {
    match e {
        OnchainAccountError::MissingSignature => 0,
        OnchainAccountError::InvalidDerivedAddress => 1,
        OnchainAccountError::InvalidId => 2,
        OnchainAccountError::OversizedRecord => 3,
        OnchainAccountError::MalformedInstruction => 4,
        OnchainAccountError::UnknownOpcode => 5,
        OnchainAccountError::AccountMismatch => 6,
        OnchainAccountError::NoValidAddress => 7,
        OnchainAccountError::NotEnoughAccounts => 8,
        OnchainAccountError::InvalidAccountData => 9,
    }
}

impl OnchainAccountError {
    /// The program-specific error code; distinct for every variant.
    pub fn code(&self) -> (r: u32)
        ensures
            r == error_code(*self),
    {
        match self {
            OnchainAccountError::MissingSignature => 0,
            OnchainAccountError::InvalidDerivedAddress => 1,
            OnchainAccountError::InvalidId => 2,
            OnchainAccountError::OversizedRecord => 3,
            OnchainAccountError::MalformedInstruction => 4,
            OnchainAccountError::UnknownOpcode => 5,
            OnchainAccountError::AccountMismatch => 6,
            OnchainAccountError::NoValidAddress => 7,
            OnchainAccountError::NotEnoughAccounts => 8,
            OnchainAccountError::InvalidAccountData => 9,
        }
    }
}

/// Distinct errors surface under distinct codes.
pub proof fn lemma_error_codes_distinct(a: OnchainAccountError, b: OnchainAccountError)
    ensures
        error_code(a) == error_code(b) <==> a == b,
{
}

} // verus!
