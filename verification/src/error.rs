//! Why an instruction is refused.

use vstd::prelude::*;

verus! {

/// A precondition of settlement that does not hold.
#[derive(Clone, Copy, Debug, PartialEq, Eq, Structural)]
pub enum EscrowError {
    /// The maturity window has not yet passed since the escrow was made.
    EscrowNotMature,
    /// The vault is not held by the authority derived for the escrow.
    InvalidVaultAuthority,
    /// The vault holds nothing.
    EmptyVault,
    /// There is no initialised escrow record.
    InvalidEscrow,
}

impl EscrowError {
    /// What the error says to whoever reads it.
    pub fn message(&self) -> (r: &'static str)
        ensures
            r@ == match *self {
                EscrowError::EscrowNotMature => "Escrow has not matured yet"@,
                EscrowError::InvalidVaultAuthority =>
                    "Vault token account is not owned by the escrow PDA"@,
                EscrowError::EmptyVault => "Vault is empty"@,
                EscrowError::InvalidEscrow => "Invalid escrow account"@,
            },
    {
        match self {
            EscrowError::EscrowNotMature => "Escrow has not matured yet",
            EscrowError::InvalidVaultAuthority =>
                "Vault token account is not owned by the escrow PDA",
            EscrowError::EmptyVault => "Vault is empty",
            EscrowError::InvalidEscrow => "Invalid escrow account",
        }
    }
}

/// A movement of funds that the custody of holdings refuses.
#[derive(Clone, Copy, Debug, PartialEq, Eq, Structural)]
pub enum TransferError {
    /// The source holds less than the amount.
    InsufficientFunds,
    /// A holding is denominated in another asset than the one moved.
    MintMismatch,
    /// The authority that asks is not the one that holds the source.
    OwnerMismatch,
    /// The destination cannot hold the sum.
    Overflow,
}

/// Why an instruction was refused. A refused instruction changes nothing.
#[derive(Clone, Copy, Debug, PartialEq, Eq, Structural)]
pub enum Failure {
    /// A precondition of the escrow itself does not hold.
    Escrow(EscrowError),
    /// A movement of funds was refused.
    Transfer(TransferError),
    /// The caller is not the maker of the escrow.
    Unauthorized,
    /// The escrow record or its vault no longer exists.
    NotFound,
    /// An escrow record or a vault already stands where one is to be made.
    AccountInUse,
    /// No nonce gives the escrow an authority of its own.
    NoAuthority,
    /// An escrow is to lock nothing, or to ask nothing in return.
    ZeroAmount,
    /// A holding that is to receive funds is not held by the party the funds are due
    /// to.
    InvalidRecipient,
}

} // verus!
