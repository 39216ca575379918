//! Error surface: the program's own error codes, and the failure shapes that
//! the surrounding ledger platform reports (account exclusivity, signer and
//! relationship constraints).

use vstd::prelude::*;

verus! {

/// Business-rule error codes raised by the credential core itself.
#[derive(Clone, Copy, Debug, PartialEq, Eq, Structural)]
pub enum ErrorCode {
    /// Issuer already exists in the registry.
    IssuerAlreadyExists,
    /// Unauthorized issuer - not in the verified registry.
    UnauthorizedIssuer,
    /// Credential has been revoked. Declared for callers; no transition
    /// raises it today (re-revocation fails at the token burn instead).
    CredentialRevoked,
    /// Invalid credential type.
    InvalidCredentialType,
    /// Issuer registry is full.
    IssuerRegistryFull,
    /// Name too long.
    NameTooLong,
    /// Symbol too long.
    SymbolTooLong,
    /// URI too long.
    UriTooLong,
}

/// Everything a submitted operation can fail with: either one of the
/// program's own [`ErrorCode`]s, or a structural failure that the platform
/// layer reports before or while committing the transaction.
#[derive(Clone, Copy, Debug, PartialEq, Eq, Structural)]
pub enum TxError {
    /// A business-rule violation detected by the core.
    Program(ErrorCode),
    /// The registry singleton's address already holds a record.
    AlreadyInitialized,
    /// An account the operation needs does not exist yet.
    AccountNotInitialized,
    /// The caller did not sign as the identity the operation requires.
    Unauthorized,
    /// Exclusive creation failed: the derived address is already occupied.
    AccountAlreadyInUse,
    /// A supplied account does not stand in the required relationship to
    /// the stored record.
    ConstraintViolation,
    /// The token ledger refused the transfer: the unit to burn no longer
    /// exists in the holder's account.
    InsufficientUnitBalance,
}

} // verus!
