//! Credential records: one immutable record per (issuer, student) pair,
//! bound to a singleton token unit, with a one-way revocation flag.

use vstd::prelude::*;
use crate::addresses::Address;
use crate::addresses::spec_credential_address;
use crate::addresses::spec_token_unit_address;
use crate::keys::Pubkey;

verus! {

/// Credential kind: a course completion.
pub const CREDENTIAL_TYPE_COURSE: u8 = 0;

/// Credential kind: a degree.
pub const CREDENTIAL_TYPE_DEGREE: u8 = 1;

/// Credential kind: a skill badge.
pub const CREDENTIAL_TYPE_SKILL_BADGE: u8 = 2;

/// Largest number of characters allowed in a credential name.
pub const MAX_NAME_CHARS: usize = 32;

/// Largest number of characters allowed in a credential symbol.
pub const MAX_SYMBOL_CHARS: usize = 10;

/// Largest number of characters allowed in a credential metadata URI.
pub const MAX_URI_CHARS: usize = 64;

/// One issued credential. Every field but `is_revoked` is immutable once
/// the record is created; `is_revoked` moves from `false` to `true` at most
/// once and never back.
#[derive(Debug)]
pub struct CredentialMint {
    /// Registry authority at the time of minting.
    pub authority: Pubkey,
    /// Recipient of the credential.
    pub student: Pubkey,
    /// Derived address of the token unit bound to this record.
    pub mint: Address,
    /// One of the `CREDENTIAL_TYPE_*` kinds.
    pub credential_type: u8,
    /// Platform time at the moment of minting.
    pub issued_at: i64,
    /// Identity that issued the credential.
    pub issuer: Pubkey,
    /// Whether the credential has been revoked.
    pub is_revoked: bool,
    /// Display name of the credential.
    pub name: String,
    /// Short symbol of the credential.
    pub symbol: String,
    /// Reference to off-ledger metadata.
    pub uri: String,
    /// Disambiguation nonce of the record's derived address.
    pub bump: u8,
}

impl CredentialMint {
    /// The record's structural invariant: a known credential kind, metadata
    /// within bounds, and a token unit address derived from this record's
    /// own (issuer, student) scope.
    pub open spec fn wf(self) -> bool {
        &&& self.credential_type <= CREDENTIAL_TYPE_SKILL_BADGE
        &&& self.name@.len() <= MAX_NAME_CHARS
        &&& self.symbol@.len() <= MAX_SYMBOL_CHARS
        &&& self.uri@.len() <= MAX_URI_CHARS
        &&& self.mint == spec_token_unit_address(self.issuer, self.student)
    }

    /// The derived address this record is stored at.
    pub open spec fn record_address(self) -> Address {
        spec_credential_address(self.issuer, self.student)
    }

    /// Whether this record is the one scoped to `issuer` and `student`.
    pub open spec fn has_key(self, issuer: Pubkey, student: Pubkey) -> bool {
        self.issuer == issuer && self.student == student
    }
}

} // verus!
