//! Deterministic address derivation.
//!
//! Every record of the system lives at an address computed from a namespace
//! tag and the identity keys that scope it, so a record can be found again
//! without any index, and so that creating a record at an occupied address
//! doubles as a uniqueness guard. On the ledger platform the derivation is a
//! hash; here an address is content-addressed: it carries its namespace and
//! key material, which makes determinism and collision-freedom across
//! namespaces provable rather than assumed.

use vstd::prelude::*;
use crate::keys::Pubkey;

verus! {

/// The disambiguation nonce ("bump") paired with every derived address. In
/// the content-addressed model no probing is needed, so the canonical first
/// candidate is always valid.
pub const CANONICAL_BUMP: u8 = 255;

/// A derived storage address: the namespace tag together with the key
/// material that scopes the record stored there.
#[derive(Clone, Copy, Debug, PartialEq, Eq, Structural)]
pub enum Address {
    /// The issuer-registry singleton.
    Registry,
    /// The credential record minted by `issuer` to `student`.
    Credential { issuer: Pubkey, student: Pubkey },
    /// The singleton token unit bound to the credential record that
    /// `issuer` minted to `student`.
    TokenUnit { issuer: Pubkey, student: Pubkey },
}

/// Address of the registry singleton.
pub open spec fn spec_registry_address() -> Address {
    Address::Registry
}

/// Address of the credential record for an (issuer, student) pair.
pub open spec fn spec_credential_address(issuer: Pubkey, student: Pubkey) -> Address {
    Address::Credential { issuer, student }
}

/// Address of the token unit bound to the credential record at
/// `spec_credential_address(issuer, student)`.
pub open spec fn spec_token_unit_address(issuer: Pubkey, student: Pubkey) -> Address {
    Address::TokenUnit { issuer, student }
}

/// Derive the registry singleton's address and bump.
pub fn derive_registry_address() -> (r: (Address, u8))
    ensures
        r.0 == spec_registry_address(),
        r.1 == CANONICAL_BUMP,
{
    (Address::Registry, CANONICAL_BUMP)
}

/// Derive the address and bump of the credential record for an
/// (issuer, student) pair. The same pair always derives the same address.
pub fn derive_credential_address(issuer: Pubkey, student: Pubkey) -> (r: (Address, u8))
    ensures
        r.0 == spec_credential_address(issuer, student),
        r.1 == CANONICAL_BUMP,
{
    (Address::Credential { issuer, student }, CANONICAL_BUMP)
}

/// Derive the address and bump of the token unit scoped to a credential
/// record's address. Only credential addresses scope token units.
pub fn derive_token_unit_address(credential: Address) -> (r: (Address, u8))
    requires
        credential is Credential,
    ensures
        r.0 == spec_token_unit_address(credential->Credential_issuer, credential->Credential_student),
        r.1 == CANONICAL_BUMP,
{
    match credential {
        Address::Credential { issuer, student } => {
            (Address::TokenUnit { issuer, student }, CANONICAL_BUMP)
        },
        _ => unreached(),
    }
}

/// Derivation is collision-free: two distinct scopes never derive the same
/// address, within a namespace (distinct key pairs) or across namespaces
/// (registry, credential record, token unit).
pub proof fn lemma_address_derivation_injective(
    i1: Pubkey,
    s1: Pubkey,
    i2: Pubkey,
    s2: Pubkey,
)
    ensures
        (i1, s1) != (i2, s2) ==> spec_credential_address(i1, s1) != spec_credential_address(
            i2,
            s2,
        ),
        (i1, s1) != (i2, s2) ==> spec_token_unit_address(i1, s1) != spec_token_unit_address(
            i2,
            s2,
        ),
        spec_credential_address(i1, s1) != spec_token_unit_address(i2, s2),
        spec_credential_address(i1, s1) != spec_registry_address(),
        spec_token_unit_address(i1, s1) != spec_registry_address(),
{
}

} // verus!
