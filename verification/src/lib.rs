//! Verified core of a credential passport ledger: a bounded registry of
//! trusted issuers, deterministic content-addressed storage for credential
//! records, and a one-way issued-to-revoked lifecycle bound to singleton
//! token units.

pub mod addresses;
pub mod credential;
pub mod errors;
pub mod keys;
pub mod ledger;
pub mod lifecycle;
pub mod registry;
pub mod token;

pub use addresses::Address;
pub use credential::CredentialMint;
pub use errors::ErrorCode;
pub use errors::TxError;
pub use keys::Pubkey;
pub use ledger::Ledger;
pub use lifecycle::add_verified_issuer;
pub use lifecycle::initialize_issuer_registry;
pub use lifecycle::mint_credential;
pub use lifecycle::remove_verified_issuer;
pub use lifecycle::revoke_credential;
pub use lifecycle::validate_mint_request;
pub use lifecycle::AddVerifiedIssuer;
pub use lifecycle::InitializeIssuerRegistry;
pub use lifecycle::MintCredential;
pub use lifecycle::RemoveVerifiedIssuer;
pub use lifecycle::RevokeCredential;
pub use registry::IssuerRegistry;
pub use token::TokenLedger;
pub use token::TokenUnit;
