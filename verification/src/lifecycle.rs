//! The five operations a caller can submit: initialize the registry, add
//! and remove verified issuers, mint a credential, and revoke one. Each
//! operation either commits in full or leaves the ledger untouched, and
//! each returns exactly what its decision function says for the state it
//! was applied to.

use vstd::prelude::*;
use crate::addresses::derive_credential_address;
use crate::addresses::derive_registry_address;
use crate::addresses::derive_token_unit_address;
use crate::addresses::spec_token_unit_address;
use crate::addresses::Address;
use crate::addresses::CANONICAL_BUMP;
use crate::credential::CredentialMint;
use crate::credential::CREDENTIAL_TYPE_SKILL_BADGE;
use crate::credential::MAX_NAME_CHARS;
use crate::credential::MAX_SYMBOL_CHARS;
use crate::credential::MAX_URI_CHARS;
use crate::errors::ErrorCode;
use crate::errors::TxError;
use crate::keys::Pubkey;
use crate::ledger::Ledger;
use crate::registry::MAX_VERIFIED_ISSUERS;
use crate::token::TokenUnit;
use vstd::string::StrSliceExecFns;

verus! {

/// Accounts of an `initialize_issuer_registry` call: the prospective
/// authority, which signed the request.
#[derive(Clone, Copy, Debug)]
pub struct InitializeIssuerRegistry {
    /// The signer, who becomes the registry's owner.
    pub authority: Pubkey,
}

/// Accounts of an `add_verified_issuer` call: the identity that signed it.
#[derive(Clone, Copy, Debug)]
pub struct AddVerifiedIssuer {
    /// The signer, who must be the registry's authority.
    pub authority: Pubkey,
}

/// Accounts of a `remove_verified_issuer` call: the identity that signed
/// it.
#[derive(Clone, Copy, Debug)]
pub struct RemoveVerifiedIssuer {
    /// The signer, who must be the registry's authority.
    pub authority: Pubkey,
}

/// Accounts and environment of a `mint_credential` call.
#[derive(Clone, Copy, Debug)]
pub struct MintCredential {
    /// The signer, who must be a verified issuer.
    pub issuer: Pubkey,
    /// The recipient of the credential.
    pub student: Pubkey,
    /// The platform clock at the time of the call.
    pub now: i64,
}

/// Accounts of a `revoke_credential` call.
#[derive(Clone, Copy, Debug)]
pub struct RevokeCredential {
    /// The signer, who must be the record's issuer.
    pub issuer: Pubkey,
    /// The recipient, who authorizes the burn of their token unit.
    pub student: Pubkey,
    /// The token mint address the caller claims belongs to the record.
    pub mint: Address,
}

/// What `initialize_issuer_registry` returns against ledger `l`: the
/// singleton may be created only once.
pub open spec fn spec_initialize_decision(l: Ledger) -> Result<(), TxError> {
    if l.registry_created {
        Err(TxError::AlreadyInitialized)
    } else {
        Ok(())
    }
}

/// What `add_verified_issuer` returns against ledger `l`: the registry
/// must exist, only its authority may add, a present issuer is refused
/// before capacity is consulted, and the list is capacity-bounded.
pub open spec fn spec_add_issuer_decision(
    l: Ledger,
    ctx: AddVerifiedIssuer,
    issuer: Pubkey,
) -> Result<(), TxError> {
    if !l.registry_created {
        Err(TxError::AccountNotInitialized)
    } else if ctx.authority != l.registry.authority {
        Err(TxError::Unauthorized)
    } else if l.registry.spec_contains(issuer) {
        Err(TxError::Program(ErrorCode::IssuerAlreadyExists))
    } else if l.registry.verified_issuers@.len() >= MAX_VERIFIED_ISSUERS {
        Err(TxError::Program(ErrorCode::IssuerRegistryFull))
    } else {
        Ok(())
    }
}

/// What `remove_verified_issuer` returns against ledger `l`: the registry
/// must exist and only its authority may remove; removing an absent
/// issuer is a no-op, not an error.
pub open spec fn spec_remove_issuer_decision(
    l: Ledger,
    ctx: RemoveVerifiedIssuer,
) -> Result<(), TxError> {
    if !l.registry_created {
        Err(TxError::AccountNotInitialized)
    } else if ctx.authority != l.registry.authority {
        Err(TxError::Unauthorized)
    } else {
        Ok(())
    }
}

/// What validating a mint request against a registry yields, in the order
/// the checks are made: the issuer must be verified before anything else
/// is looked at, then the credential kind must be known, then the name,
/// symbol and URI must fit their bounds, in that order.
pub open spec fn spec_validate_decision(
    registry: crate::registry::IssuerRegistry,
    issuer: Pubkey,
    credential_type: u8,
    name: Seq<char>,
    symbol: Seq<char>,
    uri: Seq<char>,
) -> Result<(), ErrorCode> {
    if !registry.spec_contains(issuer) {
        Err(ErrorCode::UnauthorizedIssuer)
    } else if credential_type > CREDENTIAL_TYPE_SKILL_BADGE {
        Err(ErrorCode::InvalidCredentialType)
    } else if name.len() > MAX_NAME_CHARS {
        Err(ErrorCode::NameTooLong)
    } else if symbol.len() > MAX_SYMBOL_CHARS {
        Err(ErrorCode::SymbolTooLong)
    } else if uri.len() > MAX_URI_CHARS {
        Err(ErrorCode::UriTooLong)
    } else {
        Ok(())
    }
}

/// Validate a mint request against the registry: issuer first, then
/// credential kind, then metadata lengths. This is the whole of the
/// business validation a platform embedding performs before creating the
/// record and minting the token unit.
pub fn validate_mint_request(
    registry: &crate::registry::IssuerRegistry,
    issuer: &Pubkey,
    credential_type: u8,
    name: &str,
    symbol: &str,
    uri: &str,
) -> (r: Result<(), ErrorCode>)
    ensures
        r == spec_validate_decision(*registry, *issuer, credential_type, name@, symbol@, uri@),
{
    if !registry.contains_issuer(issuer) {
        return Err(ErrorCode::UnauthorizedIssuer);
    }
    if credential_type > CREDENTIAL_TYPE_SKILL_BADGE {
        return Err(ErrorCode::InvalidCredentialType);
    }
    if name.unicode_len() > MAX_NAME_CHARS {
        return Err(ErrorCode::NameTooLong);
    }
    if symbol.unicode_len() > MAX_SYMBOL_CHARS {
        return Err(ErrorCode::SymbolTooLong);
    }
    if uri.unicode_len() > MAX_URI_CHARS {
        return Err(ErrorCode::UriTooLong);
    }
    Ok(())
}

/// What `mint_credential` returns against ledger `l`, in the order the
/// checks are made: the registry must exist, the request must validate
/// against it, and the record's derived address must be free.
pub open spec fn spec_mint_decision(
    l: Ledger,
    ctx: MintCredential,
    credential_type: u8,
    name: Seq<char>,
    symbol: Seq<char>,
    uri: Seq<char>,
) -> Result<(), TxError> {
    if !l.registry_created {
        Err(TxError::AccountNotInitialized)
    } else {
        match spec_validate_decision(l.registry, ctx.issuer, credential_type, name, symbol, uri) {
            Err(code) => Err(TxError::Program(code)),
            Ok(()) => if l.spec_has_credential(ctx.issuer, ctx.student) {
                Err(TxError::AccountAlreadyInUse)
            } else {
                Ok(())
            },
        }
    }
}

/// The record a successful `mint_credential` appends for its arguments.
pub open spec fn spec_minted_record(
    l: Ledger,
    ctx: MintCredential,
    credential_type: u8,
    name: String,
    symbol: String,
    uri: String,
) -> CredentialMint {
    CredentialMint {
        authority: l.registry.authority,
        student: ctx.student,
        mint: spec_token_unit_address(ctx.issuer, ctx.student),
        credential_type,
        issued_at: ctx.now,
        issuer: ctx.issuer,
        is_revoked: false,
        name,
        symbol,
        uri,
        bump: CANONICAL_BUMP,
    }
}

/// What `revoke_credential` returns against ledger `l`: the record must
/// exist for the pair that signed, the supplied mint account must be the
/// record's own, and the burn must go through — which it does exactly
/// while the student's account still holds the unit.
pub open spec fn spec_revoke_decision(l: Ledger, ctx: RevokeCredential) -> Result<(), TxError> {
    if !l.spec_has_credential(ctx.issuer, ctx.student) {
        Err(TxError::AccountNotInitialized)
    } else if l.spec_credential(ctx.issuer, ctx.student).mint != ctx.mint {
        Err(TxError::ConstraintViolation)
    } else {
        l.tokens.spec_burn_decision(ctx.mint, ctx.student, ctx.student)
    }
}

/// Create the issuer registry singleton, owned by the signing authority,
/// with an empty allow-list. Fails if the singleton already exists; on
/// failure the ledger is unchanged.
pub fn initialize_issuer_registry(ledger: &mut Ledger, ctx: InitializeIssuerRegistry) -> (r:
    Result<(), TxError>)
    requires
        old(ledger).wf(),
    ensures
        final(ledger).wf(),
        r == spec_initialize_decision(*old(ledger)),
        r is Err ==> *final(ledger) == *old(ledger),
        r is Ok ==> final(ledger).registry_created && final(ledger).registry.authority
            == ctx.authority && final(ledger).registry.verified_issuers@ == Seq::<Pubkey>::empty()
            && final(ledger).registry.bump == CANONICAL_BUMP && final(ledger).credentials
            == old(ledger).credentials && final(ledger).tokens == old(ledger).tokens,
{
    if ledger.registry_created {
        return Err(TxError::AlreadyInitialized);
    }
    let (_addr, bump) = derive_registry_address();
    ledger.registry = crate::registry::IssuerRegistry::new(ctx.authority, bump);
    ledger.registry_created = true;
    Ok(())
}

/// Add a verified issuer to the registry. Only the registry's authority
/// may call this; a present issuer and a full registry are refused. On
/// failure the ledger is unchanged; on success the issuer is appended and
/// is thereafter listed.
pub fn add_verified_issuer(ledger: &mut Ledger, ctx: AddVerifiedIssuer, issuer: Pubkey) -> (r:
    Result<(), TxError>)
    requires
        old(ledger).wf(),
    ensures
        final(ledger).wf(),
        r == spec_add_issuer_decision(*old(ledger), ctx, issuer),
        r is Err ==> *final(ledger) == *old(ledger),
        r is Ok ==> final(ledger).registry.verified_issuers@
            == old(ledger).registry.verified_issuers@.push(issuer),
        r is Ok ==> final(ledger).registry.authority == old(ledger).registry.authority,
        r is Ok ==> final(ledger).registry.bump == old(ledger).registry.bump,
        r is Ok ==> final(ledger).registry_created,
        r is Ok ==> final(ledger).credentials == old(ledger).credentials,
        r is Ok ==> final(ledger).tokens == old(ledger).tokens,
        r is Ok ==> final(ledger).registry.spec_contains(issuer),
        final(ledger).registry_created ==> final(ledger).registry.verified_issuers@.len()
            <= MAX_VERIFIED_ISSUERS,
{
    if !ledger.registry_created {
        return Err(TxError::AccountNotInitialized);
    }
    if !(ctx.authority == ledger.registry.authority) {
        return Err(TxError::Unauthorized);
    }
    let res = ledger.registry.add_issuer(issuer);
    match res {
        Ok(()) => {
            proof {
                let s = old(ledger).registry.verified_issuers@;
                assert(ledger.registry.verified_issuers@[s.len() as int] == issuer);
            }
            Ok(())
        },
        Err(code) => Err(TxError::Program(code)),
    }
}

/// Remove an issuer from the registry, keeping the order of the rest.
/// Only the registry's authority may call this; removing an absent issuer
/// is a no-op. Credentials the issuer minted before stay valid. On
/// failure the ledger is unchanged; on success the issuer is no longer
/// listed.
pub fn remove_verified_issuer(ledger: &mut Ledger, ctx: RemoveVerifiedIssuer, issuer: Pubkey) -> (r:
    Result<(), TxError>)
    requires
        old(ledger).wf(),
    ensures
        final(ledger).wf(),
        r == spec_remove_issuer_decision(*old(ledger), ctx),
        r is Err ==> *final(ledger) == *old(ledger),
        r is Ok ==> final(ledger).registry.verified_issuers@
            == old(ledger).registry.verified_issuers@.filter((|k: Pubkey| k != issuer)),
        r is Ok ==> final(ledger).registry.authority == old(ledger).registry.authority,
        r is Ok ==> final(ledger).registry.bump == old(ledger).registry.bump,
        r is Ok ==> final(ledger).registry_created == old(ledger).registry_created,
        r is Ok ==> final(ledger).credentials == old(ledger).credentials,
        r is Ok ==> final(ledger).tokens == old(ledger).tokens,
        r is Ok ==> !final(ledger).registry.spec_contains(issuer),
{
    if !ledger.registry_created {
        return Err(TxError::AccountNotInitialized);
    }
    if !(ctx.authority == ledger.registry.authority) {
        return Err(TxError::Unauthorized);
    }
    ledger.registry.remove_issuer(issuer);
    Ok(())
}

/// Mint a credential: validate the issuer against the registry, the
/// credential kind and the metadata lengths, in that order; create the
/// record at its derived address, exclusively; and mint the bound token
/// unit into the student's holding account under the capability scoped to
/// the record. Either the record and the token unit both commit, or the
/// ledger is unchanged.
pub fn mint_credential(
    ledger: &mut Ledger,
    ctx: MintCredential,
    credential_type: u8,
    name: String,
    symbol: String,
    uri: String,
) -> (r: Result<(), TxError>)
    requires
        old(ledger).wf(),
    ensures
        final(ledger).wf(),
        r == spec_mint_decision(*old(ledger), ctx, credential_type, name@, symbol@, uri@),
        r is Err ==> *final(ledger) == *old(ledger),
        r is Ok ==> final(ledger).credentials@ == old(ledger).credentials@.push(
            spec_minted_record(*old(ledger), ctx, credential_type, name, symbol, uri),
        ) && final(ledger).tokens.units@ == old(ledger).tokens.units@.push(
            (TokenUnit {
                mint: spec_token_unit_address(ctx.issuer, ctx.student),
                holder: ctx.student,
                amount: 1,
            }),
        ) && final(ledger).registry == old(ledger).registry && final(ledger).registry_created,
{
    if !ledger.registry_created {
        return Err(TxError::AccountNotInitialized);
    }
    let validated = validate_mint_request(
        &ledger.registry,
        &ctx.issuer,
        credential_type,
        name.as_str(),
        symbol.as_str(),
        uri.as_str(),
    );
    match validated {
        Err(code) => {
            return Err(TxError::Program(code));
        },
        Ok(()) => {},
    }
    if ledger.find_credential(&ctx.issuer, &ctx.student).is_some() {
        return Err(TxError::AccountAlreadyInUse);
    }
    let (record_address, record_bump) = derive_credential_address(ctx.issuer, ctx.student);
    let (unit_address, _unit_bump) = derive_token_unit_address(record_address);
    proof {
        ledger.lemma_tokens_wf();
        if ledger.tokens.spec_has_unit(unit_address) {
            let i = choose|i: int|
                0 <= i < ledger.tokens.units@.len() && (#[trigger] ledger.tokens.units@[i]).mint
                    == unit_address;
            assert(ledger.credentials@[i].mint == spec_token_unit_address(
                ledger.credentials@[i].issuer,
                ledger.credentials@[i].student,
            ));
            assert(ledger.credentials@[i].has_key(ctx.issuer, ctx.student));
        }
    }
    let minted = ledger.tokens.mint_one(unit_address, ctx.student, record_address);
    match minted {
        Err(e) => Err(e),
        Ok(()) => {
            let record = CredentialMint {
                authority: ledger.registry.authority,
                student: ctx.student,
                mint: unit_address,
                credential_type,
                issued_at: ctx.now,
                issuer: ctx.issuer,
                is_revoked: false,
                name,
                symbol,
                uri,
                bump: record_bump,
            };
            ledger.credentials.push(record);
            proof {
                let n = old(ledger).credentials@.len() as int;
                assert forall|i: int, j: int|
                    #![trigger ledger.credentials@[i], ledger.credentials@[j]]
                    0 <= i < j < ledger.credentials@.len() implies !(ledger.credentials@[i].issuer
                    == ledger.credentials@[j].issuer && ledger.credentials@[i].student
                    == ledger.credentials@[j].student) by {
                    if j == n {
                        assert(!old(ledger).spec_has_credential(ctx.issuer, ctx.student));
                        assert(ledger.credentials@[i] == old(ledger).credentials@[i]);
                    }
                }
            }
            Ok(())
        },
    }
}

/// Revoke a credential: the record for the signing issuer and the named
/// student must hold the supplied mint account, the student authorizes the
/// burn of their unit, and the record's flag moves to revoked. The flag
/// mutation and the burn commit together or not at all, so a second
/// revocation fails at the burn and leaves the flag standing.
pub fn revoke_credential(ledger: &mut Ledger, ctx: RevokeCredential) -> (r: Result<(), TxError>)
    requires
        old(ledger).wf(),
    ensures
        final(ledger).wf(),
        r == spec_revoke_decision(*old(ledger), ctx),
        r is Err ==> *final(ledger) == *old(ledger),
        r is Ok ==> final(ledger).credentials@ == old(ledger).credentials@.update(
            old(ledger).spec_credential_index(ctx.issuer, ctx.student),
            (CredentialMint {
                is_revoked: true,
                ..old(ledger).spec_credential(ctx.issuer, ctx.student)
            }),
        ) && final(ledger).tokens.units@ == old(ledger).tokens.units@.update(
            old(ledger).spec_credential_index(ctx.issuer, ctx.student),
            (TokenUnit {
                amount: 0,
                ..old(ledger).tokens.units@[old(ledger).spec_credential_index(
                    ctx.issuer,
                    ctx.student,
                )]
            }),
        ) && final(ledger).registry == old(ledger).registry && final(ledger).registry_created
            == old(ledger).registry_created,
{
    let found = ledger.find_credential(&ctx.issuer, &ctx.student);
    match found {
        None => Err(TxError::AccountNotInitialized),
        Some(i) => {
            if !(ledger.credentials[i].mint == ctx.mint) {
                return Err(TxError::ConstraintViolation);
            }
            proof {
                ledger.lemma_tokens_wf();
                assert(ledger.tokens.units@[i as int].mint == ctx.mint);
                assert(ledger.tokens.spec_has_unit(ctx.mint));
                let w = ledger.tokens.spec_unit_index(ctx.mint);
                assert(ledger.tokens.units@[w].mint == ctx.mint);
                assert(w == i as int);
            }
            let burned = ledger.tokens.burn_one(&ctx.mint, &ctx.student, &ctx.student);
            match burned {
                Err(e) => Err(e),
                Ok(()) => {
                    let c = &mut ledger.credentials[i];
                    c.is_revoked = true;
                    Ok(())
                },
            }
        },
    }
}

/// Law: a successful mint occupies the pair's derived address — the new
/// ledger holds a credential record for exactly that (issuer, student)
/// pair.
pub proof fn lemma_minted_pair_occupies(l1: Ledger, l2: Ledger, rec: CredentialMint)
    requires
        l2.credentials@ == l1.credentials@.push(rec),
    ensures
        l2.spec_has_credential(rec.issuer, rec.student),
{
    assert(l2.credentials@[l1.credentials@.len() as int].has_key(rec.issuer, rec.student));
}

/// Law: once an issuer is listed, a further `add_verified_issuer` for the
/// same issuer fails with the duplicate error, even for the authority.
pub proof fn lemma_second_add_always_fails(l: Ledger, ctx: AddVerifiedIssuer, issuer: Pubkey)
    requires
        l.registry_created,
        l.registry.spec_contains(issuer),
        ctx.authority == l.registry.authority,
    ensures
        spec_add_issuer_decision(l, ctx, issuer) == Err::<(), TxError>(
            TxError::Program(ErrorCode::IssuerAlreadyExists),
        ),
{
}

/// Law: once a credential record exists for an (issuer, student) pair, no
/// further `mint_credential` for that pair can succeed, whatever the
/// credential kind or metadata.
pub proof fn lemma_second_mint_always_fails(
    l: Ledger,
    ctx: MintCredential,
    credential_type: u8,
    name: Seq<char>,
    symbol: Seq<char>,
    uri: Seq<char>,
)
    requires
        l.spec_has_credential(ctx.issuer, ctx.student),
    ensures
        spec_mint_decision(l, ctx, credential_type, name, symbol, uri) is Err,
{
}

/// Law: once a credential is revoked — its token unit burned, its flag
/// set — a further `revoke_credential` for the pair always fails, at the
/// token-burn step when the supplied accounts are the record's own.
pub proof fn lemma_second_revoke_always_fails(l: Ledger, ctx: RevokeCredential)
    requires
        l.wf(),
        l.spec_has_credential(ctx.issuer, ctx.student),
        l.spec_credential(ctx.issuer, ctx.student).is_revoked,
    ensures
        spec_revoke_decision(l, ctx) is Err,
        l.spec_credential(ctx.issuer, ctx.student).mint == ctx.mint ==> spec_revoke_decision(
            l,
            ctx,
        ) == Err::<(), TxError>(TxError::InsufficientUnitBalance),
{
    let i = l.spec_credential_index(ctx.issuer, ctx.student);
    let c = l.spec_credential(ctx.issuer, ctx.student);
    if c.mint == ctx.mint {
        assert(l.tokens.units@[i].mint == ctx.mint);
        assert(l.tokens.spec_has_unit(ctx.mint));
        l.lemma_tokens_wf();
        let w = l.tokens.spec_unit_index(ctx.mint);
        assert(l.tokens.units@[w].mint == ctx.mint);
        assert(w == i);
        assert(l.tokens.spec_unit(ctx.mint).amount == 0);
    }
}

} // verus!
