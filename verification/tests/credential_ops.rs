//! Credential lifecycle: minting with its validation order, the duplicate
//! guard, revocation, and the full issue-and-revoke scenario.

use apec_learner_passport::add_verified_issuer;
use apec_learner_passport::addresses::derive_credential_address;
use apec_learner_passport::addresses::derive_token_unit_address;
use apec_learner_passport::addresses::Address;
use apec_learner_passport::credential::CREDENTIAL_TYPE_DEGREE;
use apec_learner_passport::errors::ErrorCode;
use apec_learner_passport::errors::TxError;
use apec_learner_passport::initialize_issuer_registry;
use apec_learner_passport::mint_credential;
use apec_learner_passport::remove_verified_issuer;
use apec_learner_passport::revoke_credential;
use apec_learner_passport::AddVerifiedIssuer;
use apec_learner_passport::InitializeIssuerRegistry;
use apec_learner_passport::Ledger;
use apec_learner_passport::MintCredential;
use apec_learner_passport::Pubkey;
use apec_learner_passport::RemoveVerifiedIssuer;
use apec_learner_passport::RevokeCredential;

fn key(n: u64) -> Pubkey {
    Pubkey::new(n, 0, 0, 0)
}

fn ledger_with_issuer(authority: Pubkey, issuer: Pubkey) -> Ledger {
    let mut l = Ledger::new();
    initialize_issuer_registry(&mut l, InitializeIssuerRegistry { authority }).unwrap();
    add_verified_issuer(&mut l, AddVerifiedIssuer { authority }, issuer).unwrap();
    l
}

fn mint_ctx(issuer: Pubkey, student: Pubkey) -> MintCredential {
    MintCredential { issuer, student, now: 1_700_000_000 }
}

fn unit_address_for(issuer: Pubkey, student: Pubkey) -> Address {
    let (record_address, _bump) = derive_credential_address(issuer, student);
    let (unit_address, _bump) = derive_token_unit_address(record_address);
    unit_address
}

#[test]
fn mint_creates_record_and_one_token_unit() {
    let (a, i, s) = (key(1), key(2), key(3));
    let mut l = ledger_with_issuer(a, i);
    let r = mint_credential(
        &mut l,
        mint_ctx(i, s),
        CREDENTIAL_TYPE_DEGREE,
        "B.Sc CS".to_string(),
        "BSCCS".to_string(),
        "ipfs://uri1".to_string(),
    );
    assert_eq!(r, Ok(()));
    let c = l.get_credential(&i, &s).expect("record exists");
    assert_eq!(c.authority, a);
    assert_eq!(c.student, s);
    assert_eq!(c.issuer, i);
    assert_eq!(c.credential_type, CREDENTIAL_TYPE_DEGREE);
    assert_eq!(c.issued_at, 1_700_000_000);
    assert!(!c.is_revoked);
    assert_eq!(c.name, "B.Sc CS");
    assert_eq!(c.symbol, "BSCCS");
    assert_eq!(c.uri, "ipfs://uri1");
    assert_eq!(c.mint, unit_address_for(i, s));
    let mint = c.mint;
    assert_eq!(l.token_balance(&mint, &s), 1);
}

#[test]
fn mint_by_non_listed_issuer_fails_and_creates_nothing() {
    let (a, i, s) = (key(1), key(2), key(3));
    let mut l = ledger_with_issuer(a, i);
    let outsider = key(66);
    let r = mint_credential(
        &mut l,
        mint_ctx(outsider, s),
        CREDENTIAL_TYPE_DEGREE,
        "Degree".to_string(),
        "DEG".to_string(),
        "uri".to_string(),
    );
    assert_eq!(r, Err(TxError::Program(ErrorCode::UnauthorizedIssuer)));
    assert!(l.get_credential(&outsider, &s).is_none());
    assert_eq!(l.token_balance(&unit_address_for(outsider, s), &s), 0);
}

#[test]
fn second_mint_for_same_pair_fails_whatever_the_metadata() {
    let (a, i, s) = (key(1), key(2), key(3));
    let mut l = ledger_with_issuer(a, i);
    mint_credential(
        &mut l,
        mint_ctx(i, s),
        0,
        "First".to_string(),
        "ONE".to_string(),
        "uri1".to_string(),
    )
    .unwrap();
    let r = mint_credential(
        &mut l,
        mint_ctx(i, s),
        2,
        "Second, quite different".to_string(),
        "TWO".to_string(),
        "uri2".to_string(),
    );
    assert_eq!(r, Err(TxError::AccountAlreadyInUse));
    let c = l.get_credential(&i, &s).unwrap();
    assert_eq!(c.name, "First");
}

#[test]
fn mint_to_two_students_and_from_two_issuers_succeeds() {
    let (a, i1, i2) = (key(1), key(2), key(4));
    let (s1, s2) = (key(3), key(5));
    let mut l = ledger_with_issuer(a, i1);
    add_verified_issuer(&mut l, AddVerifiedIssuer { authority: a }, i2).unwrap();
    for (i, s) in [(i1, s1), (i1, s2), (i2, s1)] {
        let r = mint_credential(
            &mut l,
            mint_ctx(i, s),
            0,
            "Course".to_string(),
            "CRS".to_string(),
            "uri".to_string(),
        );
        assert_eq!(r, Ok(()));
    }
    assert!(l.get_credential(&i1, &s1).is_some());
    assert!(l.get_credential(&i1, &s2).is_some());
    assert!(l.get_credential(&i2, &s1).is_some());
    assert!(l.get_credential(&i2, &s2).is_none());
}

#[test]
fn invalid_credential_type_is_rejected_without_mutation() {
    let (a, i, s) = (key(1), key(2), key(3));
    let mut l = ledger_with_issuer(a, i);
    let r = mint_credential(
        &mut l,
        mint_ctx(i, s),
        3,
        "Name".to_string(),
        "SYM".to_string(),
        "uri".to_string(),
    );
    assert_eq!(r, Err(TxError::Program(ErrorCode::InvalidCredentialType)));
    assert!(l.get_credential(&i, &s).is_none());
    assert_eq!(l.token_balance(&unit_address_for(i, s), &s), 0);
}

#[test]
fn name_of_33_characters_is_rejected() {
    let (a, i, s) = (key(1), key(2), key(3));
    let mut l = ledger_with_issuer(a, i);
    let name33 = "x".repeat(33);
    let r = mint_credential(
        &mut l,
        mint_ctx(i, s),
        0,
        name33,
        "SYM".to_string(),
        "uri".to_string(),
    );
    assert_eq!(r, Err(TxError::Program(ErrorCode::NameTooLong)));
    assert!(l.get_credential(&i, &s).is_none());
}

#[test]
fn name_of_32_characters_is_accepted() {
    let (a, i, s) = (key(1), key(2), key(3));
    let mut l = ledger_with_issuer(a, i);
    let name32 = "x".repeat(32);
    let r = mint_credential(
        &mut l,
        mint_ctx(i, s),
        0,
        name32.clone(),
        "SYM".to_string(),
        "uri".to_string(),
    );
    assert_eq!(r, Ok(()));
    assert_eq!(l.get_credential(&i, &s).unwrap().name, name32);
}

#[test]
fn symbol_of_11_characters_is_rejected() {
    let (a, i, s) = (key(1), key(2), key(3));
    let mut l = ledger_with_issuer(a, i);
    let r = mint_credential(
        &mut l,
        mint_ctx(i, s),
        0,
        "Name".to_string(),
        "x".repeat(11),
        "uri".to_string(),
    );
    assert_eq!(r, Err(TxError::Program(ErrorCode::SymbolTooLong)));
}

#[test]
fn uri_of_65_characters_is_rejected() {
    let (a, i, s) = (key(1), key(2), key(3));
    let mut l = ledger_with_issuer(a, i);
    let r = mint_credential(
        &mut l,
        mint_ctx(i, s),
        0,
        "Name".to_string(),
        "SYM".to_string(),
        "x".repeat(65),
    );
    assert_eq!(r, Err(TxError::Program(ErrorCode::UriTooLong)));
}

#[test]
fn unauthorized_issuer_outranks_later_checks() {
    let (a, i, s) = (key(1), key(2), key(3));
    let mut l = ledger_with_issuer(a, i);
    let outsider = key(66);
    let r = mint_credential(
        &mut l,
        mint_ctx(outsider, s),
        7,
        "x".repeat(33),
        "x".repeat(11),
        "x".repeat(65),
    );
    assert_eq!(r, Err(TxError::Program(ErrorCode::UnauthorizedIssuer)));
}

#[test]
fn invalid_type_outranks_length_checks() {
    let (a, i, s) = (key(1), key(2), key(3));
    let mut l = ledger_with_issuer(a, i);
    let r = mint_credential(
        &mut l,
        mint_ctx(i, s),
        7,
        "x".repeat(33),
        "SYM".to_string(),
        "uri".to_string(),
    );
    assert_eq!(r, Err(TxError::Program(ErrorCode::InvalidCredentialType)));
}

#[test]
fn revoke_flips_flag_and_burns_unit() {
    let (a, i, s) = (key(1), key(2), key(3));
    let mut l = ledger_with_issuer(a, i);
    mint_credential(
        &mut l,
        mint_ctx(i, s),
        0,
        "Name".to_string(),
        "SYM".to_string(),
        "uri".to_string(),
    )
    .unwrap();
    let mint = l.get_credential(&i, &s).unwrap().mint;
    assert_eq!(l.token_balance(&mint, &s), 1);
    let r = revoke_credential(&mut l, RevokeCredential { issuer: i, student: s, mint });
    assert_eq!(r, Ok(()));
    assert!(l.get_credential(&i, &s).unwrap().is_revoked);
    assert_eq!(l.token_balance(&mint, &s), 0);
}

#[test]
fn second_revoke_fails_at_the_burn_and_flag_stands() {
    let (a, i, s) = (key(1), key(2), key(3));
    let mut l = ledger_with_issuer(a, i);
    mint_credential(
        &mut l,
        mint_ctx(i, s),
        0,
        "Name".to_string(),
        "SYM".to_string(),
        "uri".to_string(),
    )
    .unwrap();
    let mint = l.get_credential(&i, &s).unwrap().mint;
    revoke_credential(&mut l, RevokeCredential { issuer: i, student: s, mint }).unwrap();
    let r = revoke_credential(&mut l, RevokeCredential { issuer: i, student: s, mint });
    assert_eq!(r, Err(TxError::InsufficientUnitBalance));
    assert!(l.get_credential(&i, &s).unwrap().is_revoked);
    assert_eq!(l.token_balance(&mint, &s), 0);
}

#[test]
fn revoke_with_foreign_mint_account_fails() {
    let (a, i, s) = (key(1), key(2), key(3));
    let mut l = ledger_with_issuer(a, i);
    mint_credential(
        &mut l,
        mint_ctx(i, s),
        0,
        "Name".to_string(),
        "SYM".to_string(),
        "uri".to_string(),
    )
    .unwrap();
    let wrong_mint = unit_address_for(i, key(99));
    let r = revoke_credential(&mut l, RevokeCredential { issuer: i, student: s, mint: wrong_mint });
    assert_eq!(r, Err(TxError::ConstraintViolation));
    assert!(!l.get_credential(&i, &s).unwrap().is_revoked);
}

#[test]
fn revoke_without_record_fails() {
    let (a, i, s) = (key(1), key(2), key(3));
    let mut l = ledger_with_issuer(a, i);
    let mint = unit_address_for(i, s);
    let r = revoke_credential(&mut l, RevokeCredential { issuer: i, student: s, mint });
    assert_eq!(r, Err(TxError::AccountNotInitialized));
}

#[test]
fn issue_and_revoke_scenario_with_non_retroactive_removal() {
    let (a, i, s) = (key(1), key(2), key(3));
    let mut l = Ledger::new();
    initialize_issuer_registry(&mut l, InitializeIssuerRegistry { authority: a }).unwrap();
    add_verified_issuer(&mut l, AddVerifiedIssuer { authority: a }, i).unwrap();
    let r = mint_credential(
        &mut l,
        mint_ctx(i, s),
        CREDENTIAL_TYPE_DEGREE,
        "B.Sc CS".to_string(),
        "BSCCS".to_string(),
        "ipfs://uri1".to_string(),
    );
    assert_eq!(r, Ok(()));
    let mint = l.get_credential(&i, &s).unwrap().mint;
    assert!(!l.get_credential(&i, &s).unwrap().is_revoked);
    assert_eq!(l.token_balance(&mint, &s), 1);

    remove_verified_issuer(&mut l, RemoveVerifiedIssuer { authority: a }, i).unwrap();
    assert!(!l.registry.contains_issuer(&i));
    let c = l.get_credential(&i, &s).expect("record survives issuer removal");
    assert!(!c.is_revoked);
    assert_eq!(c.name, "B.Sc CS");

    let r = revoke_credential(&mut l, RevokeCredential { issuer: i, student: s, mint });
    assert_eq!(r, Ok(()));
    assert!(l.get_credential(&i, &s).unwrap().is_revoked);
    assert_eq!(l.token_balance(&mint, &s), 0);
}

#[test]
fn mint_before_initialize_fails() {
    let mut l = Ledger::new();
    let r = mint_credential(
        &mut l,
        mint_ctx(key(2), key(3)),
        0,
        "Name".to_string(),
        "SYM".to_string(),
        "uri".to_string(),
    );
    assert_eq!(r, Err(TxError::AccountNotInitialized));
}

#[test]
fn derived_addresses_are_deterministic_and_scoped() {
    let (i, s) = (key(2), key(3));
    assert_eq!(unit_address_for(i, s), unit_address_for(i, s));
    assert_ne!(unit_address_for(i, s), unit_address_for(i, key(4)));
    assert_ne!(unit_address_for(i, s), unit_address_for(key(4), s));
    let (record, _b) = derive_credential_address(i, s);
    assert_ne!(record, unit_address_for(i, s));
}
