//! The platform state the core operates on: the registry singleton, the
//! credential records keyed by their derived addresses, and the token
//! ledger. Records are held in creation order; the uniqueness of derived
//! addresses is the store's insert-if-absent discipline.

use vstd::prelude::*;
use crate::addresses::spec_token_unit_address;
use crate::addresses::Address;
use crate::credential::CredentialMint;
use crate::keys::Pubkey;
use crate::registry::IssuerRegistry;
use crate::token::TokenLedger;

verus! {

/// All state the credential core reads and writes: the registry singleton
/// (present once initialized), every credential record ever minted, and
/// the token ledger. The i-th token unit is the one bound to the i-th
/// credential record.
#[derive(Debug)]
pub struct Ledger {
    /// Whether the registry singleton's derived address holds a record.
    pub registry_created: bool,
    /// The registry singleton; meaningful once `registry_created`.
    pub registry: IssuerRegistry,
    /// Credential records, in creation order, unique per (issuer, student).
    pub credentials: Vec<CredentialMint>,
    /// The token ledger; unit i is bound to credential record i.
    pub tokens: TokenLedger,
}

impl Ledger {
    /// The ledger's invariant: a well-formed registry once created, no
    /// record before initialization, well-formed records at pairwise
    /// distinct derived addresses, and one token unit per record, held by
    /// the record's student, with balance 1 exactly until revocation.
    pub open spec fn wf(self) -> bool {
        &&& (self.registry_created ==> self.registry.wf())
        &&& (!self.registry_created ==> self.credentials@.len() == 0)
        &&& (forall|i: int|
            0 <= i < self.credentials@.len() ==> (#[trigger] self.credentials@[i]).wf())
        &&& (forall|i: int, j: int|
            #![trigger self.credentials@[i], self.credentials@[j]]
            0 <= i < j < self.credentials@.len() ==> !(self.credentials@[i].issuer
                == self.credentials@[j].issuer && self.credentials@[i].student
                == self.credentials@[j].student))
        &&& self.tokens.units@.len() == self.credentials@.len()
        &&& (forall|i: int|
            #![trigger self.credentials@[i]]
            #![trigger self.tokens.units@[i]]
            0 <= i < self.credentials@.len() ==> self.tokens.units@[i].mint
                == self.credentials@[i].mint && self.tokens.units@[i].holder
                == self.credentials@[i].student && self.tokens.units@[i].amount == (
            if self.credentials@[i].is_revoked {
                0u64
            } else {
                1u64
            }))
    }

    /// Whether a credential record exists for the (issuer, student) pair.
    pub open spec fn spec_has_credential(self, issuer: Pubkey, student: Pubkey) -> bool {
        exists|i: int|
            0 <= i < self.credentials@.len() && (#[trigger] self.credentials@[i]).has_key(
                issuer,
                student,
            )
    }

    /// Index of the credential record for the (issuer, student) pair.
    pub open spec fn spec_credential_index(self, issuer: Pubkey, student: Pubkey) -> int {
        choose|i: int|
            0 <= i < self.credentials@.len() && (#[trigger] self.credentials@[i]).has_key(
                issuer,
                student,
            )
    }

    /// The credential record for the (issuer, student) pair.
    pub open spec fn spec_credential(self, issuer: Pubkey, student: Pubkey) -> CredentialMint {
        self.credentials@[self.spec_credential_index(issuer, student)]
    }

    /// An empty ledger: no registry, no records, no token units.
    pub fn new() -> (r: Ledger)
        ensures
            r.wf(),
            !r.registry_created,
            r.credentials@ == Seq::<CredentialMint>::empty(),
            r.tokens.units@ == Seq::<crate::token::TokenUnit>::empty(),
    {
        let r = Ledger {
            registry_created: false,
            registry: IssuerRegistry::new(Pubkey::new(0, 0, 0, 0), 0),
            credentials: Vec::new(),
            tokens: TokenLedger::new(),
        };
        proof {
            assert(r.credentials@ =~= Seq::<CredentialMint>::empty());
        }
        r
    }

    /// A well-formed ledger's token ledger is itself well-formed: distinct
    /// records sit at distinct derived addresses, so their units have
    /// distinct mint addresses.
    pub proof fn lemma_tokens_wf(self)
        requires
            self.wf(),
        ensures
            self.tokens.wf(),
    {
        assert forall|i: int, j: int|
            0 <= i < j < self.tokens.units@.len() implies (#[trigger] self.tokens.units@[i]).mint
            != (#[trigger] self.tokens.units@[j]).mint by {
            let ci = self.credentials@[i];
            let cj = self.credentials@[j];
            assert(self.tokens.units@[i].mint == spec_token_unit_address(ci.issuer, ci.student));
            assert(self.tokens.units@[j].mint == spec_token_unit_address(cj.issuer, cj.student));
        }
    }

    /// Index of the credential record for the pair, if one exists.
    pub(crate) fn find_credential(&self, issuer: &Pubkey, student: &Pubkey) -> (r: Option<usize>)
        requires
            self.wf(),
        ensures
            match r {
                Some(i) => i < self.credentials@.len() && self.credentials@[i as int].has_key(
                    *issuer,
                    *student,
                ) && i == self.spec_credential_index(*issuer, *student),
                None => !self.spec_has_credential(*issuer, *student),
            },
    {
        let n = self.credentials.len();
        let mut i: usize = 0;
        while i < n
            invariant
                self.wf(),
                n == self.credentials@.len(),
                0 <= i <= n,
                forall|j: int|
                    0 <= j < i ==> !(#[trigger] self.credentials@[j]).has_key(*issuer, *student),
            decreases n - i,
        {
            if self.credentials[i].issuer == *issuer && self.credentials[i].student == *student {
                proof {
                    assert(self.credentials@[i as int].has_key(*issuer, *student));
                    let w = self.spec_credential_index(*issuer, *student);
                    assert(self.credentials@[w].has_key(*issuer, *student));
                    assert(w == i as int);
                }
                return Some(i);
            }
            i = i + 1;
        }
        None
    }

    /// Read the credential record for the (issuer, student) pair, if one
    /// exists. Records stay readable after the issuer leaves the registry
    /// and after revocation.
    pub fn get_credential(&self, issuer: &Pubkey, student: &Pubkey) -> (r: Option<
        &CredentialMint,
    >)
        requires
            self.wf(),
        ensures
            match r {
                Some(c) => self.spec_has_credential(*issuer, *student) && *c
                    == self.spec_credential(*issuer, *student),
                None => !self.spec_has_credential(*issuer, *student),
            },
    {
        match self.find_credential(issuer, student) {
            Some(i) => Some(&self.credentials[i]),
            None => None,
        }
    }

    /// Balance of `holder`'s account for the token mint at `unit_address`.
    pub fn token_balance(&self, unit_address: &Address, holder: &Pubkey) -> (r: u64)
        requires
            self.wf(),
        ensures
            r == self.tokens.spec_balance(*unit_address, *holder),
    {
        proof {
            self.lemma_tokens_wf();
        }
        self.tokens.balance_of(unit_address, holder)
    }
}

} // verus!
