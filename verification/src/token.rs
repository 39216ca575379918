//! The token service adapter: a model of the external token ledger as far
//! as the credential core relies on it. Each credential is represented by a
//! singleton token unit minted into the recipient's holding account;
//! revocation burns the unit. Minting is authorized by a signing capability
//! scoped to the credential record's address, burning by the holder.

use vstd::prelude::*;
use crate::addresses::Address;
use crate::addresses::spec_token_unit_address;
use crate::errors::TxError;
use crate::keys::Pubkey;

verus! {

/// One singleton token unit and the holding account it was minted into.
/// `amount` is 1 while the unit exists and 0 once it has been burned; the
/// holding account itself persists after the burn.
#[derive(Clone, Copy, Debug, PartialEq, Eq, Structural)]
pub struct TokenUnit {
    /// Derived address of the unit's mint.
    pub mint: Address,
    /// Owner of the holding account.
    pub holder: Pubkey,
    /// Units in the holding account: 1 before the burn, 0 after.
    pub amount: u64,
}

/// The token ledger as the core sees it: the units it has had minted, in
/// order of creation.
#[derive(Debug)]
pub struct TokenLedger {
    /// All units ever minted, one holding account each.
    pub units: Vec<TokenUnit>,
}

impl TokenLedger {
    /// Structural invariant: no two units share a mint address.
    pub open spec fn wf(self) -> bool {
        forall|i: int, j: int|
            0 <= i < j < self.units@.len() ==> (#[trigger] self.units@[i]).mint != (
            #[trigger] self.units@[j]).mint
    }

    /// Whether a unit with mint address `m` has been minted.
    pub open spec fn spec_has_unit(self, m: Address) -> bool {
        exists|i: int| 0 <= i < self.units@.len() && (#[trigger] self.units@[i]).mint == m
    }

    /// Index of the unit with mint address `m`.
    pub open spec fn spec_unit_index(self, m: Address) -> int {
        choose|i: int| 0 <= i < self.units@.len() && (#[trigger] self.units@[i]).mint == m
    }

    /// The unit with mint address `m`.
    pub open spec fn spec_unit(self, m: Address) -> TokenUnit {
        self.units@[self.spec_unit_index(m)]
    }

    /// Balance of `holder`'s account for mint address `m`: 0 if no unit
    /// was minted there, or if the unit belongs to another holder.
    pub open spec fn spec_balance(self, m: Address, holder: Pubkey) -> u64 {
        if self.spec_has_unit(m) && self.spec_unit(m).holder == holder {
            self.spec_unit(m).amount
        } else {
            0
        }
    }

    /// Whether `signing_scope` is the capability that authorizes minting
    /// at `unit_address`: the scope must be a credential record address,
    /// and the unit address must be derived from exactly that record.
    pub open spec fn spec_scope_authorizes(unit_address: Address, signing_scope: Address) -> bool {
        &&& signing_scope is Credential
        &&& unit_address == spec_token_unit_address(
            signing_scope->Credential_issuer,
            signing_scope->Credential_student,
        )
    }

    /// An empty token ledger.
    pub fn new() -> (r: TokenLedger)
        ensures
            r.wf(),
            r.units@ == Seq::<TokenUnit>::empty(),
    {
        let r = TokenLedger { units: Vec::new() };
        proof {
            assert(r.units@ =~= Seq::<TokenUnit>::empty());
        }
        r
    }

    /// Index of the unit with mint address `m`, if one was ever minted.
    fn find_unit(&self, m: &Address) -> (r: Option<usize>)
        requires
            self.wf(),
        ensures
            match r {
                Some(i) => i < self.units@.len() && self.units@[i as int].mint == *m && i
                    == self.spec_unit_index(*m),
                None => !self.spec_has_unit(*m),
            },
    {
        let n = self.units.len();
        let mut i: usize = 0;
        while i < n
            invariant
                self.wf(),
                n == self.units@.len(),
                0 <= i <= n,
                forall|j: int| 0 <= j < i ==> (#[trigger] self.units@[j]).mint != *m,
            decreases n - i,
        {
            if self.units[i].mint == *m {
                proof {
                    assert(self.spec_has_unit(*m));
                    let w = self.spec_unit_index(*m);
                    assert(self.units@[w].mint == *m);
                    assert(w == i as int);
                }
                return Some(i);
            }
            i = i + 1;
        }
        None
    }

    /// What a mint of the unit at `unit_address`, authorized by
    /// `signing_scope`, returns against this ledger: minting needs the
    /// capability scoped to the owning credential record, and exclusive
    /// creation of the unit address.
    pub open spec fn spec_mint_decision(
        self,
        unit_address: Address,
        signing_scope: Address,
    ) -> Result<(), TxError> {
        if !TokenLedger::spec_scope_authorizes(unit_address, signing_scope) {
            Err(TxError::Unauthorized)
        } else if self.spec_has_unit(unit_address) {
            Err(TxError::AccountAlreadyInUse)
        } else {
            Ok(())
        }
    }

    /// Mint the singleton unit at `unit_address` into a fresh holding
    /// account owned by `destination_holder`. Requires the capability
    /// scoped to the owning credential record; fails if the unit address
    /// is already occupied. On failure the ledger is unchanged.
    pub fn mint_one(
        &mut self,
        unit_address: Address,
        destination_holder: Pubkey,
        signing_scope: Address,
    ) -> (r: Result<(), TxError>)
        requires
            old(self).wf(),
        ensures
            final(self).wf(),
            r == old(self).spec_mint_decision(unit_address, signing_scope),
            r is Err ==> *final(self) == *old(self),
            r is Ok ==> final(self).units@ == old(self).units@.push(
                (TokenUnit { mint: unit_address, holder: destination_holder, amount: 1 }),
            ),
    {
        let scope_ok = match signing_scope {
            Address::Credential { issuer, student } => {
                let (derived, _bump) = crate::addresses::derive_token_unit_address(signing_scope);
                derived == unit_address
            },
            _ => false,
        };
        if !scope_ok {
            return Err(TxError::Unauthorized);
        }
        if self.find_unit(&unit_address).is_some() {
            return Err(TxError::AccountAlreadyInUse);
        }
        let unit = TokenUnit { mint: unit_address, holder: destination_holder, amount: 1 };
        self.units.push(unit);
        proof {
            let s = old(self).units@;
            assert forall|i: int, j: int|
                0 <= i < j < self.units@.len() implies (#[trigger] self.units@[i]).mint != (
            #[trigger] self.units@[j]).mint by {
                if j == s.len() {
                    assert(!old(self).spec_has_unit(unit_address));
                    assert(self.units@[i] == s[i]);
                }
            }
        }
        Ok(())
    }

    /// What a burn of the unit at `unit_address` out of `source_holder`'s
    /// account, authorized by `authorizing_party`, returns against this
    /// ledger: the unit must exist, the account must belong to the named
    /// holder, only the holder may authorize the burn, and the account must
    /// still hold the unit.
    pub open spec fn spec_burn_decision(
        self,
        unit_address: Address,
        source_holder: Pubkey,
        authorizing_party: Pubkey,
    ) -> Result<(), TxError> {
        if !self.spec_has_unit(unit_address) {
            Err(TxError::AccountNotInitialized)
        } else if self.spec_unit(unit_address).holder != source_holder {
            Err(TxError::ConstraintViolation)
        } else if authorizing_party != source_holder {
            Err(TxError::Unauthorized)
        } else if self.spec_unit(unit_address).amount == 0 {
            Err(TxError::InsufficientUnitBalance)
        } else {
            Ok(())
        }
    }

    /// Burn the unit at `unit_address` out of `source_holder`'s account.
    /// Burning is authorized by the holder of the account, not by the
    /// issuer: `authorizing_party` must be the holder. The holding account
    /// persists with balance 0, so a second burn fails. On failure the
    /// ledger is unchanged.
    pub fn burn_one(
        &mut self,
        unit_address: &Address,
        source_holder: &Pubkey,
        authorizing_party: &Pubkey,
    ) -> (r: Result<(), TxError>)
        requires
            old(self).wf(),
        ensures
            final(self).wf(),
            r == old(self).spec_burn_decision(*unit_address, *source_holder, *authorizing_party),
            r is Err ==> *final(self) == *old(self),
            r is Ok ==> final(self).units@ == old(self).units@.update(
                old(self).spec_unit_index(*unit_address),
                (TokenUnit { amount: 0, ..old(self).spec_unit(*unit_address) }),
            ),
    {
        let found = self.find_unit(unit_address);
        match found {
            None => Err(TxError::AccountNotInitialized),
            Some(i) => {
                if !(self.units[i].holder == *source_holder) {
                    return Err(TxError::ConstraintViolation);
                }
                if !(*authorizing_party == *source_holder) {
                    return Err(TxError::Unauthorized);
                }
                if self.units[i].amount == 0 {
                    return Err(TxError::InsufficientUnitBalance);
                }
                let u = &mut self.units[i];
                u.amount = 0;
                Ok(())
            },
        }
    }

    /// Balance of `holder`'s account for mint address `m`.
    pub fn balance_of(&self, m: &Address, holder: &Pubkey) -> (r: u64)
        requires
            self.wf(),
        ensures
            r == self.spec_balance(*m, *holder),
    {
        match self.find_unit(m) {
            None => 0,
            Some(i) => {
                if self.units[i].holder == *holder {
                    self.units[i].amount
                } else {
                    0
                }
            },
        }
    }
}

} // verus!
