//! The issuer registry: a bounded, ordered, duplicate-free allow-list of
//! issuer identities, owned by a single authority.

use vstd::prelude::*;
use crate::keys::Pubkey;
use crate::errors::ErrorCode;

verus! {

/// Largest number of verified issuers the registry can hold.
pub const MAX_VERIFIED_ISSUERS: usize = 10;

/// The registry singleton: the owning authority and the ordered allow-list
/// of issuer identities it has verified.
#[derive(Debug)]
pub struct IssuerRegistry {
    /// Identity of the registry owner; set once at initialization.
    pub authority: Pubkey,
    /// Verified issuer identities, in insertion order, without duplicates.
    pub verified_issuers: Vec<Pubkey>,
    /// Disambiguation nonce of the registry's derived address.
    pub bump: u8,
}

impl IssuerRegistry {
    /// The registry's structural invariant: the allow-list holds no
    /// duplicate identity and never outgrows its capacity.
    pub open spec fn wf(self) -> bool {
        &&& self.verified_issuers@.no_duplicates()
        &&& self.verified_issuers@.len() <= MAX_VERIFIED_ISSUERS
    }

    /// Whether `issuer` is on the allow-list.
    pub open spec fn spec_contains(self, issuer: Pubkey) -> bool {
        self.verified_issuers@.contains(issuer)
    }

    /// A fresh registry owned by `authority`, with an empty allow-list.
    pub fn new(authority: Pubkey, bump: u8) -> (r: IssuerRegistry)
        ensures
            r.wf(),
            r.authority == authority,
            r.verified_issuers@ == Seq::<Pubkey>::empty(),
            r.bump == bump,
    {
        let r = IssuerRegistry { authority, verified_issuers: Vec::new(), bump };
        proof {
            assert(r.verified_issuers@ =~= Seq::<Pubkey>::empty());
        }
        r
    }

    /// Whether `issuer` is on the allow-list.
    pub fn contains_issuer(&self, issuer: &Pubkey) -> (b: bool)
        ensures
            b == self.spec_contains(*issuer),
    {
        let n = self.verified_issuers.len();
        let mut i: usize = 0;
        while i < n
            invariant
                n == self.verified_issuers@.len(),
                0 <= i <= n,
                forall|j: int| 0 <= j < i ==> self.verified_issuers@[j] != *issuer,
            decreases n - i,
        {
            if self.verified_issuers[i] == *issuer {
                return true;
            }
            i = i + 1;
        }
        false
    }

    /// Append `issuer` to the allow-list, unless it is already present
    /// (duplicates are refused before capacity is consulted) or the list is
    /// full. On failure the registry is unchanged.
    pub fn add_issuer(&mut self, issuer: Pubkey) -> (r: Result<(), ErrorCode>)
        requires
            old(self).wf(),
        ensures
            final(self).wf(),
            final(self).authority == old(self).authority,
            final(self).bump == old(self).bump,
            old(self).spec_contains(issuer) ==> r == Err::<(), ErrorCode>(
                ErrorCode::IssuerAlreadyExists,
            ) && *final(self) == *old(self),
            !old(self).spec_contains(issuer) && old(self).verified_issuers@.len()
                >= MAX_VERIFIED_ISSUERS ==> r == Err::<(), ErrorCode>(ErrorCode::IssuerRegistryFull)
                && *final(self) == *old(self),
            !old(self).spec_contains(issuer) && old(self).verified_issuers@.len()
                < MAX_VERIFIED_ISSUERS ==> r == Ok::<(), ErrorCode>(())
                && final(self).verified_issuers@ == old(self).verified_issuers@.push(issuer),
    {
        if self.contains_issuer(&issuer) {
            return Err(ErrorCode::IssuerAlreadyExists);
        }
        if self.verified_issuers.len() >= MAX_VERIFIED_ISSUERS {
            return Err(ErrorCode::IssuerRegistryFull);
        }
        self.verified_issuers.push(issuer);
        proof {
            let s = old(self).verified_issuers@;
            assert forall|a: int, b: int|
                0 <= a < b < s.push(issuer).len() implies s.push(issuer)[a] != s.push(issuer)[b] by {
                if b == s.len() {
                    assert(s.push(issuer)[b] == issuer);
                    assert(!s.contains(issuer));
                    assert(s.push(issuer)[a] == s[a]);
                }
            }
        }
        Ok(())
    }

    /// Remove every occurrence of `issuer` from the allow-list, keeping the
    /// order of the rest. Removing an absent issuer is a no-op, not an
    /// error.
    pub fn remove_issuer(&mut self, issuer: Pubkey)
        requires
            old(self).wf(),
        ensures
            final(self).wf(),
            final(self).authority == old(self).authority,
            final(self).bump == old(self).bump,
            final(self).verified_issuers@ == old(self).verified_issuers@.filter(
                |k: Pubkey| k != issuer,
            ),
            !final(self).spec_contains(issuer),
    {
        let ghost s = self.verified_issuers@;
        let ghost pred = |k: Pubkey| k != issuer;
        let n = self.verified_issuers.len();
        let mut kept: Vec<Pubkey> = Vec::new();
        let mut i: usize = 0;
        proof {
            reveal(Seq::filter);
            assert(s.take(0) =~= Seq::<Pubkey>::empty());
            assert(kept@ =~= s.take(0).filter(pred));
        }
        while i < n
            invariant
                n == s.len(),
                0 <= i <= n,
                self.verified_issuers@ == s,
                pred == (|k: Pubkey| k != issuer),
                kept@ == s.take(i as int).filter(pred),
            decreases n - i,
        {
            let k = self.verified_issuers[i];
            if !(k == issuer) {
                kept.push(k);
            }
            proof {
                reveal(Seq::filter);
                assert(s.take(i + 1).drop_last() =~= s.take(i as int));
                assert(s.take(i + 1).last() == s[i as int]);
                if pred(s[i as int]) {
                    assert(s.take(i + 1).filter(pred) == s.take(i as int).filter(pred).push(
                        s[i as int],
                    ));
                } else {
                    assert(s.take(i + 1).filter(pred) == s.take(i as int).filter(pred));
                }
            }
            i = i + 1;
        }
        proof {
            assert(s.take(n as int) =~= s);
            lemma_filter_preserves_no_duplicates(s, pred);
            Seq::<Pubkey>::lemma_filter_len(s, pred);
            assert forall|j: int|
                0 <= j < s.filter(pred).len() implies s.filter(pred)[j] != issuer by {
                Seq::<Pubkey>::lemma_filter_pred(s, pred, j);
            }
        }
        self.verified_issuers = kept;
    }
}

/// Every element the filter keeps was already in the sequence.
proof fn lemma_filter_subset(s: Seq<Pubkey>, pred: spec_fn(Pubkey) -> bool)
    ensures
        forall|x: Pubkey| #[trigger] s.filter(pred).contains(x) ==> s.contains(x),
    decreases s.len(),
{
    reveal(Seq::filter);
    if s.len() > 0 {
        lemma_filter_subset(s.drop_last(), pred);
        assert forall|x: Pubkey| #[trigger] s.filter(pred).contains(x) implies s.contains(x) by {
            if s.drop_last().filter(pred).contains(x) {
                let j = choose|j: int|
                    0 <= j < s.drop_last().len() && s.drop_last()[j] == x;
                assert(s[j] == x);
            } else {
                assert(pred(s.last()) && x == s.last());
                assert(s[s.len() - 1] == x);
            }
        }
    }
}

/// Keeping a subsequence through a filter introduces no duplicate.
proof fn lemma_filter_preserves_no_duplicates(s: Seq<Pubkey>, pred: spec_fn(Pubkey) -> bool)
    requires
        s.no_duplicates(),
    ensures
        s.filter(pred).no_duplicates(),
    decreases s.len(),
{
    reveal(Seq::filter);
    if s.len() > 0 {
        let d = s.drop_last();
        assert(d.no_duplicates());
        lemma_filter_preserves_no_duplicates(d, pred);
        if pred(s.last()) {
            lemma_filter_subset(d, pred);
            assert(!d.contains(s.last()));
            assert(!d.filter(pred).contains(s.last()));
            let out = d.filter(pred).push(s.last());
            assert forall|a: int, b: int|
                0 <= a < b < out.len() implies out[a] != out[b] by {
                if b == out.len() - 1 {
                    assert(d.filter(pred).contains(out[a]) == false || out[a] != s.last());
                    assert(d.filter(pred)[a] == out[a]);
                    assert(d.filter(pred).contains(out[a]));
                }
            }
        }
    }
}

} // verus!
