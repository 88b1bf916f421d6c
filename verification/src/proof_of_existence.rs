//! The claim registry module: maps claims (opaque content identifiers)
//! to the account that owns them, and exposes create/revoke with
//! ownership checks.

use crate::str_map::StrMap;
use crate::support::{Dispatch, DispatchResult, ErrorKind};
use vstd::prelude::*;

verus! {

/// What creating `claim` for `caller` does to the registry `m`: it
/// fails with `ClaimAlreadyExists` if the claim is registered (by
/// anyone), and otherwise records `caller` as owner. A failed create
/// changes nothing.
pub open spec fn spec_create_claim(
    m: Map<Seq<char>, Seq<char>>,
    caller: Seq<char>,
    claim: Seq<char>,
) -> Result<Map<Seq<char>, Seq<char>>, ErrorKind> {
    if m.contains_key(claim) {
        Err(ErrorKind::ClaimAlreadyExists)
    } else {
        Ok(m.insert(claim, caller))
    }
}

/// What revoking `claim` by `caller` does to the registry `m`: it fails
/// with `ClaimNotFound` if the claim is unregistered, then with
/// `NotClaimOwner` if the registered owner differs from `caller`, and
/// otherwise removes the claim. A failed revoke changes nothing.
pub open spec fn spec_revoke_claim(
    m: Map<Seq<char>, Seq<char>>,
    caller: Seq<char>,
    claim: Seq<char>,
) -> Result<Map<Seq<char>, Seq<char>>, ErrorKind> {
    if !m.contains_key(claim) {
        Err(ErrorKind::ClaimNotFound)
    } else if m[claim] != caller {
        Err(ErrorKind::NotClaimOwner)
    } else {
        Ok(m.remove(claim))
    }
}

/// Operations the claim registry accepts through dispatch.
pub enum Call {
    CreateClaim { claim: String },
    RevokeClaim { claim: String },
}

/// The claim registry: maps each registered claim to its owning account.
/// A claim maps to at most one owner at a time.
#[derive(Debug)]
pub struct Proof {
    claims: StrMap<String>,
}

impl Proof {
    /// The registered claims and their owners.
    pub closed spec fn claims(&self) -> Map<Seq<char>, Seq<char>> {
        Map::new(
            |k: Seq<char>| self.claims@.contains_key(k),
            |k: Seq<char>| self.claims@[k]@,
        )
    }

    /// An empty registry: no claim registered.
    pub fn new() -> (r: Self)
        ensures
            r.claims() == Map::<Seq<char>, Seq<char>>::empty(),
    {
        let r = Proof { claims: StrMap::new() };
        proof {
            assert(r.claims() =~= Map::<Seq<char>, Seq<char>>::empty());
        }
        r
    }

    /// The owner of `claim`, if it is registered.
    fn get_claim(&self, claim: &String) -> (r: Option<&String>)
        ensures
            match r {
                Some(owner) => self.claims().contains_key(claim@) && owner@ == self.claims()[
                    claim@
                ],
                None => !self.claims().contains_key(claim@),
            },
    {
        self.claims.get(claim)
    }

    /// Register `claim` with `caller` as owner, exactly as
    /// `spec_create_claim` says.
    pub fn create_claim(&mut self, caller: String, claim: String) -> (r: DispatchResult)
        ensures
            match spec_create_claim(old(self).claims(), caller@, claim@) {
                Ok(m) => r is Ok && final(self).claims() == m,
                Err(e) => r == Err::<(), ErrorKind>(e) && final(self).claims() == old(
                    self,
                ).claims(),
            },
    {
        if self.claims.contains_key(&claim) {
            return Err(ErrorKind::ClaimAlreadyExists);
        }
        let ghost caller_chars = caller@;
        let ghost claim_chars = claim@;
        self.claims.insert(claim, caller);
        proof {
            assert(self.claims() =~= old(self).claims().insert(claim_chars, caller_chars));
        }
        Ok(())
    }

    /// Remove `claim` on behalf of `caller`, exactly as
    /// `spec_revoke_claim` says: only the registered owner may revoke.
    pub fn revoke_claim(&mut self, caller: String, claim: String) -> (r: DispatchResult)
        ensures
            match spec_revoke_claim(old(self).claims(), caller@, claim@) {
                Ok(m) => r is Ok && final(self).claims() == m,
                Err(e) => r == Err::<(), ErrorKind>(e) && final(self).claims() == old(
                    self,
                ).claims(),
            },
    {
        let owned = match self.get_claim(&claim) {
            Some(owner) => *owner == caller,
            None => {
                return Err(ErrorKind::ClaimNotFound);
            },
        };
        if owned {
            self.claims.remove(&claim);
            proof {
                assert(self.claims() =~= old(self).claims().remove(claim@));
            }
            Ok(())
        } else {
            Err(ErrorKind::NotClaimOwner)
        }
    }
}

impl Dispatch for Proof {
    type Caller = String;

    type Call = Call;

    fn dispatch(&mut self, caller: String, call: Call) -> (r: DispatchResult)
        ensures
            match call {
                Call::CreateClaim { claim } => match spec_create_claim(
                    old(self).claims(),
                    caller@,
                    claim@,
                ) {
                    Ok(m) => r is Ok && final(self).claims() == m,
                    Err(e) => r == Err::<(), ErrorKind>(e) && final(self).claims() == old(
                        self,
                    ).claims(),
                },
                Call::RevokeClaim { claim } => match spec_revoke_claim(
                    old(self).claims(),
                    caller@,
                    claim@,
                ) {
                    Ok(m) => r is Ok && final(self).claims() == m,
                    Err(e) => r == Err::<(), ErrorKind>(e) && final(self).claims() == old(
                        self,
                    ).claims(),
                },
            },
    {
        match call {
            Call::CreateClaim { claim } => self.create_claim(caller, claim),
            Call::RevokeClaim { claim } => self.revoke_claim(caller, claim),
        }
    }
}

} // verus!
