//! The account ledger module: tracks the current block number and a
//! per-account nonce. It exposes no dispatchable calls; the runtime's
//! block executor drives it directly.

use crate::str_map::StrMap;
use vstd::prelude::*;

verus! {

/// The nonce an account holds in `m`; accounts never seen stand at 0.
pub open spec fn nonce_in(m: Map<Seq<char>, nat>, who: Seq<char>) -> nat {
    if m.contains_key(who) {
        m[who]
    } else {
        0
    }
}

/// The account ledger: how many blocks have been executed, and how many
/// operations each account has successfully issued.
#[derive(Debug)]
pub struct System {
    block_number: u32,
    nonce: StrMap<u32>,
}

impl System {
    /// The current block number.
    pub closed spec fn spec_block_number(&self) -> u32 {
        self.block_number
    }

    /// The per-account nonces, as unbounded counters.
    pub closed spec fn nonces(&self) -> Map<Seq<char>, nat> {
        Map::new(
            |k: Seq<char>| self.nonce@.contains_key(k),
            |k: Seq<char>| self.nonce@[k] as nat,
        )
    }

    /// The nonce of `who`; accounts never seen stand at 0.
    pub open spec fn spec_nonce(&self, who: Seq<char>) -> nat {
        nonce_in(self.nonces(), who)
    }

    /// A fresh ledger: no blocks executed, every nonce at 0.
    pub fn new() -> (r: Self)
        ensures
            r.spec_block_number() == 0,
            r.nonces() == Map::<Seq<char>, nat>::empty(),
    {
        let r = System { block_number: 0, nonce: StrMap::new() };
        proof {
            assert(r.nonces() =~= Map::<Seq<char>, nat>::empty());
        }
        r
    }

    /// Read the current block number, without side effect.
    pub fn block_number(&self) -> (r: u32)
        ensures
            r == self.spec_block_number(),
    {
        self.block_number
    }

    /// Advance the block counter by exactly 1.
    pub fn inc_block_nubmer(&mut self)
        requires
            old(self).spec_block_number() < u32::MAX,
        ensures
            final(self).spec_block_number() == old(self).spec_block_number() + 1,
            final(self).nonces() == old(self).nonces(),
    {
        self.block_number = self.block_number + 1;
        proof {
            assert(self.nonces() =~= old(self).nonces());
        }
    }

    /// Set the nonce of `who` to (current nonce, 0 if unseen) + 1.
    pub fn inc_nonce(&mut self, who: String)
        requires
            old(self).spec_nonce(who@) < u32::MAX,
        ensures
            final(self).nonces() == old(self).nonces().insert(
                who@,
                old(self).spec_nonce(who@) + 1,
            ),
            final(self).spec_block_number() == old(self).spec_block_number(),
    {
        let current: u32 = match self.nonce.get(&who) {
            Some(v) => *v,
            None => 0,
        };
        self.nonce.insert(who, current + 1);
        proof {
            assert(self.nonces() =~= old(self).nonces().insert(
                who@,
                old(self).spec_nonce(who@) + 1,
            ));
        }
    }

    /// Read the nonce of `who`; accounts never seen stand at 0.
    pub fn nonce(&self, who: &String) -> (r: u32)
        ensures
            r == self.spec_nonce(who@),
    {
        match self.nonce.get(who) {
            Some(v) => *v,
            None => 0,
        }
    }
}

} // verus!
