use vstd::prelude::*;
use vstd::hash_map::StringHashMap;

verus! {

/// The nonce recorded for `who` in `m`; accounts never seen report 0.
pub open spec fn nonce_in(m: Map<Seq<char>, u32>, who: Seq<char>) -> u32 {
    if m.dom().contains(who) {
        m[who]
    } else {
        0
    }
}

/// Account bookkeeping: the current block height and one sequence number
/// ("nonce") per account.
pub struct Pallet {
    pub block_number: u32,
    pub nonce: StringHashMap<u32>,
}

impl Pallet {
    /// The nonce this pallet reports for `who`.
    pub open spec fn nonce_of(self, who: Seq<char>) -> u32 {
        nonce_in(self.nonce@, who)
    }

    pub fn new() -> (p: Self)
        ensures
            p.block_number == 0,
            p.nonce@ == Map::<Seq<char>, u32>::empty(),
    {
        Pallet { block_number: 0, nonce: StringHashMap::new() }
    }

    pub fn block_number(&self) -> (n: u32)
        ensures
            n == self.block_number,
    {
        self.block_number
    }

    /// Advance the block height by exactly one. Nonces are untouched.
    pub fn inc_block_number(&mut self)
        requires
            old(self).block_number < u32::MAX,
        ensures
            final(self).block_number == old(self).block_number + 1,
            final(self).nonce == old(self).nonce,
    {
        self.block_number = self.block_number + 1;
    }

    pub fn nonce(&self, who: &String) -> (n: u32)
        ensures
            n == self.nonce_of(who@),
    {
        match self.nonce.get(who.as_str()) {
            Some(n) => *n,
            None => 0,
        }
    }

    /// Raise `who`'s nonce by exactly one, recording 1 for an account never
    /// seen before. The block height and all other nonces are untouched.
    pub fn inc_nonce(&mut self, who: &String)
        requires
            old(self).nonce_of(who@) < u32::MAX,
        ensures
            final(self).block_number == old(self).block_number,
            final(self).nonce@ == old(self).nonce@.insert(
                who@,
                (old(self).nonce_of(who@) + 1) as u32,
            ),
    {
        let n = self.nonce(who);
        self.nonce.insert(who.clone(), n + 1);
    }
}

} // verus!
