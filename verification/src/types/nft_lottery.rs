//! The multi-slot lottery session, and the box a lottery of either family
//! issues to a winner.

use crate::address::Address;
use crate::error::{EngineError, ErrorKind};
use vstd::prelude::*;
use vstd::utf8::encode_utf8;

verus! {

/// One lot of a multi-slot lottery: every collected slot wins `wins` times.
#[derive(Clone, Debug, PartialEq, Eq)]
pub struct Lot {
    pub wins: u64,
    pub collect: Vec<Address>,
}

/// A multi-slot lottery session.
#[derive(Clone, Debug, PartialEq, Eq)]
pub struct NftLottery {
    pub owner: Address,
    pub lots: Vec<Lot>,
    /// The number of wins at which the session is fully drawn.
    pub create_box: u64,
    /// The prefix of the addresses its boxes are described under.
    pub url: String,
    /// The items a box of this session can reveal.
    pub pictures: Vec<Address>,
}

/// What a box turns into when it is redeemed.
#[derive(Clone, Copy, Debug, PartialEq, Eq)]
pub enum BoxKind {
    /// A generic box, described by its session.
    Reveal,
    /// One particular item of its session.
    Indexed,
}

/// The record of an issued box. It is consumed once, at redemption.
#[derive(Clone, Debug, PartialEq, Eq)]
pub struct BoxData {
    /// The namespace of the family that issued the box.
    pub seed: String,
    /// The owner of the session that issued the box.
    pub owner: Address,
    /// The address of that session.
    pub storage: Address,
    /// Which item of the session the box stands for, where it is indexed.
    pub index: u32,
    pub is_box: BoxKind,
    /// The token the box was redeemed for; all zero until then.
    pub token: Address,
}

/// What the caller of a redemption claims about the box.
#[derive(Clone, Debug, PartialEq, Eq)]
pub struct BoxClaim {
    pub seed: String,
    pub owner: Address,
}

/// The arguments of a redemption.
#[derive(Clone, Debug, PartialEq, Eq)]
pub struct SaveToken {
    pub box_data: BoxClaim,
    pub metaplex: u8,
}

/// The wins of all lots together: each lot's wins, once per collected slot.
pub open spec fn slot_wins_of(lots: Seq<Lot>) -> nat
    decreases lots.len(),
{
    if lots.len() == 0 {
        0
    } else {
        slot_wins_of(lots.drop_last()) + lots.last().wins as nat * lots.last().collect@.len()
    }
}

/// A prefix of the lots never has more wins than all of them.
pub proof fn lemma_slot_wins_grow(lots: Seq<Lot>, n: int)
    requires
        0 <= n <= lots.len(),
    ensures
        slot_wins_of(lots.subrange(0, n)) <= slot_wins_of(lots),
    decreases lots.len(),
{
    if n == lots.len() {
        assert(lots.subrange(0, n) =~= lots);
    } else {
        assert(lots.drop_last().subrange(0, n) =~= lots.subrange(0, n));
        lemma_slot_wins_grow(lots.drop_last(), n);
    }
}

impl NftLottery {
    /// The session's total wins.
    pub open spec fn total_wins(&self) -> nat {
        slot_wins_of(self.lots@)
    }

    /// Adds up the wins of all lots; an arithmetic error, naming `at`, where
    /// the total does not fit.
    pub fn count_wins(&self, at: &Address) -> (total: Result<u64, EngineError>)
        ensures
            match total {
                Ok(wins) => wins == self.total_wins(),
                Err(e) => self.total_wins() > u64::MAX && e == EngineError::arithmetic(*at),
            },
    {
        let mut wins: u64 = 0;
        let mut i: usize = 0;
        while i < self.lots.len()
            invariant
                i <= self.lots@.len(),
                wins == slot_wins_of(self.lots@.subrange(0, i as int)),
            decreases self.lots@.len() - i,
        {
            proof {
                assert(self.lots@.subrange(0, i + 1).drop_last() =~= self.lots@.subrange(
                    0,
                    i as int,
                ));
                lemma_slot_wins_grow(self.lots@, i + 1);
            }
            let lot = &self.lots[i];
            let slots: u64 = lot.collect.len() as u64;
            let share = match lot.wins.checked_mul(slots) {
                Some(product) => product,
                None => {
                    return Err(EngineError { kind: ErrorKind::Arithmetic, address: *at });
                },
            };
            match wins.checked_add(share) {
                Some(sum) => {
                    wins = sum;
                },
                None => {
                    return Err(EngineError { kind: ErrorKind::Arithmetic, address: *at });
                },
            }
            i += 1;
        }
        proof {
            assert(self.lots@.subrange(0, i as int) =~= self.lots@);
        }
        Ok(wins)
    }
}

impl BoxData {
    /// The number of bytes the record occupies: the namespace with its
    /// length, three addresses, the index and the kind.
    pub open spec fn encoded_len(&self) -> nat {
        105 + encode_utf8(self.seed@).len()
    }

    /// This record, assigned to `token`.
    pub open spec fn assigned_to(&self, token: Address) -> BoxData {
        BoxData {
            seed: self.seed,
            owner: self.owner,
            storage: self.storage,
            index: self.index,
            is_box: self.is_box,
            token,
        }
    }

    /// The size of the record in bytes, where it fits.
    pub fn size(&self) -> (size: Option<u64>)
        ensures
            match size {
                Some(bytes) => bytes == self.encoded_len(),
                None => self.encoded_len() > u64::MAX,
            },
    {
        let namespace: usize = self.seed.as_str().as_bytes().len();
        (namespace as u64).checked_add(105)
    }

    /// A copy of this record, assigned to `token`.
    pub fn assign(&self, token: Address) -> (assigned: BoxData)
        ensures
            assigned == self.assigned_to(token),
    {
        BoxData {
            seed: self.seed.clone(),
            owner: self.owner,
            storage: self.storage,
            index: self.index,
            is_box: self.is_box,
            token,
        }
    }
}

} // verus!
