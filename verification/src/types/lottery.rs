//! The plain lottery session: every lot counts its own wins.

use crate::address::Address;
use crate::error::{EngineError, ErrorKind};
use vstd::prelude::*;

verus! {

/// One lot of a plain lottery.
#[derive(Clone, Copy, Debug, PartialEq, Eq)]
pub struct Prize {
    pub wins: u64,
}

/// A plain lottery session.
#[derive(Clone, Debug, PartialEq, Eq)]
pub struct Lottery {
    pub owner: Address,
    pub lots: Vec<Prize>,
    /// The number of wins at which the session is fully drawn.
    pub create_box: u64,
    /// The prefix of the addresses its boxes are described under.
    pub url: String,
}

/// The wins of all lots together.
pub open spec fn wins_of(lots: Seq<Prize>) -> nat
    decreases lots.len(),
{
    if lots.len() == 0 {
        0
    } else {
        wins_of(lots.drop_last()) + lots.last().wins as nat
    }
}

impl Lottery {
    /// The session's total wins.
    pub open spec fn total_wins(&self) -> nat {
        wins_of(self.lots@)
    }

    /// Adds up the wins of all lots; an arithmetic error, naming `at`, where
    /// the total does not fit.
    pub fn count_wins(&self, at: &Address) -> (total: Result<u64, EngineError>)
        ensures
            match total {
                Ok(wins) => wins == self.total_wins(),
                Err(e) => self.total_wins() > u64::MAX && e == EngineError::arithmetic(*at),
            },
    {
        let mut wins: u64 = 0;
        let mut i: usize = 0;
        while i < self.lots.len()
            invariant
                i <= self.lots@.len(),
                wins == wins_of(self.lots@.subrange(0, i as int)),
            decreases self.lots@.len() - i,
        {
            proof {
                assert(self.lots@.subrange(0, i + 1).drop_last() =~= self.lots@.subrange(
                    0,
                    i as int,
                ));
            }
            match wins.checked_add(self.lots[i].wins) {
                Some(sum) => {
                    wins = sum;
                },
                None => {
                    proof {
                        lemma_wins_grow(self.lots@, i + 1);
                    }
                    return Err(EngineError { kind: ErrorKind::Arithmetic, address: *at });
                },
            }
            i += 1;
        }
        proof {
            assert(self.lots@.subrange(0, i as int) =~= self.lots@);
        }
        Ok(wins)
    }
}

/// A prefix of the lots never has more wins than all of them.
pub proof fn lemma_wins_grow(lots: Seq<Prize>, n: int)
    requires
        0 <= n <= lots.len(),
    ensures
        wins_of(lots.subrange(0, n)) <= wins_of(lots),
    decreases lots.len(),
{
    if n == lots.len() {
        assert(lots.subrange(0, n) =~= lots);
    } else {
        assert(lots.drop_last().subrange(0, n) =~= lots.subrange(0, n));
        lemma_wins_grow(lots.drop_last(), n);
    }
}

} // verus!
