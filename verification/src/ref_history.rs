//! Referral history entries.

use vstd::prelude::*;
use candid::Principal;

verus! {

/// A referral reward: when it was given, to whom, and how much.
#[derive(Clone, Copy, Debug)]
pub struct HistoryDetails {
    pub epoch_secs: u64,
    pub referee: Principal,
    pub amount: u64,
}

impl HistoryDetails {
    /// The key a page of referral history is kept by: the referee.
    pub fn key(&self) -> (r: Principal)
        ensures
            r == self.referee,
    {
        self.referee
    }
}

} // verus!
