//! Hot-or-not votes on posts, as the canisters record them.

use vstd::prelude::*;
use candid::Principal;
use std::time::Duration;
use crate::hon::HotOrNot;

verus! {

/// The outcome of a vote, with the reward where there is one.
#[derive(Clone, Copy, Debug, PartialEq, Eq, Structural)]
pub enum VoteOutcome {
    Won(u64),
    Draw(u64),
    Lost,
    AwaitingResult,
}

/// The side of a vote.
#[derive(Clone, Copy, Debug, PartialEq, Eq, Structural)]
pub enum VoteKind {
    Hot,
    Not,
}

/// The worker's side of a vote: `Hot` for `Hot`, `Not` for `Not`.
pub open spec fn hot_or_not_of(v: VoteKind) -> HotOrNot {
    match v {
        VoteKind::Hot => HotOrNot::Hot,
        VoteKind::Not => HotOrNot::Not,
    }
}

impl From<VoteKind> for HotOrNot {
    fn from(value: VoteKind) -> (r: Self) {
        match value {
            VoteKind::Hot => HotOrNot::Hot,
            VoteKind::Not => HotOrNot::Not,
        }
    }
}

impl vstd::std_specs::convert::FromSpecImpl<VoteKind> for HotOrNot {
    open spec fn obeys_from_spec() -> bool {
        true
    }

    open spec fn from_spec(v: VoteKind) -> Self {
        hot_or_not_of(v)
    }
}

/// A bet on a post, as the betting worker takes it.
#[derive(Clone, Copy, Debug)]
pub struct HonBetArg {
    pub bet_amount: u64,
    pub post_id: u64,
    pub bet_direction: VoteKind,
    pub post_canister_id: Principal,
}

/// A vote a user placed.
#[derive(Clone, Copy, Debug)]
pub struct VoteDetails {
    pub outcome: VoteOutcome,
    pub post_id: u64,
    pub canister_id: Principal,
    pub vote_kind: VoteKind,
    pub vote_amount: u64,
    pub placed_at: Duration,
    /// Hour slot of the post's life in which the vote was placed.
    pub slot_id: u8,
}

/// The duration that `Duration::from_secs` gives for `secs` seconds.
pub uninterp spec fn duration_of_secs(secs: u64) -> Duration;

/// `Duration::from_secs`: `secs` whole seconds.
#[verifier::external_body]
pub(crate) fn duration_from_secs(secs: u64) -> (r: Duration)
    ensures
        r == duration_of_secs(secs),
{
    Duration::from_secs(secs)
}

/// The seconds a vote placed in hour slot `slot` runs: its hour slots and five minutes more.
pub open spec fn vote_secs(slot: u8) -> u64 {
    (slot * 3600 + 300) as u64
}

/// The sum `Duration::checked_add` gives: `None` where it overflows.
pub uninterp spec fn duration_checked_add_of(a: Duration, b: Duration) -> Option<Duration>;

/// `Duration::checked_add`: `a + b`, or `None` where the sum overflows.
#[verifier::external_body]
fn duration_checked_add(a: Duration, b: Duration) -> (r: Option<Duration>)
    ensures
        r == duration_checked_add_of(a, b),
{
    a.checked_add(b)
}

/// The difference `Duration::saturating_sub` gives: zero where `b` exceeds `a`.
pub uninterp spec fn duration_saturating_sub_of(a: Duration, b: Duration) -> Duration;

/// `Duration::saturating_sub`: `a - b`, or zero where `b` exceeds `a`.
#[verifier::external_body]
fn duration_saturating_sub(a: Duration, b: Duration) -> (r: Duration)
    ensures
        r == duration_saturating_sub_of(a, b),
{
    a.saturating_sub(b)
}

/// The reward of an outcome: the amount won or returned, if any.
pub open spec fn outcome_reward(o: VoteOutcome) -> Option<u64> {
    match o {
        VoteOutcome::Won(w) => Some(w),
        VoteOutcome::Draw(w) => Some(w),
        VoteOutcome::Lost => None,
        VoteOutcome::AwaitingResult => None,
    }
}

impl VoteDetails {
    /// The amount the vote won or got back, if any.
    pub fn reward(&self) -> (r: Option<u64>)
        ensures
            r == outcome_reward(self.outcome),
    {
        match self.outcome {
            VoteOutcome::Won(w) => Some(w),
            VoteOutcome::Draw(w) => Some(w),
            VoteOutcome::Lost => None,
            VoteOutcome::AwaitingResult => None,
        }
    }

    /// How long the vote runs: its hour slots and five minutes more.
    pub fn vote_duration(&self) -> (r: Duration)
        ensures
            r == duration_of_secs(vote_secs(self.slot_id)),
    {
        let secs: u64 = (self.slot_id as u64) * 60 * 60 + 5 * 60;
        duration_from_secs(secs)
    }

    /// When the vote ends, as a time since the epoch: the post's creation
    /// time and the vote's duration.
    pub fn end_time(&self, post_creation_time: Duration) -> (r: Duration)
        requires
            duration_checked_add_of(post_creation_time, duration_of_secs(vote_secs(self.slot_id))) is Some,
        ensures
            duration_checked_add_of(post_creation_time, duration_of_secs(vote_secs(self.slot_id))) == Some(r),
    {
        match duration_checked_add(post_creation_time, self.vote_duration()) {
            Some(t) => t,
            None => post_creation_time,
        }
    }

    /// When the vote ends, or `None` where that time overflows a `Duration`.
    pub fn checked_end_time(&self, post_creation_time: Duration) -> (r: Option<Duration>)
        ensures
            r == duration_checked_add_of(post_creation_time, duration_of_secs(vote_secs(self.slot_id))),
    {
        let end = duration_checked_add(post_creation_time, self.vote_duration());
        match end {
            Some(_) => Some(self.end_time(post_creation_time)),
            None => None,
        }
    }

    /// How long the vote still runs at `now` (a time since the epoch): until
    /// its end time, and zero once that has passed.
    pub fn time_remaining(&self, post_creation_time: Duration, now: Duration) -> (r: Duration)
        requires
            duration_checked_add_of(post_creation_time, duration_of_secs(vote_secs(self.slot_id))) is Some,
        ensures
            r == duration_saturating_sub_of(
                duration_checked_add_of(post_creation_time, duration_of_secs(vote_secs(self.slot_id))).unwrap(),
                now,
            ),
    {
        let end = self.end_time(post_creation_time);
        duration_saturating_sub(end, now)
    }

    /// How long the vote still runs at `now`, or `None` where its end time
    /// overflows a `Duration`.
    pub fn checked_time_remaining(&self, post_creation_time: Duration, now: Duration) -> (r: Option<Duration>)
        ensures
            match duration_checked_add_of(post_creation_time, duration_of_secs(vote_secs(self.slot_id))) {
                Some(end) => r == Some(duration_saturating_sub_of(end, now)),
                None => r is None,
            },
    {
        match self.checked_end_time(post_creation_time) {
            Some(_) => Some(self.time_remaining(post_creation_time, now)),
            None => None,
        }
    }
}

} // verus!
