//! Games of the pump-or-dump worker.

use vstd::prelude::*;
use candid::{Nat, Principal};

verus! {

/// The side a player takes in a pump-or-dump game.
#[derive(Clone, Copy, Debug, PartialEq, Eq, Structural)]
pub enum GameDirection {
    Pump,
    Dump,
}

/// What a player can withdraw, or what is still missing before they can.
#[derive(Clone, Debug)]
pub enum WithdrawalState {
    Value(Nat),
    NeedMoreEarnings(Nat),
}

/// A user's bets in a game.
#[derive(Clone, Copy, Debug)]
pub struct UserBetsResponse {
    pub pumps: u64,
    pub dumps: u64,
}

/// A finished game as the user's canister records it.
#[derive(Clone, Debug)]
pub struct ParticipatedGameInfo {
    pub game_direction: GameDirection,
    pub reward: Nat,
    pub pumps: u64,
    pub dumps: u64,
    pub token_root: Principal,
}

/// A finished game as the worker reports it.
#[derive(Clone, Debug)]
pub struct CompletedGameInfo {
    pub pumps: u64,
    pub dumps: u64,
    pub reward: Nat,
    pub token_root: Principal,
    pub outcome: GameDirection,
}

/// A user's balances in the game.
#[derive(Clone, Debug)]
pub struct BalanceInfoResponse {
    pub net_airdrop_reward: Nat,
    pub balance: Nat,
    pub withdrawable: Nat,
}

/// The participated form of a completed game: the outcome is the direction.
pub open spec fn participated_of(v: CompletedGameInfo) -> ParticipatedGameInfo {
    ParticipatedGameInfo {
        game_direction: v.outcome,
        reward: v.reward,
        pumps: v.pumps,
        dumps: v.dumps,
        token_root: v.token_root,
    }
}

/// The completed form of a participated game: the direction is the outcome.
pub open spec fn completed_of(v: ParticipatedGameInfo) -> CompletedGameInfo {
    CompletedGameInfo {
        pumps: v.pumps,
        dumps: v.dumps,
        reward: v.reward,
        token_root: v.token_root,
        outcome: v.game_direction,
    }
}

impl From<CompletedGameInfo> for ParticipatedGameInfo {
    fn from(value: CompletedGameInfo) -> (r: Self) {
        ParticipatedGameInfo {
            pumps: value.pumps,
            dumps: value.dumps,
            reward: value.reward,
            token_root: value.token_root,
            game_direction: value.outcome,
        }
    }
}

impl vstd::std_specs::convert::FromSpecImpl<CompletedGameInfo> for ParticipatedGameInfo {
    open spec fn obeys_from_spec() -> bool {
        true
    }

    open spec fn from_spec(v: CompletedGameInfo) -> Self {
        participated_of(v)
    }
}

impl From<ParticipatedGameInfo> for CompletedGameInfo {
    fn from(value: ParticipatedGameInfo) -> (r: Self) {
        CompletedGameInfo {
            pumps: value.pumps,
            dumps: value.dumps,
            reward: value.reward,
            token_root: value.token_root,
            outcome: value.game_direction,
        }
    }
}

impl vstd::std_specs::convert::FromSpecImpl<ParticipatedGameInfo> for CompletedGameInfo {
    open spec fn obeys_from_spec() -> bool {
        true
    }

    open spec fn from_spec(v: ParticipatedGameInfo) -> Self {
        completed_of(v)
    }
}

/// Converting a completed game to its participated form and back gives the
/// same game, and so does the converse round trip.
pub proof fn lemma_game_info_round_trip(c: CompletedGameInfo, p: ParticipatedGameInfo)
    ensures
        completed_of(participated_of(c)) == c,
        participated_of(completed_of(p)) == p,
{
}

/// A game that was not yet committed to the user's canister.
#[derive(Clone, Debug)]
pub enum UncommittedGameInfo {
    Completed(CompletedGameInfo),
    Pending { token_root: Principal },
}

impl UncommittedGameInfo {
    /// The game's token root, whatever its state.
    pub fn token_root(&self) -> (r: Principal)
        ensures
            r == match self {
                UncommittedGameInfo::Completed(info) => info.token_root,
                UncommittedGameInfo::Pending { token_root } => *token_root,
            },
    {
        match self {
            UncommittedGameInfo::Completed(info) => info.token_root,
            UncommittedGameInfo::Pending { token_root } => *token_root,
        }
    }
}

} // verus!
