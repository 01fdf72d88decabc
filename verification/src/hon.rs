//! Requests and answers of the hot-or-not game worker.

use vstd::prelude::*;
use candid::{Nat, Principal};
use num_bigint::{BigInt, BigUint};
use crate::limits::REFERRAL_REWARD_SATS;

verus! {

broadcast use vstd::string::group_string_axioms;

/// Address of the staging hot-or-not worker.
pub const WORKER_URL: &'static str = "https://yral-hot-or-not-stage.go-bazzinga.workers.dev/";

/// Errors of the hot-or-not worker.
#[derive(Clone, Debug)]
pub enum WorkerError {
    InvalidSignature,
    Internal(String),
    AlreadyVotedOnPost,
    PostNotFound,
    InsufficientFunds,
    TreasuryOutOfFunds,
    TreasuryLimitReached,
    AlreadyReferred,
    InvalidAirdropDelta,
    BalanceTransactionConflict { new_balance: BigUint },
    SatsCreditLimitReached,
    SatsDeductLimitReached,
}

/// The human-readable text of a worker error.
pub open spec fn worker_error_message(e: WorkerError) -> Seq<char> {
    match e {
        WorkerError::InvalidSignature => "Invalid Signature"@,
        WorkerError::Internal(s) => "internal error: "@ + s@,
        WorkerError::AlreadyVotedOnPost => "user has already voted on this post"@,
        WorkerError::PostNotFound => "post not found"@,
        WorkerError::InsufficientFunds => "user does not have sufficient balance"@,
        WorkerError::TreasuryOutOfFunds => "treasury is out of funds"@,
        WorkerError::TreasuryLimitReached => "treasury limit reached, try again tomorrow"@,
        WorkerError::AlreadyReferred => "user was already referred"@,
        WorkerError::InvalidAirdropDelta => "specified airdropped with negative delta"@,
        WorkerError::BalanceTransactionConflict { .. } => "conflict while updating balance, retry"@,
        WorkerError::SatsCreditLimitReached => "sats credit limit reached"@,
        WorkerError::SatsDeductLimitReached => "sats deduct limit reached"@,
    }
}

impl WorkerError {
    /// The human-readable text of the error.
    pub fn message(&self) -> (r: String)
        ensures
            r@ == worker_error_message(*self),
    {
        match self {
            WorkerError::InvalidSignature => "Invalid Signature".to_string(),
            WorkerError::Internal(s) => crate::text::concat2("internal error: ", s.as_str()),
            WorkerError::AlreadyVotedOnPost => "user has already voted on this post".to_string(),
            WorkerError::PostNotFound => "post not found".to_string(),
            WorkerError::InsufficientFunds => "user does not have sufficient balance".to_string(),
            WorkerError::TreasuryOutOfFunds => "treasury is out of funds".to_string(),
            WorkerError::TreasuryLimitReached => "treasury limit reached, try again tomorrow".to_string(),
            WorkerError::AlreadyReferred => "user was already referred".to_string(),
            WorkerError::InvalidAirdropDelta => "specified airdropped with negative delta".to_string(),
            WorkerError::BalanceTransactionConflict { .. } => "conflict while updating balance, retry".to_string(),
            WorkerError::SatsCreditLimitReached => "sats credit limit reached".to_string(),
            WorkerError::SatsDeductLimitReached => "sats deduct limit reached".to_string(),
        }
    }
}

/// A user's sats balance and how much of it was airdropped.
#[derive(Clone, Debug)]
pub struct SatsBalanceInfo {
    pub balance: BigUint,
    pub airdropped: BigUint,
}

/// A user's sats balance and airdropped amount, sent as decimal strings.
#[derive(Clone, Debug)]
pub struct SatsBalanceInfoV2 {
    pub balance: BigUint,
    pub airdropped: BigUint,
}

/// The outcome of a vote for the voter.
#[derive(Clone, Debug)]
pub enum GameResult {
    Win { win_amt: BigUint },
    Loss { lose_amt: BigUint },
}

/// The outcome of a vote for the voter, with their balance after it.
#[derive(Clone, Debug)]
pub enum GameResultV2 {
    Win { win_amt: BigUint, updated_balance: BigUint },
    Loss { lose_amt: BigUint, updated_balance: BigUint },
}

/// A user's part in the game on a post.
#[derive(Clone, Debug)]
pub enum GameInfo {
    CreatorReward(BigUint),
    Vote { vote_amount: BigUint, game_result: GameResult },
}

/// A user's part in the game on a post, with balances.
#[derive(Clone, Debug)]
pub enum GameInfoV2 {
    CreatorReward(BigUint),
    Vote { vote_amount: BigUint, game_result: GameResultV2 },
}

/// The answer to a vote.
#[derive(Clone, Debug)]
pub struct VoteRes {
    pub game_result: GameResult,
}

/// The answer to a vote, with the voter's balance.
#[derive(Clone, Debug)]
pub struct VoteResV2 {
    pub game_result: GameResultV2,
}

/// A game of a user, on a post addressed by its canister.
#[derive(Clone, Debug)]
pub struct GameRes {
    pub post_canister: Principal,
    pub post_id: u64,
    pub game_info: GameInfo,
}

/// A game of a user, with balances.
#[derive(Clone, Debug)]
pub struct GameResV2 {
    pub post_canister: Principal,
    pub post_id: u64,
    pub game_info: GameInfoV2,
}

/// A game of a user, on a post addressed by its publisher.
#[derive(Clone, Debug)]
pub struct GameResV3 {
    pub publisher_principal: Principal,
    pub post_id: u64,
    pub game_info: GameInfo,
}

/// A page of a user's games and the cursor of the next page.
#[derive(Clone, Debug)]
pub struct PaginatedGamesRes {
    pub games: Vec<GameRes>,
    pub next: Option<String>,
}

/// A page of a user's games with balances.
#[derive(Clone, Debug)]
pub struct PaginatedGamesResV2 {
    pub games: Vec<GameResV2>,
    pub next: Option<String>,
}

/// A page of a user's games, addressed by publisher.
#[derive(Clone, Debug)]
pub struct PaginatedGamesResV3 {
    pub games: Vec<GameResV3>,
    pub next: Option<String>,
}

/// What a user can withdraw, or what is still missing before they can.
#[derive(Clone, Debug)]
pub enum WithdrawalState {
    Value(Nat),
    NeedMoreEarnings(Nat),
}

/// A change of a user's sats balance.
#[derive(Clone, Debug)]
pub struct SatsBalanceUpdateRequest {
    pub delta: BigInt,
    pub is_airdropped: bool,
}

/// A change of a user's sats balance, made against the balance it expects.
#[derive(Clone, Debug)]
pub struct SatsBalanceUpdateRequestV2 {
    pub previous_balance: BigUint,
    pub delta: BigInt,
    pub is_airdropped: bool,
}

/// Errors of claiming an airdrop.
#[derive(Clone, Copy, Debug, PartialEq, Eq, Structural)]
pub enum AirdropClaimError {
    InvalidSignature,
}

impl AirdropClaimError {
    /// The human-readable text of the error.
    pub fn message(&self) -> (r: &'static str)
        ensures
            r@ == "Invalid Signature"@,
    {
        match self {
            AirdropClaimError::InvalidSignature => "Invalid Signature",
        }
    }
}

/// A user's airdrop claim.
#[derive(Clone, Copy, Debug)]
pub struct ClaimRequest {
    pub user_principal: Principal,
}

/// The side of a hot-or-not vote.
#[derive(Clone, Copy, Debug, PartialEq, Eq, Structural)]
pub enum HotOrNot {
    Hot,
    Not,
}

/// A vote on a post, addressed by its canister and id.
#[derive(Clone, Copy, Debug)]
pub struct VoteRequest {
    pub post_canister: Principal,
    pub post_id: u64,
    pub vote_amount: u128,
    pub direction: HotOrNot,
}

/// A vote on a post, addressed by its publisher and id.
#[derive(Clone, Copy, Debug)]
pub struct VoteRequestV3 {
    pub publisher_principal: Principal,
    pub post_id: u64,
    pub vote_amount: u128,
    pub direction: HotOrNot,
}

/// A page request of a user's games.
#[derive(Clone, Debug)]
pub struct PaginatedGamesReq {
    pub page_size: usize,
    pub cursor: Option<String>,
}

/// The game on a post, addressed by its canister and id.
#[derive(Clone, Copy, Debug)]
pub struct GameInfoReq {
    pub post_canister: Principal,
    pub post_id: u64,
}

/// The game on a post, addressed by its publisher and id.
#[derive(Clone, Copy, Debug)]
pub struct GameInfoReqV3 {
    pub publisher_principal: Principal,
    pub post_id: u64,
}

impl From<(Principal, u64)> for GameInfoReq {
    /// The game on post `post_id` of canister `post_canister`.
    fn from(value: (Principal, u64)) -> (r: Self) {
        GameInfoReq { post_canister: value.0, post_id: value.1 }
    }
}

impl vstd::std_specs::convert::FromSpecImpl<(Principal, u64)> for GameInfoReq {
    open spec fn obeys_from_spec() -> bool {
        true
    }

    open spec fn from_spec(v: (Principal, u64)) -> Self {
        GameInfoReq { post_canister: v.0, post_id: v.1 }
    }
}

/// A withdrawal of `amount` to `receiver`.
#[derive(Clone, Copy, Debug)]
pub struct WithdrawRequest {
    pub receiver: Principal,
    pub amount: u128,
}

/// A referral that was rewarded.
#[derive(Clone, Copy, Debug)]
pub struct ReferralItem {
    pub referrer: Principal,
    pub referee: Principal,
    pub amount: u64,
    pub created_at: u64,
}

/// A request to reward a referral.
#[derive(Clone, Copy, Debug)]
pub struct ReferralReq {
    pub referrer: Principal,
    pub referee: Principal,
    pub referee_canister: Principal,
    /// Reward in sats; `default_referral_amount` where the request has none.
    pub amount: u64,
}

/// The reward of a referral where a request states none.
pub fn default_referral_amount() -> (r: u64)
    ensures
        r == REFERRAL_REWARD_SATS,
{
    REFERRAL_REWARD_SATS
}

/// A page request of a user's referrals.
#[derive(Clone, Copy, Debug)]
pub struct PaginatedReferralsReq {
    pub cursor: Option<u64>,
    pub limit: u64,
}

/// A page of a user's referrals, and the cursor of the next page.
#[derive(Clone, Debug)]
pub struct PaginatedReferralsRes {
    pub items: Vec<ReferralItem>,
    pub cursor: Option<u64>,
}

} // verus!
