use std::time::Duration;

use candid::{Nat, Principal};
use yral_common::games_pager::{GamesApi, GamesPager};
use num_bigint::BigUint;
use yral_common::hon::{WorkerError, 
    default_referral_amount, AirdropClaimError, GameInfoReq, HotOrNot, PaginatedGamesReq, PaginatedReferralsReq,
    WORKER_URL,
};
use yral_common::profile::{propic_from_principal, CanisterUserProfile, ProfileDetails, ServiceUserProfile};
use yral_common::pump_dump::{CompletedGameInfo, GameDirection, ParticipatedGameInfo, UncommittedGameInfo, UserBetsResponse};
use yral_common::token_info::TokenListItemFS;
use yral_common::vote::{VoteDetails, VoteKind, VoteOutcome};

#[test]
fn referral_default_and_requests() {
    assert_eq!(default_referral_amount(), 5);
    assert_eq!(AirdropClaimError::InvalidSignature.message(), "Invalid Signature");
    assert!(WORKER_URL.starts_with("https://"));
    let req = GameInfoReq::from((Principal::anonymous(), 42));
    assert_eq!(req.post_id, 42);
    assert_eq!(req.post_canister, Principal::anonymous());
    let page = PaginatedGamesReq { page_size: 10, cursor: None };
    assert_eq!(page.page_size, 10);
    let referrals = PaginatedReferralsReq { cursor: Some(3), limit: 20 };
    assert_eq!(referrals.cursor, Some(3));
}

#[test]
fn vote_kinds_map_to_sides() {
    assert_eq!(HotOrNot::from(VoteKind::Hot), HotOrNot::Hot);
    assert_eq!(HotOrNot::from(VoteKind::Not), HotOrNot::Not);
}

fn details(outcome: VoteOutcome, slot_id: u8) -> VoteDetails {
    VoteDetails {
        outcome,
        post_id: 1,
        canister_id: Principal::anonymous(),
        vote_kind: VoteKind::Hot,
        vote_amount: 10,
        placed_at: Duration::from_secs(0),
        slot_id,
    }
}

#[test]
fn vote_rewards_and_durations() {
    assert_eq!(details(VoteOutcome::Won(20), 1).reward(), Some(20));
    assert_eq!(details(VoteOutcome::Draw(10), 1).reward(), Some(10));
    assert_eq!(details(VoteOutcome::Lost, 1).reward(), None);
    assert_eq!(details(VoteOutcome::AwaitingResult, 1).reward(), None);
    assert_eq!(details(VoteOutcome::Lost, 0).vote_duration(), Duration::from_secs(300));
    assert_eq!(details(VoteOutcome::Lost, 2).vote_duration(), Duration::from_secs(7500));
    assert_eq!(details(VoteOutcome::Lost, 255).vote_duration(), Duration::from_secs(255 * 3600 + 300));
}

#[test]
fn game_info_round_trips() {
    let completed = CompletedGameInfo {
        pumps: 3,
        dumps: 4,
        reward: Nat::from(99u64),
        token_root: Principal::anonymous(),
        outcome: GameDirection::Dump,
    };
    let participated = ParticipatedGameInfo::from(completed.clone());
    assert_eq!(participated.game_direction, GameDirection::Dump);
    assert_eq!(participated.pumps, 3);
    assert_eq!(participated.reward, Nat::from(99u64));
    let back = CompletedGameInfo::from(participated);
    assert_eq!(back.outcome, completed.outcome);
    assert_eq!(back.dumps, completed.dumps);
    assert_eq!(back.reward, completed.reward);
    let pending = UncommittedGameInfo::Pending { token_root: Principal::management_canister() };
    assert_eq!(pending.token_root(), Principal::management_canister());
    assert_eq!(UncommittedGameInfo::Completed(completed).token_root(), Principal::anonymous());
    let bets = UserBetsResponse { pumps: 1, dumps: 2 };
    assert_eq!(bets.pumps + bets.dumps, 3);
}

#[test]
fn generated_profile_pictures() {
    let url = propic_from_principal(Principal::anonymous());
    assert_eq!(url, "https://imagedelivery.net/abXI9nS4DYYtyR1yFFtziA/gob.18270/public");
    let other = Principal::from_slice(&[0, 0, 0, 0, 0, 0, 0, 1, 1, 1]);
    assert_eq!(propic_from_principal(other), "https://imagedelivery.net/abXI9nS4DYYtyR1yFFtziA/gob.8150/public");
}

#[test]
fn profiles() {
    let user = CanisterUserProfile {
        principal_id: Principal::anonymous(),
        display_name: Some("Ann".to_string()),
        profile_picture_url: Some(String::new()),
        followers_count: 1,
        following_count: 2,
        lifetime_earnings: 3,
        hot_bets_received: 4,
        not_bets_received: 5,
    };
    let p = ProfileDetails::from_canister(Principal::management_canister(), Some(String::new()), user);
    assert_eq!(p.username, None);
    assert_eq!(p.hots, 4);
    assert_eq!(p.nots, 5);
    assert_eq!(p.user_canister, Principal::management_canister());
    assert_eq!(p.principal(), "2vxsx-fae");
    assert_eq!(p.username_or_principal(), "2vxsx-fae");
    assert_eq!(p.profile_pic_or_random(), propic_from_principal(Principal::anonymous()));

    let s = ProfileDetails::from_service_canister(
        Principal::anonymous(),
        Some("ann".to_string()),
        ServiceUserProfile { profile_picture_url: Some("https://pic".to_string()) },
    );
    assert_eq!(s.username.as_deref(), Some("ann"));
    assert_eq!(s.display_name.as_deref(), Some("ann"));
    assert_eq!(s.username_or_principal(), "ann");
    assert_eq!(s.profile_pic_or_random(), "https://pic");
    assert_eq!(s.followers_cnt, 0);
}

#[test]
fn token_listing_item() {
    let t = TokenListItemFS {
        user_id: "u".to_string(),
        name: "n".to_string(),
        token_name: "tn".to_string(),
        token_symbol: "TS".to_string(),
        logo: "l".to_string(),
        description: "d".to_string(),
        created_at: "now".to_string(),
        link: String::new(),
    };
    assert!(t.link.is_empty());
}

#[test]
fn games_pager_follows_cursors() {
    let mut pager = GamesPager::new(Principal::anonymous(), GamesApi::V3);
    assert_eq!(pager.games_path(), "/v3/games/2vxsx-fae");
    let first = pager.page_request(0, 10);
    assert_eq!(first.page_size, 10);
    assert_eq!(first.cursor, None);
    assert!(!pager.record_page(Some("c1".to_string())));
    let second = pager.page_request(10, 25);
    assert_eq!(second.page_size, 15);
    assert_eq!(second.cursor.as_deref(), Some("c1"));
    assert!(pager.record_page(None));
    assert_eq!(GamesPager::new(Principal::anonymous(), GamesApi::V1).games_path(), "/games/2vxsx-fae");
    assert_eq!(GamesPager::new(Principal::anonymous(), GamesApi::V4).games_path(), "/v4/games/2vxsx-fae");
}

#[test]
fn session_expires_at_the_earliest_delegation() {
    assert_eq!(yral_common::session::delegation_expiry(&vec![]), u64::MAX);
    assert_eq!(yral_common::session::delegation_expiry(&vec![30, 10, 20]), 10);
    assert_eq!(yral_common::session::delegation_expiry(&vec![7]), 7);
}

#[test]
fn worker_error_messages() {
    assert_eq!(WorkerError::Internal("db down".to_string()).message(), "internal error: db down");
    assert_eq!(WorkerError::InvalidSignature.message(), "Invalid Signature");
    assert_eq!(WorkerError::AlreadyVotedOnPost.message(), "user has already voted on this post");
    assert_eq!(WorkerError::PostNotFound.message(), "post not found");
    assert_eq!(WorkerError::InsufficientFunds.message(), "user does not have sufficient balance");
    assert_eq!(WorkerError::TreasuryOutOfFunds.message(), "treasury is out of funds");
    assert_eq!(WorkerError::TreasuryLimitReached.message(), "treasury limit reached, try again tomorrow");
    assert_eq!(WorkerError::AlreadyReferred.message(), "user was already referred");
    assert_eq!(WorkerError::InvalidAirdropDelta.message(), "specified airdropped with negative delta");
    assert_eq!(
        WorkerError::BalanceTransactionConflict { new_balance: BigUint::from(5u32) }.message(),
        "conflict while updating balance, retry"
    );
    assert_eq!(WorkerError::SatsCreditLimitReached.message(), "sats credit limit reached");
    assert_eq!(WorkerError::SatsDeductLimitReached.message(), "sats deduct limit reached");
}
