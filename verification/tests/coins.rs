use yral_common::global_constants::{
    CoinState, BET_COIN_ENABLED_STATES, DEFAULT_BET_COIN_FOR_LOGGED_IN, DEFAULT_BET_COIN_FOR_LOGGED_OUT,
    MAX_BET_AMOUNT_SATS,
};
use yral_common::limits;
use yral_common::limits::CoinState as L;

#[test]
fn coin_cents() {
    assert_eq!(CoinState::C1.to_cents(), 1);
    assert_eq!(CoinState::C5.to_cents(), 5);
    assert_eq!(CoinState::C10.to_cents(), 10);
    assert_eq!(CoinState::C20.to_cents(), 20);
    assert_eq!(CoinState::C50.to_cents(), 50);
    assert_eq!(CoinState::C100.to_cents(), 100);
    assert_eq!(CoinState::C200.to_cents(), 200);
    assert_eq!(DEFAULT_BET_COIN_FOR_LOGGED_IN.to_cents(), MAX_BET_AMOUNT_SATS);
}

#[test]
fn coin_from_cents_round_trip_and_fallback() {
    for c in [
        CoinState::C1,
        CoinState::C5,
        CoinState::C10,
        CoinState::C20,
        CoinState::C50,
        CoinState::C100,
        CoinState::C200,
    ] {
        assert_eq!(CoinState::from_cents(c.to_cents()), c);
    }
    assert_eq!(CoinState::from_cents(7), DEFAULT_BET_COIN_FOR_LOGGED_OUT);
    assert_eq!(CoinState::from_cents(0), CoinState::C1);
}

#[test]
fn coin_wrapping_over_enabled_states() {
    assert_eq!(BET_COIN_ENABLED_STATES, [CoinState::C1, CoinState::C5]);
    assert_eq!(CoinState::C1.wrapping_next(), CoinState::C5);
    assert_eq!(CoinState::C5.wrapping_next(), CoinState::C1);
    assert_eq!(CoinState::C1.wrapping_prev(), CoinState::C5);
    assert_eq!(CoinState::C5.wrapping_prev(), CoinState::C1);
    // Disabled states fall back to the logged-out default.
    assert_eq!(CoinState::C50.wrapping_next(), DEFAULT_BET_COIN_FOR_LOGGED_OUT);
    assert_eq!(CoinState::C200.wrapping_prev(), DEFAULT_BET_COIN_FOR_LOGGED_OUT);
    for c in BET_COIN_ENABLED_STATES {
        assert_eq!(c.wrapping_next().wrapping_prev(), c);
        assert_eq!(c.wrapping_prev().wrapping_next(), c);
    }
}

#[test]
fn limits_coin_states() {
    assert_eq!(L::C10.to_cents(), 10);
    assert_eq!(L::C200.to_cents(), 200);
    assert_eq!(L::from_cents(50), L::C50);
    assert_eq!(L::from_cents(1), limits::DEFAULT_BET_COIN_STATE);
    assert_eq!(L::C10.wrapping_next(), L::C20);
    assert_eq!(L::C20.wrapping_next(), L::C10);
    assert_eq!(L::C10.wrapping_prev(), L::C20);
    assert_eq!(L::C100.wrapping_next(), L::C10);
    assert_eq!(L::C50.wrapping_prev(), L::C10);
    assert_eq!(limits::REFERRAL_REWARD_SATS, 5);
}

#[test]
fn airdrop_ranges() {
    assert_eq!(yral_common::global_constants::SATS_AIRDROP_LIMIT_RANGE_SATS, 25..30);
    assert_eq!(limits::SATS_AIRDROP_LIMIT_RANGE_SATS, 50..100);
    assert!(limits::SATS_AIRDROP_LIMIT_RANGE_SATS.contains(&limits::SATS_AIRDROP_LIMIT_RANGE_START_SATS));
    assert!(!limits::SATS_AIRDROP_LIMIT_RANGE_SATS.contains(&limits::SATS_AIRDROP_LIMIT_RANGE_END_SATS));
}
