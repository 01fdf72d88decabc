//! Platform-wide constants and the bet coin denominations of the current game.

use vstd::prelude::*;

verus! {

/// Creator commission, in percent.
pub const CREATOR_COMMISSION_PERCENT: u64 = 10;

pub const MIN_WITHDRAWAL_PER_TXN_SATS: u64 = 50;
pub const MAX_WITHDRAWAL_PER_TXN_SATS: u64 = 60;
pub const MAX_WITHDRAWAL_PER_DAY_SATS: u64 = 60;

pub const NEW_USER_SIGNUP_REWARD_SATS: u64 = 25;
pub const REFERRAL_REWARD_SATS: u64 = 5;
/// Lower (inclusive) bound of the sats airdrop range.
pub const SATS_AIRDROP_LIMIT_RANGE_START_SATS: u64 = 25;
/// Upper (exclusive) bound of the sats airdrop range.
pub const SATS_AIRDROP_LIMIT_RANGE_END_SATS: u64 = 30;
/// The sats airdrop range.
pub const SATS_AIRDROP_LIMIT_RANGE_SATS: std::ops::Range<u64> = SATS_AIRDROP_LIMIT_RANGE_START_SATS..SATS_AIRDROP_LIMIT_RANGE_END_SATS;
pub const AIRDROP_REWARD_SATS: u64 = 1000;
pub const AIRDROP_REWARD_PER_DAY_SATS: u64 = 10000;

pub const MAX_CKBTC_TREASURY_PER_DAY_PER_USER: u64 = 500;
pub const MAX_CREDITED_PER_DAY_PER_USER_SATS: u64 = 1_000_000;
pub const MAX_DEDUCTED_PER_DAY_PER_USER_SATS: u64 = 100_000;

/// The largest bet, in sats: the value of `CoinState::C5`.
pub const MAX_BET_AMOUNT_SATS: u64 = 5;

/// Sats per US cent charged for video generation (1 cent = 10 sats).
pub const VIDEOGEN_USD_CENTS_TO_SATS: u64 = 10;

/// DOLR e8s per US cent charged for video generation (1 cent = 2 DOLR).
pub const VIDEOGEN_USD_CENTS_TO_DOLR_E8S: u64 = 200_000_000;

/// Price of one Veo3 generation, in US cents.
pub const VEO3_COST_USD_CENTS: u64 = 50;
/// Price of one Veo3 Fast generation, in US cents.
pub const VEO3_FAST_COST_USD_CENTS: u64 = 50;
/// Price of one internal test generation, in US cents.
pub const INTTEST_COST_USD_CENTS: u64 = 50;
/// Price of one Ray2Flash (LumaLabs) generation, in US cents.
pub const RAY2FLASH_COST_USD_CENTS: u64 = 50;
/// Price of one Seedance (FalAi) generation, in US cents.
pub const SEEDANCE_COST_USD_CENTS: u64 = 50;
/// Price of one LTX-2 generation, in US cents.
pub const LTX2_COST_USD_CENTS: u64 = 50;
/// Price of one Talking Head generation, in US cents.
pub const TALKINGHEAD_COST_USD_CENTS: u64 = 50;
/// Price of one Wan 2.2 generation, in US cents.
pub const WAN2_2_COST_USD_CENTS: u64 = 50;
/// Price of one Wan 2.5 (and Wan 2.5 Fast) generation, in US cents.
pub const WAN2_5_COST_USD_CENTS: u64 = 10;

/// A bet coin denomination.
#[derive(Clone, Copy, Debug, PartialEq, Eq, Structural)]
pub enum CoinState {
    C1,
    C5,
    C10,
    C20,
    C50,
    C100,
    C200,
}

/// The default coin of a logged-in user.
pub const DEFAULT_BET_COIN_FOR_LOGGED_IN: CoinState = CoinState::C5;

/// The default coin of a logged-out user, and the coin that every
/// unknown amount or unknown coin falls back to.
pub const DEFAULT_BET_COIN_FOR_LOGGED_OUT: CoinState = CoinState::C1;

/// The coins a user can cycle through when betting, in cycling order.
pub const BET_COIN_ENABLED_STATES: [CoinState; 2] = [CoinState::C1, CoinState::C5];

/// The enabled coins as a sequence.
pub open spec fn enabled_states() -> Seq<CoinState> {
    seq![CoinState::C1, CoinState::C5]
}

/// The value of a coin in cents.
pub open spec fn cents_of(c: CoinState) -> u64 {
    match c {
        CoinState::C1 => 1,
        CoinState::C5 => 5,
        CoinState::C10 => 10,
        CoinState::C20 => 20,
        CoinState::C50 => 50,
        CoinState::C100 => 100,
        CoinState::C200 => 200,
    }
}

/// `cents` is the value of some coin.
pub open spec fn is_denomination(cents: u64) -> bool {
    exists|c: CoinState| cents_of(c) == cents
}

/// `i` is the first position at which `c` occurs in `s`.
pub open spec fn first_position(s: Seq<CoinState>, c: CoinState, i: int) -> bool {
    &&& 0 <= i < s.len()
    &&& s[i] == c
    &&& forall|j: int| 0 <= j < i ==> s[j] != c
}

/// The coin that follows `c` in the enabled cycle (or the logged-out default
/// when `c` is not enabled).
pub open spec fn next_enabled(c: CoinState) -> CoinState {
    let s = enabled_states();
    if exists|i: int| first_position(s, c, i) {
        let i = choose|i: int| first_position(s, c, i);
        if i + 1 < s.len() {
            s[i + 1]
        } else {
            s[0]
        }
    } else {
        DEFAULT_BET_COIN_FOR_LOGGED_OUT
    }
}

/// The coin that precedes `c` in the enabled cycle (or the logged-out default
/// when `c` is not enabled).
pub open spec fn prev_enabled(c: CoinState) -> CoinState {
    let s = enabled_states();
    if exists|i: int| first_position(s, c, i) {
        let i = choose|i: int| first_position(s, c, i);
        if i > 0 {
            s[i - 1]
        } else {
            s[s.len() - 1]
        }
    } else {
        DEFAULT_BET_COIN_FOR_LOGGED_OUT
    }
}

fn enabled_position(c: CoinState) -> (r: Option<usize>)
    ensures
        r matches Some(i) ==> first_position(enabled_states(), c, i as int),
        r is None ==> !enabled_states().contains(c),
{
    let states = BET_COIN_ENABLED_STATES;
    assert(states@ =~= enabled_states());
    let mut i: usize = 0;
    while i < 2
        invariant
            i <= 2,
            states@ =~= enabled_states(),
            forall|j: int| 0 <= j < i ==> states@[j] != c,
        decreases 2 - i,
    {
        if states[i] == c {
            return Some(i);
        }
        i = i + 1;
    }
    None
}

impl CoinState {
    /// The value of the coin in cents.
    pub fn to_cents(&self) -> (r: u64)
        ensures
            r == cents_of(*self),
    {
        match self {
            CoinState::C1 => 1,
            CoinState::C5 => 5,
            CoinState::C10 => 10,
            CoinState::C20 => 20,
            CoinState::C50 => 50,
            CoinState::C100 => 100,
            CoinState::C200 => 200,
        }
    }

    /// The coin worth `cents`; any other amount gives the logged-out default.
    pub fn from_cents(cents: u64) -> (r: CoinState)
        ensures
            forall|c: CoinState| cents_of(c) == cents ==> r == c,
            is_denomination(cents) || r == DEFAULT_BET_COIN_FOR_LOGGED_OUT,
    {
        match cents {
            1 => CoinState::C1,
            5 => {
                assert(cents_of(CoinState::C5) == 5);
                CoinState::C5
            },
            10 => {
                assert(cents_of(CoinState::C10) == 10);
                CoinState::C10
            },
            20 => {
                assert(cents_of(CoinState::C20) == 20);
                CoinState::C20
            },
            50 => {
                assert(cents_of(CoinState::C50) == 50);
                CoinState::C50
            },
            100 => {
                assert(cents_of(CoinState::C100) == 100);
                CoinState::C100
            },
            200 => {
                assert(cents_of(CoinState::C200) == 200);
                CoinState::C200
            },
            _ => DEFAULT_BET_COIN_FOR_LOGGED_OUT,
        }
    }

    /// The next enabled coin, wrapping around at the end of the cycle.
    pub fn wrapping_next(self) -> (r: Self)
        ensures
            r == next_enabled(self),
    {
        match enabled_position(self) {
            Some(i) => {
                let states = BET_COIN_ENABLED_STATES;
                proof {
                    assert(states@ =~= enabled_states());
                    assert(first_position(enabled_states(), self, i as int));
                }
                states[(i + 1) % 2]
            },
            None => DEFAULT_BET_COIN_FOR_LOGGED_OUT,
        }
    }

    /// The previous enabled coin, wrapping around at the start of the cycle.
    pub fn wrapping_prev(self) -> (r: Self)
        ensures
            r == prev_enabled(self),
    {
        match enabled_position(self) {
            Some(i) => {
                let states = BET_COIN_ENABLED_STATES;
                proof {
                    assert(states@ =~= enabled_states());
                }
                states[(i + 2 - 1) % 2]
            },
            None => DEFAULT_BET_COIN_FOR_LOGGED_OUT,
        }
    }
}

/// Converting a coin to cents and back gives the same coin.
pub proof fn lemma_cents_round_trip(c: CoinState)
    ensures
        is_denomination(cents_of(c)),
        forall|d: CoinState| cents_of(d) == cents_of(c) ==> d == c,
{
}

/// Stepping forward and then back through the enabled coins returns to the
/// starting coin, and so does stepping back and then forward; both steps stay
/// within the enabled coins.
pub proof fn lemma_wrapping_inverse(c: CoinState)
    requires
        enabled_states().contains(c),
    ensures
        enabled_states().contains(next_enabled(c)),
        enabled_states().contains(prev_enabled(c)),
        prev_enabled(next_enabled(c)) == c,
        next_enabled(prev_enabled(c)) == c,
{
    lemma_enabled_steps();
}

/// The first position of a coin in a sequence is unique.
proof fn lemma_first_position_unique(s: Seq<CoinState>, c: CoinState, i: int, k: int)
    requires
        first_position(s, c, i),
        first_position(s, c, k),
    ensures
        i == k,
{
    if i < k {
        assert(s[i] != c);
    } else if k < i {
        assert(s[k] != c);
    }
}

/// The enabled cycle is C1 -> C5 -> C1.
proof fn lemma_enabled_steps()
    ensures
        next_enabled(CoinState::C1) == CoinState::C5,
        next_enabled(CoinState::C5) == CoinState::C1,
        prev_enabled(CoinState::C1) == CoinState::C5,
        prev_enabled(CoinState::C5) == CoinState::C1,
{
    let s = enabled_states();
    assert(s[0] == CoinState::C1 && s[1] == CoinState::C5 && s.len() == 2);
    assert(first_position(s, CoinState::C1, 0));
    assert(first_position(s, CoinState::C5, 1));
    let i1 = choose|i: int| first_position(s, CoinState::C1, i);
    lemma_first_position_unique(s, CoinState::C1, i1, 0);
    let i5 = choose|i: int| first_position(s, CoinState::C5, i);
    lemma_first_position_unique(s, CoinState::C5, i5, 1);
}

/// A coin that is not enabled steps to the logged-out default in both directions.
pub proof fn lemma_wrapping_disabled(c: CoinState)
    requires
        !enabled_states().contains(c),
    ensures
        next_enabled(c) == DEFAULT_BET_COIN_FOR_LOGGED_OUT,
        prev_enabled(c) == DEFAULT_BET_COIN_FOR_LOGGED_OUT,
{
}

/// Cycling through the enabled coins always moves to another coin, in both
/// directions; no enabled coin is worth more than the maximum bet, and the
/// largest of them is worth exactly that; the fallback coin is enabled.
pub proof fn lemma_enabled_coins_and_maximum_bet(c: CoinState)
    ensures
        enabled_states().contains(c) ==> next_enabled(c) != c && prev_enabled(c) != c,
        enabled_states().contains(c) ==> cents_of(c) <= MAX_BET_AMOUNT_SATS,
        exists|e: CoinState| #[trigger] enabled_states().contains(e) && cents_of(e) == MAX_BET_AMOUNT_SATS,
        enabled_states().contains(DEFAULT_BET_COIN_FOR_LOGGED_OUT),
{
    lemma_enabled_steps();
    let s = enabled_states();
    assert(s[0] == s[0]);
    assert(s[1] == s[1]);
    assert(enabled_states().contains(s[1]));
}

} // verus!
