//! Model prices in US cents and their conversion to token amounts.

use vstd::prelude::*;
use crate::global_constants::{LTX2_COST_USD_CENTS, VIDEOGEN_USD_CENTS_TO_DOLR_E8S, VIDEOGEN_USD_CENTS_TO_SATS};
use crate::text::str_eq;
use super::types::TokenType;

verus! {

broadcast use vstd::string::group_string_axioms;

/// A model price in US cents.
#[derive(Clone, Copy, Debug)]
pub struct ModelCostUSD {
    pub usd_cents: u64,
}

impl Default for ModelCostUSD {
    /// 50 cents.
    fn default() -> (r: Self)
        ensures
            r.usd_cents == 50,
    {
        Self { usd_cents: 50 }
    }
}

/// Token amounts (in their smallest unit) per US cent.
#[derive(Clone, Copy, Debug)]
pub struct TokenConversionRates {
    /// Sats per US cent.
    pub usd_cents_to_sats: u64,
    /// DOLR e8s per US cent.
    pub usd_cents_to_dolr: u64,
}

impl Default for TokenConversionRates {
    /// 10 sats and 2 DOLR per cent.
    fn default() -> (r: Self)
        ensures
            r.usd_cents_to_sats == VIDEOGEN_USD_CENTS_TO_SATS,
            r.usd_cents_to_dolr == VIDEOGEN_USD_CENTS_TO_DOLR_E8S,
    {
        Self { usd_cents_to_sats: VIDEOGEN_USD_CENTS_TO_SATS, usd_cents_to_dolr: VIDEOGEN_USD_CENTS_TO_DOLR_E8S }
    }
}

/// The price table of the models, with a fallback price and the token rates.
pub struct TokenCostConfig {
    /// Prices of the listed models; no model occurs twice.
    model_costs_usd: Vec<(String, ModelCostUSD)>,
    conversion_rates: TokenConversionRates,
    default_cost_usd: ModelCostUSD,
}

/// Abstract value of a price table.
pub struct TokenCostConfigView {
    /// Price in cents of each listed model.
    pub costs: Map<Seq<char>, u64>,
    pub usd_cents_to_sats: u64,
    pub usd_cents_to_dolr: u64,
    /// Price in cents of every model that is not listed.
    pub default_cost: u64,
}

/// The prices that an association list holds.
pub open spec fn price_map(entries: Seq<(String, ModelCostUSD)>) -> Map<Seq<char>, u64>
    decreases entries.len(),
{
    if entries.len() == 0 {
        Map::empty()
    } else {
        price_map(entries.drop_last()).insert(entries.last().0@, entries.last().1.usd_cents)
    }
}

/// No model name occurs twice in the list.
pub open spec fn distinct_names(entries: Seq<(String, ModelCostUSD)>) -> bool {
    forall|i: int, j: int| 0 <= i < j < entries.len() ==> entries[i].0@ != entries[j].0@
}

/// The price of `model` in cents under `c`.
pub open spec fn model_cost_usd(c: TokenCostConfigView, model: Seq<char>) -> u64 {
    if c.costs.contains_key(model) {
        c.costs[model]
    } else {
        c.default_cost
    }
}

/// The token amount for `usd_cents` under `c`, as an integer.
pub open spec fn usd_to_token(c: TokenCostConfigView, usd_cents: u64, t: TokenType) -> int {
    match t {
        TokenType::Sats => usd_cents * c.usd_cents_to_sats,
        TokenType::Dolr => usd_cents * c.usd_cents_to_dolr,
        TokenType::Free => 0,
        TokenType::YralProSubscription => 1,
    }
}

/// The US cents that `amount` of a token is worth under `c` (rounded down),
/// where the token's rate is not zero.
pub open spec fn token_to_usd(c: TokenCostConfigView, amount: u64, t: TokenType) -> int {
    match t {
        TokenType::Sats => (amount / c.usd_cents_to_sats) as int,
        TokenType::Dolr => (amount / c.usd_cents_to_dolr) as int,
        TokenType::Free => 0,
        TokenType::YralProSubscription => 0,
    }
}

/// The rate of `t` is not zero where a division by it is made.
pub open spec fn token_rate_nonzero(c: TokenCostConfigView, t: TokenType) -> bool {
    match t {
        TokenType::Sats => c.usd_cents_to_sats != 0,
        TokenType::Dolr => c.usd_cents_to_dolr != 0,
        _ => true,
    }
}

/// A model is a key of the price map exactly when some entry names it.
proof fn lemma_price_map_contains(entries: Seq<(String, ModelCostUSD)>, k: Seq<char>)
    ensures
        price_map(entries).contains_key(k) <==> exists|i: int| 0 <= i < entries.len() && #[trigger] entries[i].0@ == k,
    decreases entries.len(),
{
    if entries.len() > 0 {
        let init = entries.drop_last();
        let n = entries.len() - 1;
        lemma_price_map_contains(init, k);
        if price_map(entries).contains_key(k) {
            if k == entries[n].0@ {
            } else {
                let i = choose|i: int| 0 <= i < init.len() && #[trigger] init[i].0@ == k;
                assert(entries[i].0@ == k);
            }
        }
        if exists|i: int| 0 <= i < entries.len() && #[trigger] entries[i].0@ == k {
            let i = choose|i: int| 0 <= i < entries.len() && #[trigger] entries[i].0@ == k;
            if i < n {
                assert(init[i].0@ == k);
            }
        }
    }
}

/// Each entry's name maps to that entry's price, when no name occurs twice.
proof fn lemma_price_map_value(entries: Seq<(String, ModelCostUSD)>, i: int)
    requires
        distinct_names(entries),
        0 <= i < entries.len(),
    ensures
        price_map(entries).contains_key(entries[i].0@),
        price_map(entries)[entries[i].0@] == entries[i].1.usd_cents,
    decreases entries.len(),
{
    let init = entries.drop_last();
    let n = entries.len() - 1;
    if i < n {
        assert(init[i] == entries[i]);
        assert(distinct_names(init));
        lemma_price_map_value(init, i);
        assert(entries[i].0@ != entries[n].0@);
    }
}

/// Each entry's name is a key of the price map, with that entry's price, and
/// the map holds no other key.
proof fn lemma_price_map_entries(entries: Seq<(String, ModelCostUSD)>)
    requires
        distinct_names(entries),
    ensures
        forall|k: Seq<char>| #[trigger] price_map(entries).contains_key(k) <==>
            exists|i: int| 0 <= i < entries.len() && #[trigger] entries[i].0@ == k,
        forall|i: int| 0 <= i < entries.len() ==>
            #[trigger] price_map(entries)[entries[i].0@] == entries[i].1.usd_cents,
{
    assert forall|k: Seq<char>| #[trigger] price_map(entries).contains_key(k) <==>
        exists|i: int| 0 <= i < entries.len() && #[trigger] entries[i].0@ == k by {
        lemma_price_map_contains(entries, k);
    }
    assert forall|i: int| 0 <= i < entries.len() implies
        #[trigger] price_map(entries)[entries[i].0@] == entries[i].1.usd_cents by {
        lemma_price_map_value(entries, i);
    }
}

impl View for TokenCostConfig {
    type V = TokenCostConfigView;

    closed spec fn view(&self) -> TokenCostConfigView {
        TokenCostConfigView {
            costs: price_map(self.model_costs_usd@),
            usd_cents_to_sats: self.conversion_rates.usd_cents_to_sats,
            usd_cents_to_dolr: self.conversion_rates.usd_cents_to_dolr,
            default_cost: self.default_cost_usd.usd_cents,
        }
    }
}

impl TokenCostConfig {
    #[verifier::type_invariant]
    spec fn wf(self) -> bool {
        distinct_names(self.model_costs_usd@)
    }

    /// The position of `model_id` in the price list, if it is listed.
    fn find(&self, model_id: &str) -> (r: Option<usize>)
        ensures
            match r {
                Some(i) => i < self.model_costs_usd@.len() && self.model_costs_usd@[i as int].0@ == model_id@,
                None => forall|i: int| 0 <= i < self.model_costs_usd@.len() ==> self.model_costs_usd@[i].0@ != model_id@,
            },
    {
        let n = self.model_costs_usd.len();
        let mut i: usize = 0;
        while i < n
            invariant
                i <= n,
                n == self.model_costs_usd@.len(),
                forall|j: int| 0 <= j < i ==> self.model_costs_usd@[j].0@ != model_id@,
            decreases n - i,
        {
            if str_eq(self.model_costs_usd[i].0.as_str(), model_id) {
                return Some(i);
            }
            i = i + 1;
        }
        None
    }

    /// The price of a model in US cents; the default price for an unlisted model.
    pub fn get_model_cost_usd(&self, model_id: &str) -> (r: u64)
        ensures
            r == model_cost_usd(self@, model_id@),
    {
        proof {
            use_type_invariant(self);
            lemma_price_map_entries(self.model_costs_usd@);
        }
        match self.find(model_id) {
            Some(i) => self.model_costs_usd[i].1.usd_cents,
            None => self.default_cost_usd.usd_cents,
        }
    }

    /// The price of a model in the given token.
    pub fn get_model_cost(&self, model_id: &str, token_type: &TokenType) -> (r: u64)
        requires
            usd_to_token(self@, model_cost_usd(self@, model_id@), *token_type) <= u64::MAX,
        ensures
            r == usd_to_token(self@, model_cost_usd(self@, model_id@), *token_type),
    {
        let usd_cents = self.get_model_cost_usd(model_id);
        self.convert_usd_to_token(usd_cents, token_type)
    }

    /// Converts US cents to an amount of a token, in its smallest unit.
    pub fn convert_usd_to_token(&self, usd_cents: u64, token_type: &TokenType) -> (r: u64)
        requires
            usd_to_token(self@, usd_cents, *token_type) <= u64::MAX,
        ensures
            r == usd_to_token(self@, usd_cents, *token_type),
    {
        match token_type {
            TokenType::Sats => usd_cents * self.conversion_rates.usd_cents_to_sats,
            TokenType::Dolr => usd_cents * self.conversion_rates.usd_cents_to_dolr,
            TokenType::Free => 0,
            TokenType::YralProSubscription => 1,
        }
    }

    /// Converts an amount of a token (in its smallest unit) to US cents, rounding down.
    pub fn convert_token_to_usd(&self, amount: u64, token_type: &TokenType) -> (r: u64)
        requires
            token_rate_nonzero(self@, *token_type),
        ensures
            r == token_to_usd(self@, amount, *token_type),
    {
        match token_type {
            TokenType::Sats => amount / self.conversion_rates.usd_cents_to_sats,
            TokenType::Dolr => amount / self.conversion_rates.usd_cents_to_dolr,
            TokenType::Free => 0,
            TokenType::YralProSubscription => 0,
        }
    }

    /// Sets the price of a model in US cents.
    pub fn set_model_cost_usd(&mut self, model_id: String, usd_cents: u64)
        ensures
            final(self)@ == (TokenCostConfigView {
                costs: old(self)@.costs.insert(model_id@, usd_cents),
                ..old(self)@
            }),
    {
        proof {
            use_type_invariant(&*self);
        }
        let ghost old_entries = self.model_costs_usd@;
        let ghost key = model_id@;
        match self.find(model_id.as_str()) {
            Some(i) => {
                let mut entries: Vec<(String, ModelCostUSD)> = Vec::new();
                std::mem::swap(&mut entries, &mut self.model_costs_usd);
                proof {
                    lemma_price_map_entries(old_entries);
                }
                entries.set(i, (model_id, ModelCostUSD { usd_cents }));
                proof {
                    assert(distinct_names(entries@)) by {
                        assert forall|a: int, b: int| 0 <= a < b < entries@.len() implies
                            entries@[a].0@ != entries@[b].0@ by {
                            if a != i && b != i {
                                assert(entries@[a] == old_entries[a] && entries@[b] == old_entries[b]);
                            } else if a == i {
                                assert(entries@[b] == old_entries[b]);
                            } else {
                                assert(entries@[a] == old_entries[a]);
                            }
                        }
                    }
                    lemma_price_map_entries(entries@);
                    assert(price_map(entries@) =~= price_map(old_entries).insert(key, usd_cents)) by {
                        assert forall|k: Seq<char>| price_map(entries@).contains_key(k) <==>
                            price_map(old_entries).insert(key, usd_cents).contains_key(k) by {
                            if price_map(entries@).contains_key(k) {
                                let j = choose|j: int| 0 <= j < entries@.len() && #[trigger] entries@[j].0@ == k;
                                if j != i {
                                    assert(old_entries[j].0@ == k);
                                }
                            }
                            if price_map(old_entries).contains_key(k) {
                                let j = choose|j: int| 0 <= j < old_entries.len() && #[trigger] old_entries[j].0@ == k;
                                if j != i {
                                    assert(entries@[j].0@ == k);
                                } else {
                                    assert(entries@[i as int].0@ == k);
                                }
                            }
                            if k == key {
                                assert(entries@[i as int].0@ == k);
                            }
                        }
                        assert forall|k: Seq<char>| #[trigger] price_map(entries@).contains_key(k) implies
                            price_map(entries@)[k] == price_map(old_entries).insert(key, usd_cents)[k] by {
                            let j = choose|j: int| 0 <= j < entries@.len() && #[trigger] entries@[j].0@ == k;
                            if j != i {
                                assert(old_entries[j] == entries@[j]);
                            }
                        }
                    }
                }
                self.model_costs_usd = entries;
            },
            None => {
                let mut entries: Vec<(String, ModelCostUSD)> = Vec::new();
                std::mem::swap(&mut entries, &mut self.model_costs_usd);
                entries.push((model_id, ModelCostUSD { usd_cents }));
                proof {
                    assert(entries@.drop_last() =~= old_entries);
                    assert(distinct_names(entries@)) by {
                        assert forall|a: int, b: int| 0 <= a < b < entries@.len() implies
                            entries@[a].0@ != entries@[b].0@ by {
                            if b < old_entries.len() {
                                assert(entries@[a] == old_entries[a] && entries@[b] == old_entries[b]);
                            } else {
                                assert(entries@[a] == old_entries[a]);
                            }
                        }
                    }
                }
                self.model_costs_usd = entries;
            },
        }
    }

    /// Replaces the token conversion rates.
    pub fn set_conversion_rates(&mut self, rates: TokenConversionRates)
        ensures
            final(self)@ == (TokenCostConfigView {
                usd_cents_to_sats: rates.usd_cents_to_sats,
                usd_cents_to_dolr: rates.usd_cents_to_dolr,
                ..old(self)@
            }),
    {
        proof {
            use_type_invariant(&*self);
        }
        self.conversion_rates = rates;
    }
}

impl Default for TokenCostConfig {
    /// Only LTX-2 is listed; every other model costs the 50-cent default.
    fn default() -> (r: Self)
        ensures
            r@ == (TokenCostConfigView {
                costs: Map::empty().insert("ltx2"@, LTX2_COST_USD_CENTS),
                usd_cents_to_sats: VIDEOGEN_USD_CENTS_TO_SATS,
                usd_cents_to_dolr: VIDEOGEN_USD_CENTS_TO_DOLR_E8S,
                default_cost: 50,
            }),
    {
        let mut model_costs_usd: Vec<(String, ModelCostUSD)> = Vec::new();
        model_costs_usd.push(("ltx2".to_string(), ModelCostUSD { usd_cents: LTX2_COST_USD_CENTS }));
        proof {
            assert(model_costs_usd@.drop_last() =~= Seq::<(String, ModelCostUSD)>::empty());
            assert(price_map(Seq::<(String, ModelCostUSD)>::empty()) == Map::<Seq<char>, u64>::empty());
            assert(price_map(model_costs_usd@) =~= Map::empty().insert("ltx2"@, LTX2_COST_USD_CENTS));
        }
        Self {
            model_costs_usd,
            conversion_rates: TokenConversionRates::default(),
            default_cost_usd: ModelCostUSD::default(),
        }
    }
}

/// After a model's price is set, the table gives that price for the model and
/// leaves every other model's price unchanged.
pub proof fn lemma_set_then_get(c: TokenCostConfigView, model: Seq<char>, usd_cents: u64, other: Seq<char>)
    requires
        other != model,
    ensures
        model_cost_usd(TokenCostConfigView { costs: c.costs.insert(model, usd_cents), ..c }, model) == usd_cents,
        model_cost_usd(TokenCostConfigView { costs: c.costs.insert(model, usd_cents), ..c }, other)
            == model_cost_usd(c, other),
{
}

/// Converting cents to a paid token and back gives the same cents, for a
/// non-zero rate.
pub proof fn lemma_usd_token_round_trip(c: TokenCostConfigView, usd_cents: u64, t: TokenType)
    requires
        t == TokenType::Sats || t == TokenType::Dolr,
        token_rate_nonzero(c, t),
        usd_to_token(c, usd_cents, t) <= u64::MAX,
    ensures
        token_to_usd(c, usd_to_token(c, usd_cents, t) as u64, t) == usd_cents,
{
    let r: int = if t == TokenType::Sats { c.usd_cents_to_sats as int } else { c.usd_cents_to_dolr as int };
    assert((usd_cents as int * r) / r == usd_cents) by (nonlinear_arith)
        requires
            r > 0,
    ;
}

} // verus!
