//! The opportunity evaluator: whether the best asks of a market's two
//! complementary order books sum to at most one dollar, at a tradable size.
use vstd::prelude::*;
use crate::amount::{floor_cents, floor_to_cents, round_cents, round_to_cents, Id256, CENT, SCALE};

verus! {

/// One ask level: a price per share and the shares offered at it.
#[derive(Clone, Copy, Debug, PartialEq, Eq, Structural)]
pub struct PriceLevel {
    pub price: i64,
    pub size: i64,
}

/// A snapshot of one side's asks; the best (lowest) ask is the last level.
#[derive(Clone, Debug)]
pub struct OrderBook {
    pub asset_id: Id256,
    pub asks: Vec<PriceLevel>,
}

/// A detected mispricing, ready to be executed as a pair of buys.
#[derive(Clone, Copy, Debug, PartialEq, Eq)]
pub struct ArbitrageOpportunity {
    pub market_id: Id256,
    pub yes_token_id: Id256,
    pub no_token_id: Id256,
    pub yes_ask_price: i64,
    pub no_ask_price: i64,
    pub total_cost: i64,
    pub profit_percentage: i64,
    pub yes_size: i64,
    pub no_size: i64,
}

/// The levels of a book hold non-negative prices and sizes.
pub open spec fn valid_level(l: PriceLevel) -> bool {
    0 <= l.price <= i64::MAX - CENT && 0 <= l.size
}

pub open spec fn valid_book(b: OrderBook) -> bool {
    forall|i: int| 0 <= i < b.asks@.len() ==> valid_level(#[trigger] b.asks@[i])
}

/// The size traded on two best asks: the smaller size, rounded down to cents;
/// one cent when the smaller size is zero.
pub open spec fn trade_size(yes: PriceLevel, no: PriceLevel) -> int {
    let raw = if yes.size <= no.size { yes.size } else { no.size };
    if raw == 0 { CENT as int } else { floor_cents(raw as int) }
}

/// Prices, size, profit percentage and total price chosen on two best asks:
/// none when the rounded prices sum above one dollar or either leg is worth
/// less than `min_value` dollars. Dollar amounts and percentages are in millionths.
pub open spec fn pick(yes: PriceLevel, no: PriceLevel, min_value: int) -> Option<(int, int, int, int, int)> {
    let yp = round_cents(yes.price as int);
    let np = round_cents(no.price as int);
    let total = yp + np;
    let size = trade_size(yes, no);
    if total > SCALE {
        None
    } else if yp * size < min_value * (SCALE as int) || np * size < min_value * (SCALE as int) {
        None
    } else {
        Some((yp, np, size, (SCALE - total) * 100, total))
    }
}

/// The opportunity on the best asks of two books, if any.
pub open spec fn evaluate(
    yes_book: OrderBook,
    no_book: OrderBook,
    market_id: Id256,
    min_value: int,
) -> Option<ArbitrageOpportunity> {
    if yes_book.asks@.len() == 0 || no_book.asks@.len() == 0 {
        None
    } else {
        match pick(yes_book.asks@.last(), no_book.asks@.last(), min_value) {
            None => None,
            Some((yp, np, size, profit, total)) => Some(
                ArbitrageOpportunity {
                    market_id,
                    yes_token_id: yes_book.asset_id,
                    no_token_id: no_book.asset_id,
                    yes_ask_price: yp as i64,
                    no_ask_price: np as i64,
                    total_cost: (total * size / (SCALE as int)) as i64,
                    profit_percentage: profit as i64,
                    yes_size: size as i64,
                    no_size: size as i64,
                },
            ),
        }
    }
}

/// Finds arbitrage on a market's pair of books.
pub struct ArbitrageDetector {
    min_profit_threshold: i64,
    max_depth: usize,
    min_order_value_usd: i64,
}

impl ArbitrageDetector {
    /// The smallest dollar value, in millionths, that either leg may have.
    pub closed spec fn min_value(&self) -> int {
        self.min_order_value_usd as int
    }

    /// How many levels of a book are looked at.
    pub closed spec fn depth(&self) -> int {
        self.max_depth as int
    }

    /// The profit threshold that callers apply to opportunities.
    pub closed spec fn threshold(&self) -> int {
        self.min_profit_threshold as int
    }

    /// A detector with the given profit threshold (a percentage in
    /// millionths), a one-dollar minimum per leg, and a depth of ten levels.
    pub fn new(min_profit_threshold: i64) -> (r: Self)
        ensures
            r.threshold() == min_profit_threshold,
            r.min_value() == SCALE,
            r.depth() == 10,
    {
        ArbitrageDetector { min_profit_threshold, max_depth: 10, min_order_value_usd: SCALE }
    }

    pub fn min_profit_threshold(&self) -> (r: i64)
        ensures
            r == self.threshold(),
    {
        self.min_profit_threshold
    }

    pub fn max_depth(&self) -> (r: usize)
        ensures
            r == self.depth(),
    {
        self.max_depth
    }

    /// Chooses on the best asks: `(yes price, no price, size, profit %, total price)`.
    fn find_best_opportunity(&self, yes_book: &OrderBook, no_book: &OrderBook) -> (r: Option<(i64, i64, i64, i64, i64)>)
        requires
            valid_book(*yes_book),
            valid_book(*no_book),
            0 <= self.min_value() <= i64::MAX,
        ensures
            (yes_book.asks@.len() == 0 || no_book.asks@.len() == 0) ==> r is None,
            (yes_book.asks@.len() > 0 && no_book.asks@.len() > 0) ==> match pick(
                yes_book.asks@.last(),
                no_book.asks@.last(),
                self.min_value(),
            ) {
                None => r is None,
                Some(p) => r matches Some(q) && q.0 == p.0 && q.1 == p.1 && q.2 == p.2 && q.3 == p.3
                    && q.4 == p.4,
            },
    {
        if yes_book.asks.len() == 0 || no_book.asks.len() == 0 {
            return None;
        }
        let yes_best = yes_book.asks[yes_book.asks.len() - 1];
        let no_best = no_book.asks[no_book.asks.len() - 1];
        proof {
            assert(valid_level(yes_book.asks@[yes_book.asks@.len() - 1]));
            assert(valid_level(no_book.asks@[no_book.asks@.len() - 1]));
        }
        let yes_price = round_to_cents(yes_best.price);
        let no_price = round_to_cents(no_best.price);
        proof {
            assert(0 <= yes_price <= yes_best.price + CENT);
            assert(0 <= no_price <= no_best.price + CENT);
        }
        let total_price: i128 = yes_price as i128 + no_price as i128;
        if total_price > SCALE as i128 {
            return None;
        }
        let raw_size: i64 = if yes_best.size <= no_best.size { yes_best.size } else { no_best.size };
        let final_size: i64 = if raw_size == 0 { CENT } else { floor_to_cents(raw_size) };
        proof {
            assert(0 <= final_size);
            assert(yes_price * final_size <= 1_000_000 * 0x7fff_ffff_ffff_ffff) by (nonlinear_arith)
                requires 0 <= yes_price <= 1_000_000, 0 <= final_size <= 0x7fff_ffff_ffff_ffff;
            assert(no_price * final_size <= 1_000_000 * 0x7fff_ffff_ffff_ffff) by (nonlinear_arith)
                requires 0 <= no_price <= 1_000_000, 0 <= final_size <= 0x7fff_ffff_ffff_ffff;
            assert(self.min_value() * SCALE <= 0x7fff_ffff_ffff_ffff * 1_000_000) by (nonlinear_arith)
                requires 0 <= self.min_value() <= 0x7fff_ffff_ffff_ffff;
        }
        let min_value: i128 = self.min_order_value_usd as i128 * SCALE as i128;
        let yes_value: i128 = yes_price as i128 * final_size as i128;
        let no_value: i128 = no_price as i128 * final_size as i128;
        if yes_value < min_value || no_value < min_value {
            return None;
        }
        let profit_pct: i64 = ((SCALE as i128 - total_price) * 100) as i64;
        Some((yes_price, no_price, final_size, profit_pct, total_price as i64))
    }

    /// The opportunity on the best asks of `yes_book` and `no_book`, if their
    /// rounded prices sum to at most one dollar and each leg is worth at
    /// least the minimum order value.
    pub fn check_arbitrage(
        &self,
        yes_book: &OrderBook,
        no_book: &OrderBook,
        market_id: &Id256,
    ) -> (r: Option<ArbitrageOpportunity>)
        requires
            valid_book(*yes_book),
            valid_book(*no_book),
            0 <= self.min_value() <= i64::MAX,
        ensures
            r == evaluate(*yes_book, *no_book, *market_id, self.min_value()),
            r matches Some(o) ==> o.yes_ask_price + o.no_ask_price <= SCALE
                && o.yes_ask_price * o.yes_size >= self.min_value() * SCALE
                && o.no_ask_price * o.no_size >= self.min_value() * SCALE,
    {
        match self.find_best_opportunity(yes_book, no_book) {
            None => None,
            Some((yes_ask, no_ask, final_size, net_profit_pct, total_price)) => {
                proof {
                    assert(0 <= total_price <= SCALE);
                    assert(0 <= final_size);
                    assert(0 <= total_price * final_size <= SCALE * final_size) by (nonlinear_arith)
                        requires 0 <= total_price <= SCALE, 0 <= final_size;
                }
                let total_cost: i64 = ((total_price as i128) * (final_size as i128) / (SCALE as i128)) as i64;
                Some(
                    ArbitrageOpportunity {
                        market_id: *market_id,
                        yes_token_id: yes_book.asset_id,
                        no_token_id: no_book.asset_id,
                        yes_ask_price: yes_ask,
                        no_ask_price: no_ask,
                        total_cost,
                        profit_percentage: net_profit_pct,
                        yes_size: final_size,
                        no_size: final_size,
                    },
                )
            },
        }
    }
}

} // verus!
