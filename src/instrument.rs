use vstd::prelude::*;

use crate::history::{bounded_push, PriceHistory};
use crate::random::random_in;
use crate::{HISTORY_LEN, PRICE_SCALE};

verus! {

/// Lowest price a simulated instrument can reach (1.0).
pub const PRICE_FLOOR: i64 = PRICE_SCALE;

/// Highest price the fixed-point representation keeps (one billion units).
pub const PRICE_CEILING: i64 = 1_000_000_000_000_000;

/// Smallest per-tick price step that the simulation draws (-0.8).
pub const STEP_MIN: i64 = -800_000;

/// Exclusive upper end of the per-tick price step (+0.9).
pub const STEP_MAX: i64 = 900_000;

/// Smallest per-tick volume increment.
pub const VOLUME_STEP_MIN: i64 = 20_000;

/// Exclusive upper end of the per-tick volume increment.
pub const VOLUME_STEP_MAX: i64 = 180_000;

/// Volume an instrument starts the session with.
pub const OPENING_VOLUME: u64 = 2_500_000;

/// Seeding noise is drawn from `-SEED_NOISE..SEED_NOISE`, in ten-thousandths.
pub const SEED_NOISE: i64 = 15;

/// Units of `change_pct` per percent: 502_512 means 0.502512%.
pub const PERCENT_SCALE: i64 = 1_000_000;

/// Lowest previous close that a seed price at or above the floor can produce.
pub const PREV_CLOSE_MIN: i64 = 995_000;

/// `p` held within `[PRICE_FLOOR, PRICE_CEILING]`.
pub open spec fn clamp_price(p: int) -> int {
    if p < PRICE_FLOOR {
        PRICE_FLOOR as int
    } else if p > PRICE_CEILING {
        PRICE_CEILING as int
    } else {
        p
    }
}

/// `change / prev_close * 100`, in `PERCENT_SCALE` units, truncated toward zero.
pub open spec fn percent_of(change: int, prev_close: int) -> int {
    if change >= 0 {
        change * (100 * PERCENT_SCALE) / prev_close
    } else {
        -((-change) * (100 * PERCENT_SCALE) / prev_close)
    }
}

/// One step of the seeding walk: `base * (1 + noise / 10000)`.
pub open spec fn walk_step(base: int, noise: int) -> int {
    base * (10_000 + noise) / 10_000
}

/// The seeded history: a multiplicative walk from `price`, one value per noise draw.
pub open spec fn seed_walk(price: int, noise: Seq<i64>) -> Seq<i64>
    decreases noise.len(),
{
    if noise.len() == 0 {
        Seq::empty()
    } else {
        let prev = seed_walk(price, noise.drop_last());
        let base = if prev.len() == 0 { price } else { prev.last() as int };
        prev.push(walk_step(base, noise.last() as int) as i64)
    }
}

/// `v` lies within `[PRICE_FLOOR, PRICE_CEILING]`.
pub open spec fn in_price_range(v: int) -> bool {
    PRICE_FLOOR <= v <= PRICE_CEILING
}

/// `new` is `old` after one tick that moved the price by `step` and the
/// volume by `volume_step`.
pub open spec fn advanced(old: Instrument, new: Instrument, step: int, volume_step: int) -> bool {
    &&& new.price == clamp_price(old.price + step)
    &&& new.history@ == bounded_push(old.history@, new.price)
    &&& new.change == new.price - old.prev_close
    &&& new.change_pct == percent_of(new.change as int, old.prev_close as int)
    &&& new.volume == (if old.volume + volume_step > u64::MAX {
        u64::MAX as int
    } else {
        old.volume + volume_step
    })
    &&& new.vwap == (old.vwap + new.price) / 2
    &&& new.day_range_low == (if new.price < old.day_range_low {
        new.price
    } else {
        old.day_range_low
    })
    &&& new.day_range_high == (if new.price > old.day_range_high {
        new.price
    } else {
        old.day_range_high
    })
    &&& new.prev_close == old.prev_close
    &&& new.open == old.open
    &&& new.symbol == old.symbol
    &&& new.name == old.name
}

/// A recorded price is positive and at most twice the price ceiling (a
/// seeding walk may drift a little above the seed price).
pub open spec fn in_history_range(v: int) -> bool {
    0 < v <= 2 * PRICE_CEILING
}

/// One instrument's quote, derived fields and recent price history.
pub struct Instrument {
    pub symbol: String,
    pub name: String,
    pub price: i64,
    pub prev_close: i64,
    pub change: i64,
    pub change_pct: i64,
    pub volume: u64,
    pub vwap: i64,
    pub open: i64,
    pub day_range_low: i64,
    pub day_range_high: i64,
    pub history: PriceHistory,
}

impl Instrument {
    /// The record's invariants: price within bounds and inside the day range,
    /// change fields consistent with price and previous close, bounded history.
    pub open spec fn wf(&self) -> bool {
        &&& in_price_range(self.price as int)
        &&& PREV_CLOSE_MIN <= self.prev_close <= PRICE_CEILING
        &&& 0 < self.day_range_low <= self.price <= self.day_range_high <= 2 * PRICE_CEILING
        &&& self.change == self.price - self.prev_close
        &&& self.change_pct == percent_of(self.change as int, self.prev_close as int)
        &&& 0 <= self.vwap <= PRICE_CEILING
        &&& self.history.wf()
        &&& forall|i: int|
            0 <= i < self.history@.len() ==> #[trigger] in_history_range(self.history@[i] as int)
    }

    /// Computes `percent_of(change, prev_close)`.
    fn percent_change(change: i64, prev_close: i64) -> (r: i64)
        requires
            -PRICE_CEILING <= change <= PRICE_CEILING,
            PREV_CLOSE_MIN <= prev_close,
        ensures
            r == percent_of(change as int, prev_close as int),
    {
        let mag: i128 = if change >= 0 { change as i128 } else { -(change as i128) };
        assert(0 <= mag * 100_000_000 <= PRICE_CEILING * 100_000_000) by (nonlinear_arith)
            requires
                0 <= mag <= PRICE_CEILING,
        ;
        let scaled: i128 = mag * ((100 * PERCENT_SCALE) as i128);
        let q: i128 = scaled / (prev_close as i128);
        proof {
            assert(q <= (scaled as int) / (PREV_CLOSE_MIN as int)) by {
                vstd::arithmetic::div_mod::lemma_div_is_ordered_by_denominator(
                    scaled as int,
                    PREV_CLOSE_MIN as int,
                    prev_close as int,
                );
            }
            assert((scaled as int) / (PREV_CLOSE_MIN as int) <= 200 * PRICE_CEILING) by {
                vstd::arithmetic::div_mod::lemma_div_is_ordered(
                    scaled as int,
                    200 * PRICE_CEILING * PREV_CLOSE_MIN,
                    PREV_CLOSE_MIN as int,
                );
                vstd::arithmetic::div_mod::lemma_div_multiples_vanish(
                    200 * PRICE_CEILING as int,
                    PREV_CLOSE_MIN as int,
                );
            }
        }
        if change >= 0 {
            q as i64
        } else {
            -(q as i64)
        }
    }

    /// Builds a record seeded at `price` whose history walks from `price` by the
    /// given noise draws (ten-thousandths per step).
    pub fn seed_with(symbol: &str, name: &str, price: i64, noise: &Vec<i64>) -> (r: Instrument)
        requires
            in_price_range(price as int),
            forall|i: int| 0 <= i < noise@.len() ==> -SEED_NOISE <= #[trigger] noise@[i] <= SEED_NOISE,
            noise@.len() <= HISTORY_LEN,
        ensures
            r.wf(),
            r.symbol@ == symbol@,
            r.name@ == name@,
            r.price == price,
            r.prev_close == price * 995 / 1000,
            r.open == price * 990 / 1000,
            r.day_range_low == price * 980 / 1000,
            r.day_range_high == price * 1020 / 1000,
            r.volume == OPENING_VOLUME,
            r.vwap == (price + r.open) / 2,
            r.history@ == seed_walk(price as int, noise@),
    {
        let mut history = PriceHistory::new();
        let mut val: i64 = price;
        let mut k: usize = 0;
        while k < noise.len()
            invariant
                k <= noise@.len() <= HISTORY_LEN,
                in_price_range(price as int),
                100 * (val - price) <= k * price,
                100 * (price - val) <= k * price,
                forall|i: int| 0 <= i < noise@.len() ==> -SEED_NOISE <= #[trigger] noise@[i] <= SEED_NOISE,
                history.wf(),
                history@ == seed_walk(price as int, noise@.subrange(0, k as int)),
                history@.len() == k,
                val == (if k == 0 { price as int } else { history@.last() as int }),
                forall|i: int|
                    0 <= i < history@.len() ==> #[trigger] in_history_range(history@[i] as int),
            decreases noise@.len() - k,
        {
            let n = noise[k];
            assert(k * price <= 64 * price) by (nonlinear_arith)
                requires
                    k <= 64,
                    price >= 0,
            ;
            let ghost m: int = val * n;
            assert(-15 * val <= m <= 15 * val) by (nonlinear_arith)
                requires
                    m == val * n,
                    val >= 0,
                    -SEED_NOISE <= n <= SEED_NOISE,
            ;
            assert(val * (10_000 + n) == 10_000 * val + m) by (nonlinear_arith)
                requires
                    m == val * n,
            ;
            let grown: i128 = (val as i128) * ((10_000 + n) as i128) / 10_000;
            proof {
                vstd::arithmetic::div_mod::lemma_fundamental_div_mod(10_000 * val + m, 10_000);
                vstd::arithmetic::div_mod::lemma_mod_bound(10_000 * val + m, 10_000);
                assert(k + 1 <= 64);
                assert((k + 1) * price == k * price + price) by (nonlinear_arith);
            }
            val = grown as i64;
            proof {
                let s = noise@.subrange(0, k as int + 1);
                assert(s.drop_last() =~= noise@.subrange(0, k as int));
                assert(s.last() == n);
            }
            history.push(val);
            k += 1;
        }
        assert(noise@.subrange(0, noise@.len() as int) =~= noise@);
        let prev_close: i64 = price * 995 / 1000;
        let open: i64 = price * 990 / 1000;
        let day_range_low: i64 = price * 980 / 1000;
        let day_range_high: i64 = price * 1020 / 1000;
        let change: i64 = price - prev_close;
        let change_pct = Instrument::percent_change(change, prev_close);
        Instrument {
            symbol: String::from_str(symbol),
            name: String::from_str(name),
            price,
            prev_close,
            change,
            change_pct,
            volume: OPENING_VOLUME,
            vwap: (price + open) / 2,
            open,
            day_range_low,
            day_range_high,
            history,
        }
    }

    /// One simulation tick: moves the price by `step` (clamped to the price
    /// bounds), records it in the history, and recomputes the derived fields.
    /// The volume-weighted price is the blend `(vwap + price) / 2`.
    pub fn advance(&mut self, step: i64, volume_step: u64)
        requires
            old(self).wf(),
            -PRICE_CEILING <= step <= PRICE_CEILING,
        ensures
            final(self).wf(),
            advanced(*old(self), *final(self), step as int, volume_step as int),
    {
        let moved: i64 = self.price + step;
        let price: i64 = if moved < PRICE_FLOOR {
            PRICE_FLOOR
        } else if moved > PRICE_CEILING {
            PRICE_CEILING
        } else {
            moved
        };
        self.price = price;
        self.history.push(price);
        proof {
            let h = self.history@;
            assert forall|i: int| 0 <= i < h.len() implies #[trigger] in_history_range(h[i] as int) by {
                let o = old(self).history@;
                if o.len() + 1 > HISTORY_LEN {
                    assert(h[i] == o.push(price)[i + 1]);
                } else {
                    assert(h[i] == o.push(price)[i]);
                }
            }
        }
        self.change = price - self.prev_close;
        self.change_pct = Instrument::percent_change(self.change, self.prev_close);
        self.volume = self.volume.saturating_add(volume_step);
        self.vwap = (self.vwap + price) / 2;
        if price < self.day_range_low {
            self.day_range_low = price;
        }
        if price > self.day_range_high {
            self.day_range_high = price;
        }
    }

    /// Builds a record seeded at `price` with a freshly drawn random-walk history
    /// of `HISTORY_LEN` values.
    pub fn seed(symbol: &str, name: &str, price: i64) -> (r: Instrument)
        requires
            in_price_range(price as int),
        ensures
            r.wf(),
            r.symbol@ == symbol@,
            r.name@ == name@,
            r.price == price,
            r.prev_close == price * 995 / 1000,
            r.open == price * 990 / 1000,
            r.day_range_low == price * 980 / 1000,
            r.day_range_high == price * 1020 / 1000,
            r.volume == OPENING_VOLUME,
            r.vwap == (price + r.open) / 2,
            r.history@.len() == HISTORY_LEN,
    {
        let mut noise: Vec<i64> = Vec::new();
        let mut k: usize = 0;
        while k < HISTORY_LEN
            invariant
                k <= HISTORY_LEN,
                noise@.len() == k,
                forall|i: int| 0 <= i < noise@.len() ==> -SEED_NOISE <= #[trigger] noise@[i] <= SEED_NOISE,
            decreases HISTORY_LEN - k,
        {
            noise.push(random_in(-SEED_NOISE, SEED_NOISE));
            k += 1;
        }
        let r = Instrument::seed_with(symbol, name, price, &noise);
        proof {
            lemma_seed_walk_len(price as int, noise@);
        }
        r
    }
}

/// A tick keeps every invariant of the record: the price stays within its
/// bounds and inside the day range, the change fields stay consistent with the
/// price and previous close, and the history stays within its capacity.
pub proof fn lemma_advance_keeps_invariants(
    old: Instrument,
    new: Instrument,
    step: int,
    volume_step: int,
)
    requires
        old.wf(),
        advanced(old, new, step, volume_step),
    ensures
        new.wf(),
        new.price >= PRICE_FLOOR,
        new.day_range_low <= new.price <= new.day_range_high,
        new.history@.len() <= HISTORY_LEN,
        new.change == new.price - new.prev_close,
        new.change_pct == percent_of(new.change as int, new.prev_close as int),
{
    let h = new.history@;
    let o = old.history@;
    assert forall|i: int| 0 <= i < h.len() implies #[trigger] in_history_range(h[i] as int) by {
        if o.len() + 1 > HISTORY_LEN {
            assert(h[i] == o.push(new.price)[i + 1]);
        } else {
            assert(h[i] == o.push(new.price)[i]);
        }
    }
}

/// The seeding walk has one value per noise draw.
pub proof fn lemma_seed_walk_len(price: int, noise: Seq<i64>)
    ensures
        seed_walk(price, noise).len() == noise.len(),
    decreases noise.len(),
{
    if noise.len() > 0 {
        lemma_seed_walk_len(price, noise.drop_last());
    }
}

} // verus!
