//! The price record that the chart draws.

use vstd::prelude::*;

verus! {

/// One open/high/low/close sample.
///
/// Prices are in hundredths of the price unit, the volume in hundredths of its
/// unit, the time in whole seconds since 1970-01-01 00:00:00 UTC. A candle's
/// place along the time axis is its position in the sequence, not its time.
#[derive(Clone, Copy, Debug, PartialEq, Eq)]
pub struct Candle {
    pub open: i64,
    pub low: i64,
    pub high: i64,
    pub close: i64,
    pub volume: Option<u64>,
    pub time: i64,
}

impl Candle {
    /// The opening and closing prices lie between the low and the high.
    ///
    /// The chart draws any candle; it never tests this.
    pub open spec fn ordered(self) -> bool {
        &&& self.low <= self.open <= self.high
        &&& self.low <= self.close <= self.high
    }

    /// The price closed above where it opened.
    pub open spec fn rising(self) -> bool {
        self.close > self.open
    }
}

/// The least low of a non-empty sequence of candles.
pub open spec fn min_low(candles: Seq<Candle>) -> int
    decreases candles.len(),
{
    if candles.len() <= 1 {
        candles[0].low as int
    } else {
        let rest = min_low(candles.drop_last());
        if candles.last().low < rest {
            candles.last().low as int
        } else {
            rest
        }
    }
}

/// The greatest high of a non-empty sequence of candles.
pub open spec fn max_high(candles: Seq<Candle>) -> int
    decreases candles.len(),
{
    if candles.len() <= 1 {
        candles[0].high as int
    } else {
        let rest = max_high(candles.drop_last());
        if candles.last().high > rest {
            candles.last().high as int
        } else {
            rest
        }
    }
}

/// `min_low` is a low of the sequence and no low is below it; `max_high` is a
/// high of the sequence and no high is above it.
pub proof fn lemma_price_bounds(candles: Seq<Candle>)
    requires
        candles.len() > 0,
    ensures
        forall|i: int| 0 <= i < candles.len() ==> min_low(candles) <= (#[trigger] candles[i]).low,
        exists|i: int| 0 <= i < candles.len() && (#[trigger] candles[i]).low == min_low(candles),
        forall|i: int| 0 <= i < candles.len() ==> (#[trigger] candles[i]).high <= max_high(candles),
        exists|i: int| 0 <= i < candles.len() && (#[trigger] candles[i]).high == max_high(candles),
    decreases candles.len(),
{
    if candles.len() > 1 {
        let front = candles.drop_last();
        lemma_price_bounds(front);
        let i = choose|i: int| 0 <= i < front.len() && (#[trigger] front[i]).low == min_low(front);
        let j = choose|j: int| 0 <= j < front.len() && (#[trigger] front[j]).high == max_high(front);
        assert(candles[i] == front[i]);
        assert(candles[j] == front[j]);
        assert(candles[candles.len() - 1] == candles.last());
        assert forall|k: int| 0 <= k < candles.len() implies min_low(candles) <= (
        #[trigger] candles[k]).low && candles[k].high <= max_high(candles) by {
            if k < front.len() {
                assert(candles[k] == front[k]);
            }
        }
    } else {
        assert(candles[0].low == min_low(candles));
        assert(candles[0].high == max_high(candles));
    }
}

/// Where every candle has its low at or below its high, the least low is at or
/// below the greatest high.
pub proof fn lemma_bounds_ordered(candles: Seq<Candle>)
    requires
        candles.len() > 0,
        exists|i: int| 0 <= i < candles.len() && (#[trigger] candles[i]).low <= candles[i].high,
    ensures
        min_low(candles) <= max_high(candles),
{
    lemma_price_bounds(candles);
}

/// Scans the candles once for the least low and the greatest high.
///
/// Returns `None` for an empty sequence, which has neither.
pub fn price_bounds(candles: &Vec<Candle>) -> (r: Option<(i64, i64)>)
    ensures
        candles.len() == 0 <==> r is None,
        r matches Some((lo, hi)) ==> lo == min_low(candles@) && hi == max_high(candles@),
{
    if candles.len() == 0 {
        return None;
    }
    let mut lo: i64 = candles[0].low;
    let mut hi: i64 = candles[0].high;
    assert(candles@.take(1).len() == 1);
    let mut i: usize = 1;
    while i < candles.len()
        invariant
            1 <= i <= candles.len(),
            lo == min_low(candles@.take(i as int)),
            hi == max_high(candles@.take(i as int)),
        decreases candles.len() - i,
    {
        let c = candles[i];
        assert(candles@.take(i + 1).drop_last() =~= candles@.take(i as int));
        if c.low < lo {
            lo = c.low;
        }
        if c.high > hi {
            hi = c.high;
        }
        i = i + 1;
    }
    assert(candles@.take(i as int) =~= candles@);
    Some((lo, hi))
}

} // verus!
