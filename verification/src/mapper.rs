//! The coordinate mapper: from prices and candle positions to the screen.
//!
//! Every coordinate is a fraction of the area's width or height, worked out
//! exactly over one denominator, rounded once to the nearest thousandth of a
//! pixel and brought into the `i64` range (`scaled_ratio`). The module `exact`
//! states the same quantities over the real numbers and proves that the
//! integer formulas here are those, rounded.

use vstd::prelude::*;
use crate::arith::{floor_div_rem, ratio_round, ratio_round_signed, scaled_ratio, scaled_round};
use crate::arith::{lemma_scaled_round_between, lemma_scaled_round_monotone};
use crate::exact::{nearest, to_coord};
use crate::candle::{max_high, min_low, price_bounds, Candle};
use crate::draw::Bounds;
use crate::viewport::{CandleChartState, Viewport, SCALE_MAX, SCALE_MIN};

verus! {

/// The guard that stands in for an empty price range is one part in
/// `EPSILON_PARTS` of a hundredth. It is there only to keep the division
/// defined where all prices are equal; where they differ the range is
/// divided by as it is, so the guard never moves a coordinate.
pub const EPSILON_PARTS: u32 = 1_000_000;

/// The price axis is marked at the fractions `0/5 ..= 5/5` of the visible
/// range, the time axis at the same fractions of the last candle's index.
pub const LEVELS: u8 = 5;

/// The mathematical content of a `CoordinateMapper`.
pub struct Transform {
    /// The least low of the candles.
    pub min_price: int,
    /// The greatest high of the candles.
    pub max_price: int,
    /// How many candles there are.
    pub count: int,
    pub width: int,
    pub height: int,
    pub price_scale: int,
    pub time_scale: int,
}

impl Transform {
    /// The transform for a non-empty sequence of candles.
    pub open spec fn of(candles: Seq<Candle>, bounds: Bounds, viewport: Viewport) -> Transform {
        Transform {
            min_price: min_low(candles),
            max_price: max_high(candles),
            count: candles.len() as int,
            width: bounds.width as int,
            height: bounds.height as int,
            price_scale: viewport.price_scale,
            time_scale: viewport.time_scale,
        }
    }

    /// The sizes are not negative, there is a candle, and both zoom factors
    /// are in their range.
    pub open spec fn wf(self) -> bool {
        &&& self.count >= 1
        &&& self.width >= 0
        &&& self.height >= 0
        &&& SCALE_MIN <= self.price_scale <= SCALE_MAX
        &&& SCALE_MIN <= self.time_scale <= SCALE_MAX
    }

    /// All prices are equal, so that the visible range is empty.
    pub open spec fn flat(self) -> bool {
        self.max_price == self.min_price
    }

    /// `p - bottom`, the height of the price `p` above the lower end of the
    /// visible range, multiplied through by `2 * price_scale`.
    ///
    /// The visible range is `(max - min) / scale` around the middle of the
    /// data, `scale` being `price_scale / 1_000_000`.
    pub open spec fn price_offset(self, p: int) -> int {
        2 * self.price_scale * p - self.price_scale * (self.max_price + self.min_price) + 1_000_000 * (
        self.max_price - self.min_price)
    }

    /// The denominator of every vertical fraction: the visible range,
    /// multiplied through by `2 * price_scale`. Where the range is empty the
    /// guard stands in for it, multiplied through by `EPSILON_PARTS` as well.
    pub open spec fn price_denom(self) -> int {
        if self.flat() {
            2 * self.price_scale
        } else {
            2_000_000 * (self.max_price - self.min_price)
        }
    }

    /// The numerator, over `price_denom`, of the fraction of the height that
    /// lies above a price whose `price_offset` is `offset`: one less the
    /// fraction of the range that lies below the price.
    pub open spec fn price_numer(self, offset: int) -> int {
        if self.flat() {
            self.price_denom() - EPSILON_PARTS * offset
        } else {
            self.price_denom() - offset
        }
    }

    /// The vertical coordinate of the price `p`:
    /// `height - height * (p - bottom) / range`, rounded to the nearest
    /// thousandth, with the guard for the range where that is empty. Higher
    /// prices are nearer the top.
    pub open spec fn price_y(self, p: int) -> int {
        scaled_ratio(self.height, self.price_numer(self.price_offset(p)), self.price_denom())
    }

    /// The vertical coordinate of the gridline at `j / 5` of the visible
    /// range: `price_y` of `bottom + range * j / 5`, whose offset above the
    /// lower end is `400_000 * j * (max - min)` over `2 * price_scale`.
    pub open spec fn level_y(self, j: int) -> int {
        scaled_ratio(
            self.height,
            self.price_numer(400_000 * j * (self.max_price - self.min_price)),
            self.price_denom(),
        )
    }

    /// The price at `j / 5` of the visible range, to the nearest hundredth
    /// with halves rounded upward. Exactly it is
    /// `(5 s (max + min) + 1_000_000 (max - min) (2 j - 5)) / (10 s)` with `s` the
    /// price scale.
    pub open spec fn level_price(self, j: int) -> int {
        (2 * (5 * self.price_scale * (self.max_price + self.min_price) + 1_000_000 * (self.max_price
            - self.min_price) * (2 * j - 5)) + 10 * self.price_scale) / (20 * self.price_scale)
    }

    /// The number of candle slots across the width, in millionths: the
    /// candle count times the time scale, and at least one slot.
    pub open spec fn slots(self) -> int {
        if self.count * self.time_scale > 1_000_000 {
            self.count * self.time_scale
        } else {
            1_000_000
        }
    }

    /// The distance between the centres of neighbouring candles:
    /// `width / slots`.
    pub open spec fn candle_spacing(self) -> int {
        scaled_round(self.width, 1_000_000, self.slots())
    }

    /// The width of a candle's body: seven tenths of the spacing.
    pub open spec fn candle_width(self) -> int {
        scaled_round(self.width, 700_000, self.slots())
    }

    /// The horizontal centre of candle `i`: `i * spacing + spacing / 2`.
    pub open spec fn index_x(self, i: int) -> int {
        scaled_round(self.width, 500_000 * (2 * i + 1), self.slots())
    }

    /// The left edge of the body of candle `i`: half a body's width left of
    /// the centre, `(i + 0.5 - 0.35) * spacing`.
    pub open spec fn body_left(self, i: int) -> int {
        scaled_round(self.width, 1_000_000 * i + 150_000, self.slots())
    }

    /// The index of the candle under time gridline `k`: the fraction `k / 5`
    /// of the last index, rounded down.
    pub open spec fn time_index(self, k: int) -> int {
        (k * (self.count - 1)) / (LEVELS as int)
    }
}

/// A higher price is never drawn lower on the screen: `price_y` does not
/// increase with the price. This needs the least low at or below the greatest
/// high, which holds as soon as one candle has its low at or below its high.
pub proof fn lemma_price_y_monotone(t: Transform, below: int, above: int)
    requires
        t.wf(),
        t.min_price <= t.max_price,
        below <= above,
    ensures
        t.price_y(above) <= t.price_y(below),
{
    let s = t.price_scale;
    assert(2 * s * below <= 2 * s * above) by (nonlinear_arith)
        requires
            s > 0,
            below <= above,
    ;
    assert(EPSILON_PARTS * t.price_offset(below) <= EPSILON_PARTS * t.price_offset(above))
        by (nonlinear_arith)
        requires
            t.price_offset(below) <= t.price_offset(above),
    ;
    lemma_scaled_round_monotone(
        t.height,
        t.price_numer(t.price_offset(above)),
        t.price_numer(t.price_offset(below)),
        t.price_denom(),
    );
}

/// The lowest price level lies on the bottom edge, and each level is at or
/// above the one before it.
pub proof fn lemma_levels_rise(t: Transform, j1: int, j2: int)
    requires
        t.wf(),
        t.height <= u32::MAX,
        t.min_price <= t.max_price,
        0 <= j1 <= j2,
    ensures
        t.level_y(0) == t.height,
        t.level_y(j2) <= t.level_y(j1),
{
    let d = t.price_denom();
    let range = t.max_price - t.min_price;
    assert(400_000 * j1 * range <= 400_000 * j2 * range) by (nonlinear_arith)
        requires
            range >= 0,
            0 <= j1 <= j2,
    ;
    assert(EPSILON_PARTS * (400_000 * j1 * range) <= EPSILON_PARTS * (400_000 * j2 * range))
        by (nonlinear_arith)
        requires
            400_000 * j1 * range <= 400_000 * j2 * range,
    ;
    lemma_scaled_round_monotone(
        t.height,
        t.price_numer(400_000 * j2 * range),
        t.price_numer(400_000 * j1 * range),
        d,
    );
    assert(400_000 * 0 * range == 0) by (nonlinear_arith);
    assert(EPSILON_PARTS * 0 == 0) by (nonlinear_arith);
    assert(t.price_numer(0) == d);
    lemma_scaled_round_between(t.height, d, d, t.height, t.height);
}

/// Where prices differ, price level `j` lies at the fraction `j / 5` of the
/// height above the bottom edge, whatever the zoom.
pub proof fn lemma_levels_even(t: Transform, j: int)
    requires
        t.wf(),
        t.min_price < t.max_price,
        0 <= j <= LEVELS,
    ensures
        t.level_y(j) == scaled_round(t.height, 5 - j, 5),
{
    let range = t.max_price - t.min_price;
    let h = t.height;
    let m = 2_000_000 * range - 400_000 * j * range;
    let a = 2 * (h * (5 - j)) + 5;
    assert(2 * (h * m) + 2_000_000 * range == (400_000 * range) * a && a >= 0) by (nonlinear_arith)
        requires
            m == 2_000_000 * range - 400_000 * j * range,
            a == 2 * (h * (5 - j)) + 5,
            h >= 0,
            j <= 5,
    ;
    assert(2 * (2_000_000 * range) == (400_000 * range) * 10) by (nonlinear_arith);
    vstd::arithmetic::div_mod::lemma_div_multiples_vanish_quotient(400_000 * range, a, 10);
}

/// Candles stand left to right in their order: the centre of a later candle
/// is never left of an earlier one's.
pub proof fn lemma_index_x_monotone(t: Transform, i1: int, i2: int)
    requires
        t.wf(),
        i1 <= i2,
    ensures
        t.index_x(i1) <= t.index_x(i2),
{
    assert(t.count * t.time_scale >= 0) by (nonlinear_arith)
        requires
            t.count >= 1,
            t.time_scale >= 100_000,
    ;
    lemma_scaled_round_monotone(t.width, 500_000 * (2 * i1 + 1), 500_000 * (2 * i2 + 1), t.slots());
}

/// With at most one slot across the width, a slot is the whole width.
pub proof fn lemma_single_slot(t: Transform)
    requires
        t.wf(),
        t.width <= u32::MAX,
        t.count * t.time_scale <= 1_000_000,
    ensures
        t.candle_spacing() == t.width,
{
    lemma_scaled_round_between(t.width, 1_000_000, 1_000_000, t.width, t.width);
}

/// The candles keep to the area's neighbourhood: the centre of each lies
/// between the left edge and ten widths to its right, ten being the most that
/// the time scale can stretch the row. Within one width where the time scale
/// is 1.0 or more.
pub proof fn lemma_candles_in_reach(t: Transform, i: int)
    requires
        t.wf(),
        t.width <= u32::MAX,
        0 <= i < t.count,
    ensures
        0 <= t.index_x(i) <= 10 * t.width,
        t.time_scale >= 1_000_000 ==> t.index_x(i) <= t.width,
{
    let w = t.width;
    let k = t.slots();
    let n = 500_000 * (2 * i + 1);
    assert(k >= t.count * t.time_scale >= 100_000 * t.count) by (nonlinear_arith)
        requires
            k >= t.count * t.time_scale,
            t.time_scale >= 100_000,
            t.count >= 1,
    ;
    assert(0 * k <= w * n <= (10 * w) * k) by (nonlinear_arith)
        requires
            0 <= n <= 10 * k,
            w >= 0,
    ;
    lemma_scaled_round_between(w, n, k, 0, 10 * w);
    if t.time_scale >= 1_000_000 {
        assert(k >= 1_000_000 * t.count) by (nonlinear_arith)
            requires
                k >= t.count * t.time_scale,
                t.time_scale >= 1_000_000,
                t.count >= 1,
        ;
        assert(w * n <= w * k) by (nonlinear_arith)
            requires
                0 <= n <= k,
                w >= 0,
        ;
        lemma_scaled_round_between(w, n, k, 0, w);
    }
}

/// Without zooming in on the price axis, every price of the data lies inside
/// the area: between the top edge and the bottom edge.
pub proof fn lemma_data_fits(t: Transform, p: int)
    requires
        t.wf(),
        t.height <= u32::MAX,
        t.price_scale <= 1_000_000,
        t.min_price <= p <= t.max_price,
    ensures
        0 <= t.price_y(p) <= t.height,
{
    let s = t.price_scale;
    let d = t.price_denom();
    let m = t.price_numer(t.price_offset(p));
    let h = t.height;
    let range = t.max_price - t.min_price;
    assert(0 <= t.price_offset(p) <= 2_000_000 * range) by (nonlinear_arith)
        requires
            t.price_offset(p) == 2 * s * p - s * (t.max_price + t.min_price) + 1_000_000 * range,
            range == t.max_price - t.min_price,
            t.min_price <= p <= t.max_price,
            100_000 <= s <= 1_000_000,
    ;
    assert(EPSILON_PARTS * 0 == 0) by (nonlinear_arith);
    assert(0 <= m <= d);
    assert(0 * d <= h * m <= h * d) by (nonlinear_arith)
        requires
            0 <= m <= d,
            h >= 0,
    ;
    lemma_scaled_round_between(h, m, d, 0, h);
}

/// The coordinate mapper of one frame.
#[derive(Clone, Copy, Debug)]
pub struct CoordinateMapper {
    min_price: i64,
    max_price: i64,
    count: usize,
    width: u32,
    height: u32,
    price_scale: u32,
    time_scale: u32,
}

impl View for CoordinateMapper {
    type V = Transform;

    closed spec fn view(&self) -> Transform {
        Transform {
            min_price: self.min_price as int,
            max_price: self.max_price as int,
            count: self.count as int,
            width: self.width as int,
            height: self.height as int,
            price_scale: self.price_scale as int,
            time_scale: self.time_scale as int,
        }
    }
}

impl CoordinateMapper {
    #[verifier::type_invariant]
    spec fn valid(self) -> bool {
        &&& self.count >= 1
        &&& SCALE_MIN <= self.price_scale <= SCALE_MAX
        &&& SCALE_MIN <= self.time_scale <= SCALE_MAX
    }

    /// The mapper for `candles` drawn into `bounds` under `state`; `None` for
    /// an empty sequence, which has no price range.
    pub fn new(candles: &Vec<Candle>, bounds: Bounds, state: &CandleChartState) -> (r: Option<Self>)
        ensures
            candles.len() == 0 <==> r is None,
            r matches Some(m) ==> m@ == Transform::of(candles@, bounds, state@) && m@.wf(),
    {
        match price_bounds(candles) {
            None => None,
            Some((lo, hi)) => Some(
                CoordinateMapper {
                    min_price: lo,
                    max_price: hi,
                    count: candles.len(),
                    width: bounds.width,
                    height: bounds.height,
                    price_scale: state.price_scale(),
                    time_scale: state.time_scale(),
                },
            ),
        }
    }

    /// The least low of the candles.
    pub fn min_price(&self) -> (r: i64)
        ensures
            r == self@.min_price,
    {
        self.min_price
    }

    /// The greatest high of the candles.
    pub fn max_price(&self) -> (r: i64)
        ensures
            r == self@.max_price,
    {
        self.max_price
    }

    /// The number of candles.
    pub fn count(&self) -> (r: usize)
        ensures
            r == self@.count,
            r >= 1,
    {
        proof {
            use_type_invariant(self);
        }
        self.count
    }

    /// The width of the drawing area.
    pub fn width(&self) -> (r: u32)
        ensures
            r == self@.width,
    {
        self.width
    }

    /// The height of the drawing area.
    pub fn height(&self) -> (r: u32)
        ensures
            r == self@.height,
    {
        self.height
    }

    fn price_denom(&self) -> (d: i128)
        ensures
            d == self@.price_denom(),
            d != 0,
            -crate::arith::DENOM_MAX <= d <= crate::arith::DENOM_MAX,
            self@.min_price <= self@.max_price ==> d > 0,
    {
        proof {
            use_type_invariant(self);
        }
        if self.max_price == self.min_price {
            2 * (self.price_scale as i128)
        } else {
            2_000_000 * (self.max_price as i128 - self.min_price as i128)
        }
    }

    /// `price_numer(offset)` over the denominator `denom`.
    fn price_numer(&self, denom: i128, offset: i128) -> (m: i128)
        requires
            denom == self@.price_denom(),
            -0x1_0000_0000_0000_0000_0000_000 <= offset <= 0x1_0000_0000_0000_0000_0000_000,
        ensures
            m == self@.price_numer(offset as int),
            m > i128::MIN,
    {
        proof {
            use_type_invariant(self);
        }
        if self.max_price == self.min_price {
            denom - 1_000_000 * offset
        } else {
            denom - offset
        }
    }

    /// The vertical coordinate of the price `p`.
    pub fn price_to_y(&self, p: i64) -> (y: i64)
        ensures
            y == self@.price_y(p as int),
            y == to_coord(self@.exact_y(p as real)),
    {
        proof {
            use_type_invariant(self);
            crate::exact::lemma_price_y_exact(self@, p as int);
        }
        let denom: i128 = self.price_denom();
        let s: i128 = self.price_scale as i128;
        let range: i128 = self.max_price as i128 - self.min_price as i128;
        let sum: i128 = self.max_price as i128 + self.min_price as i128;
        assert(-10_000_000 * 0x8000_0000_0000_0000 <= s * p <= 10_000_000 * 0x8000_0000_0000_0000)
            by (nonlinear_arith)
            requires
                0 <= s <= 10_000_000,
                -0x8000_0000_0000_0000 <= p <= 0x8000_0000_0000_0000,
        ;
        assert(-10_000_000 * 0x1_0000_0000_0000_0000 <= s * sum <= 10_000_000 * 0x1_0000_0000_0000_0000)
            by (nonlinear_arith)
            requires
                0 <= s <= 10_000_000,
                -0x1_0000_0000_0000_0000 <= sum <= 0x1_0000_0000_0000_0000,
        ;
        assert(2 * self@.price_scale * p == 2 * (s * p)) by (nonlinear_arith)
            requires
                s == self@.price_scale,
        ;
        let offset: i128 = 2 * (s * (p as i128)) - s * sum + 1_000_000 * range;
        ratio_round_signed(self.height, self.price_numer(denom, offset), denom)
    }

    /// The vertical coordinate of price gridline `j`.
    pub fn level_to_y(&self, j: u8) -> (y: i64)
        ensures
            y == self@.level_y(j as int),
            y == to_coord(self@.exact_y(self@.exact_level(j as int))),
    {
        proof {
            use_type_invariant(self);
            crate::exact::lemma_level_y_exact(self@, j as int);
        }
        let denom: i128 = self.price_denom();
        let range: i128 = self.max_price as i128 - self.min_price as i128;
        assert(-255 * 0x1_0000_0000_0000_0000 <= j * range <= 255 * 0x1_0000_0000_0000_0000)
            by (nonlinear_arith)
            requires
                0 <= j <= 255,
                -0x1_0000_0000_0000_0000 <= range <= 0x1_0000_0000_0000_0000,
        ;
        assert(400_000 * j * range == 400_000 * (j * range)) by (nonlinear_arith);
        let offset: i128 = 400_000 * ((j as i128) * range);
        ratio_round_signed(self.height, self.price_numer(denom, offset), denom)
    }

    /// The price at gridline `j`, in hundredths.
    pub fn level_price(&self, j: u8) -> (v: i128)
        ensures
            v == self@.level_price(j as int),
            v == nearest(self@.exact_level(j as int)),
    {
        proof {
            use_type_invariant(self);
            crate::exact::lemma_level_price_exact(self@, j as int);
        }
        let s: i128 = self.price_scale as i128;
        let range: i128 = self.max_price as i128 - self.min_price as i128;
        let sum: i128 = self.max_price as i128 + self.min_price as i128;
        let steps: i128 = 2 * (j as i128) - 5;
        assert(-10_000_000 * 0x1_0000_0000_0000_0000 <= s * sum <= 10_000_000 * 0x1_0000_0000_0000_0000)
            by (nonlinear_arith)
            requires
                0 <= s <= 10_000_000,
                -0x1_0000_0000_0000_0000 <= sum <= 0x1_0000_0000_0000_0000,
        ;
        assert(-505 * 0x1_0000_0000_0000_0000 <= range * steps <= 505 * 0x1_0000_0000_0000_0000)
            by (nonlinear_arith)
            requires
                -5 <= steps <= 505,
                -0x1_0000_0000_0000_0000 <= range <= 0x1_0000_0000_0000_0000,
        ;
        assert(5 * self@.price_scale * (self@.max_price + self@.min_price) == 5 * (s * sum))
            by (nonlinear_arith)
            requires
                s == self@.price_scale,
                sum == self@.max_price + self@.min_price,
        ;
        assert(1_000_000 * (self@.max_price - self@.min_price) * (2 * j - 5) == 1_000_000 * (range * steps))
            by (nonlinear_arith)
            requires
                range == self@.max_price - self@.min_price,
                steps == 2 * j - 5,
        ;
        let numer: i128 = 2 * (5 * (s * sum) + 1_000_000 * (range * steps)) + 10 * s;
        floor_div_rem(numer, (20 * s) as u128).0
    }

    fn slots(&self) -> (d: u128)
        ensures
            d == self@.slots(),
            1_000_000 <= d <= crate::arith::DENOM_MAX,
    {
        proof {
            use_type_invariant(self);
        }
        assert(0 <= self.count * self.time_scale <= 0x1_0000_0000_0000_0000 * 10_000_000)
            by (nonlinear_arith)
            requires
                0 <= self.count <= 0x1_0000_0000_0000_0000,
                0 <= self.time_scale <= 10_000_000,
        ;
        let wanted: u128 = (self.count as u128) * (self.time_scale as u128);
        if wanted > 1_000_000 {
            wanted
        } else {
            1_000_000
        }
    }

    /// The distance between the centres of neighbouring candles.
    pub fn candle_spacing(&self) -> (r: i64)
        ensures
            r == self@.candle_spacing(),
            r == to_coord(self@.exact_spacing()),
            r >= 0,
    {
        proof {
            use_type_invariant(self);
            crate::exact::lemma_horizontal_exact(self@, 0);
        }
        ratio_round(self.width, 1_000_000, self.slots())
    }

    /// The width of a candle's body.
    pub fn candle_width(&self) -> (r: i64)
        ensures
            r == self@.candle_width(),
            r == to_coord(self@.exact_width()),
            r >= 0,
    {
        proof {
            use_type_invariant(self);
            crate::exact::lemma_horizontal_exact(self@, 0);
        }
        ratio_round(self.width, 700_000, self.slots())
    }

    /// The horizontal centre of candle `i`.
    pub fn index_to_x(&self, i: usize) -> (x: i64)
        ensures
            x == self@.index_x(i as int),
            x == to_coord(self@.exact_x(i as int)),
    {
        proof {
            use_type_invariant(self);
            crate::exact::lemma_horizontal_exact(self@, i as int);
        }
        ratio_round(self.width, 500_000 * (2 * (i as i128) + 1), self.slots())
    }

    /// The left edge of the body of candle `i`.
    pub fn body_left(&self, i: usize) -> (x: i64)
        ensures
            x == self@.body_left(i as int),
            x == to_coord(self@.exact_left(i as int)),
    {
        proof {
            use_type_invariant(self);
            crate::exact::lemma_horizontal_exact(self@, i as int);
        }
        ratio_round(self.width, 1_000_000 * (i as i128) + 150_000, self.slots())
    }

    /// The index of the candle under time gridline `k`, one of `0 ..= LEVELS`.
    pub fn time_index(&self, k: u8) -> (i: usize)
        requires
            k <= LEVELS,
        ensures
            i == self@.time_index(k as int),
            i < self@.count,
    {
        proof {
            use_type_invariant(self);
        }
        let last: u128 = (self.count - 1) as u128;
        assert(0 <= k * last <= 5 * last) by (nonlinear_arith)
            requires
                0 <= k <= 5,
                0 <= last,
        ;
        let index: u128 = ((k as u128) * last) / 5;
        index as usize
    }
}

} // verus!
