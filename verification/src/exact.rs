//! The chart's quantities over the real numbers, and the proofs that the
//! integer formulas of the mapper and of the viewport are these, rounded.
//!
//! Units are those of the integers: a price is a real number of hundredths, a
//! length a real number of thousandths of a pixel.

use vstd::prelude::*;
use vstd::arithmetic::div_mod::lemma_fundamental_div_mod;
use crate::arith::{clamp_coord, scaled_ratio, scaled_round};
use crate::event::ScrollDelta;
use crate::mapper::{Transform, EPSILON_PARTS};
use crate::viewport::{clamp_scale, zoom_numer, zoomed};

verus! {

/// `x` rounded to the nearest integer, halves upward.
pub open spec fn nearest(x: real) -> int {
    (x + 1 as real / 2 as real).floor()
}

/// `x` as a screen coordinate: rounded to the nearest thousandth of a pixel
/// and brought into the coordinate range.
pub open spec fn to_coord(x: real) -> int {
    clamp_coord(nearest(x))
}

/// The distance of a wheel movement in lines: a movement in pixels counts as
/// a fiftieth of it.
pub open spec fn scroll_lines(delta: ScrollDelta) -> real {
    match delta {
        ScrollDelta::Lines { x, y } => y as real / 1000 as real,
        ScrollDelta::Pixels { x, y } => (y as real / 1000 as real) / 50 as real,
    }
}

/// The multiplier of a wheel movement: one, and a tenth for each line.
pub open spec fn zoom_factor(delta: ScrollDelta) -> real {
    1 as real + scroll_lines(delta) * (1 as real / 10 as real)
}

impl Transform {
    /// The zoom factor of the price axis.
    pub open spec fn price_zoom(self) -> real {
        self.price_scale as real / 1_000_000 as real
    }

    /// The zoom factor of the time axis.
    pub open spec fn time_zoom(self) -> real {
        self.time_scale as real / 1_000_000 as real
    }

    /// The height of the visible price range: that of the data, divided by
    /// the zoom factor.
    pub open spec fn range(self) -> real {
        (self.max_price - self.min_price) as real / self.price_zoom()
    }

    /// The middle of the data's price range, about which the price axis
    /// zooms.
    pub open spec fn middle(self) -> real {
        (self.max_price + self.min_price) as real / 2 as real
    }

    /// The lower end of the visible price range.
    pub open spec fn bottom(self) -> real {
        self.middle() - self.range() / 2 as real
    }

    /// The upper end of the visible price range.
    pub open spec fn top(self) -> real {
        self.middle() + self.range() / 2 as real
    }

    /// The small positive number that keeps the division defined where all
    /// prices are equal.
    pub open spec fn epsilon() -> real {
        1 as real / EPSILON_PARTS as real
    }

    /// What is added to the visible range before dividing by it: `epsilon`
    /// where all prices are equal, which is where it is needed, and nothing
    /// elsewhere, so that it never moves a coordinate of prices that differ.
    pub open spec fn guard(self) -> real {
        if self.flat() {
            Self::epsilon()
        } else {
            0 as real
        }
    }

    /// The vertical coordinate of the price `p`, before rounding.
    pub open spec fn exact_y(self, p: real) -> real {
        self.height as real - ((p - self.bottom()) / (self.top() - self.bottom() + self.guard()))
            * self.height as real
    }

    /// The price at the fraction `j / 5` of the visible range.
    pub open spec fn exact_level(self, j: int) -> real {
        self.bottom() + (j as real / 5 as real) * (self.top() - self.bottom())
    }

    /// The number of candle slots across the width: the candle count times
    /// the time zoom, and at least one.
    pub open spec fn exact_slots(self) -> real {
        if self.count as real * self.time_zoom() > 1 as real {
            self.count as real * self.time_zoom()
        } else {
            1 as real
        }
    }

    /// The distance between the centres of neighbouring candles.
    pub open spec fn exact_spacing(self) -> real {
        self.width as real / self.exact_slots()
    }

    /// The width of a candle's body.
    pub open spec fn exact_width(self) -> real {
        self.exact_spacing() * (7 as real / 10 as real)
    }

    /// The horizontal centre of candle `i`.
    pub open spec fn exact_x(self, i: int) -> real {
        i as real * self.exact_spacing() + self.exact_spacing() / 2 as real
    }

    /// The left edge of the body of candle `i`.
    pub open spec fn exact_left(self, i: int) -> real {
        self.exact_x(i) - self.exact_width() / 2 as real
    }
}

/// A real number whose product with the positive integer `b` is the integer
/// `a` rounds down to the integer quotient of `a` by `b`.
pub proof fn lemma_floor_of_quotient(x: real, a: int, b: int)
    requires
        b > 0,
        x * b as real == a as real,
    ensures
        x.floor() == a / b,
{
    let q = a / b;
    let r = a % b;
    lemma_fundamental_div_mod(a, b);
    assert(q as real <= x && x < (q + 1) as real) by (nonlinear_arith)
        requires
            x * b as real == a as real,
            a == b * q + r,
            0 <= r < b,
    ;
}

/// `scaled_round` over a positive denominator is the real quotient, rounded
/// to the nearest and brought into the coordinate range.
pub proof fn lemma_scaled_round_is_nearest(x: real, h: int, m: int, d: int)
    requires
        d > 0,
        x * d as real == (h * m) as real,
    ensures
        scaled_round(h, m, d) == to_coord(x),
{
    let y = x + 1 as real / 2 as real;
    assert(y * (2 * d) as real == (2 * (h * m) + d) as real) by (nonlinear_arith)
        requires
            y == x + 1 as real / 2 as real,
            x * d as real == (h * m) as real,
    ;
    lemma_floor_of_quotient(y, 2 * (h * m) + d, 2 * d);
}

proof fn lemma_scaled_round_negated(x: real, h: int, m: int, d: int)
    requires
        d < 0,
        x * d as real == (h * m) as real,
    ensures
        scaled_round(h, -m, -d) == to_coord(x),
{
    let b = -d;
    assert(x * b as real == (h * (-m)) as real) by (nonlinear_arith)
        requires
            x * d as real == (h * m) as real,
            b == -d,
    ;
    lemma_scaled_round_is_nearest(x, h, -m, b);
}

/// Where the product of `x` and the integer `d`, not zero, is `h * m`,
/// `scaled_ratio(h, m, d)` is `x` rounded to the nearest and brought into the
/// coordinate range.
pub proof fn lemma_scaled_ratio_is_nearest(x: real, h: int, m: int, d: int)
    requires
        d != 0,
        x * d as real == (h * m) as real,
    ensures
        scaled_ratio(h, m, d) == to_coord(x),
{
    if d > 0 {
        lemma_scaled_round_is_nearest(x, h, m, d);
    } else {
        lemma_scaled_round_negated(x, h, m, d);
    }
}

/// The integers of the price axis are what they are said to be: the
/// denominator is never zero, and for a price `p` (not necessarily whole)
/// whose height above the lower end, times `2 * price_scale`, is the whole
/// number `offset`, the coordinate `exact_y(p)` times `price_denom` is
/// `height * price_numer(offset)`.
pub proof fn lemma_exact_y_quotient(t: Transform, p: real, offset: int)
    requires
        t.wf(),
        (p - t.bottom()) * (2 * t.price_scale) as real == offset as real,
    ensures
        t.price_denom() != 0,
        t.exact_y(p) * t.price_denom() as real == (t.height * t.price_numer(offset)) as real,
{
    let s = t.price_scale as real;
    let r = (t.max_price - t.min_price) as real;
    let e = EPSILON_PARTS as real;
    let h = t.height as real;
    let d = t.price_denom() as real;
    let n = offset as real;
    let above = p - t.bottom();
    let range = r / (s / 1_000_000 as real);
    assert(range * s == 1_000_000 as real * r) by (nonlinear_arith)
        requires
            range == r / (s / 1_000_000 as real),
            s > 0 as real,
    ;
    assert(t.top() - t.bottom() == range);
    assert(above * (2 as real * s) == n) by (nonlinear_arith)
        requires
            above * (2 * t.price_scale) as real == n,
            s == t.price_scale as real,
    ;
    if t.flat() {
        assert(range == 0 as real) by (nonlinear_arith)
            requires
                range * s == 1_000_000 as real * r,
                r == 0 as real,
                s > 0 as real,
        ;
        assert(t.exact_y(p) == h - (above / (1 as real / e)) * h);
        assert((h - (above / (1 as real / e)) * h) * (2 as real * s) == h * (2 as real * s - e
            * n)) by (nonlinear_arith)
            requires
                above * (2 as real * s) == n,
                e == 1_000_000 as real,
        ;
        assert((t.height * t.price_numer(offset)) as real == h * (2 as real * s - e * n))
            by (nonlinear_arith)
            requires
                t.price_numer(offset) == 2 * t.price_scale - EPSILON_PARTS * offset,
                h == t.height as real,
                s == t.price_scale as real,
                n == offset as real,
                e == EPSILON_PARTS as real,
        ;
    } else {
        assert(range != 0 as real) by (nonlinear_arith)
            requires
                range * s == 1_000_000 as real * r,
                r != 0 as real,
        ;
        assert(t.exact_y(p) == h - (above / range) * h);
        assert((h - (above / range) * h) * (2_000_000 as real * r) == h * (2_000_000 as real * r - n))
            by (nonlinear_arith)
            requires
                above * (2 as real * s) == n,
                range * s == 1_000_000 as real * r,
                range != 0 as real,
                s > 0 as real,
        ;
        assert((t.height * t.price_numer(offset)) as real == h * (2_000_000 as real * r - n))
            by (nonlinear_arith)
            requires
                t.price_numer(offset) == 2_000_000 * (t.max_price - t.min_price) - offset,
                h == t.height as real,
                r == (t.max_price - t.min_price) as real,
                n == offset as real,
        ;
    }
}

/// `price_y` is the formula
/// `height - (p - bottom) / (top - bottom + guard) * height`, rounded to the
/// nearest thousandth and brought into the coordinate range.
pub proof fn lemma_price_y_exact(t: Transform, p: int)
    requires
        t.wf(),
    ensures
        t.price_y(p) == to_coord(t.exact_y(p as real)),
{
    let s = t.price_scale as real;
    let r = (t.max_price - t.min_price) as real;
    let m = (t.max_price + t.min_price) as real;
    let range = r / (s / 1_000_000 as real);
    let bottom = m / 2 as real - range / 2 as real;
    assert(range * s == 1_000_000 as real * r) by (nonlinear_arith)
        requires
            range == r / (s / 1_000_000 as real),
            s > 0 as real,
    ;
    assert((p as real - bottom) * (2 * t.price_scale) as real == t.price_offset(p) as real)
        by (nonlinear_arith)
        requires
            range * s == 1_000_000 as real * r,
            bottom == m / 2 as real - range / 2 as real,
            s == t.price_scale as real,
            r == (t.max_price - t.min_price) as real,
            m == (t.max_price + t.min_price) as real,
            t.price_offset(p) == 2 * t.price_scale * p - t.price_scale * (t.max_price
                + t.min_price) + 1_000_000 * (t.max_price - t.min_price),
    ;
    lemma_exact_y_quotient(t, p as real, t.price_offset(p));
    lemma_scaled_ratio_is_nearest(
        t.exact_y(p as real),
        t.height,
        t.price_numer(t.price_offset(p)),
        t.price_denom(),
    );
}

/// `level_y(j)` is the coordinate of the price at `j / 5` of the visible
/// range, rounded to the nearest thousandth and brought into the coordinate
/// range.
pub proof fn lemma_level_y_exact(t: Transform, j: int)
    requires
        t.wf(),
    ensures
        t.level_y(j) == to_coord(t.exact_y(t.exact_level(j))),
{
    let s = t.price_scale as real;
    let r = (t.max_price - t.min_price) as real;
    let range = r / (s / 1_000_000 as real);
    let offset = 400_000 * j * (t.max_price - t.min_price);
    assert(range * s == 1_000_000 as real * r) by (nonlinear_arith)
        requires
            range == r / (s / 1_000_000 as real),
            s > 0 as real,
    ;
    assert(t.top() - t.bottom() == range);
    assert((t.exact_level(j) - t.bottom()) * (2 * t.price_scale) as real == offset as real)
        by (nonlinear_arith)
        requires
            range * s == 1_000_000 as real * r,
            t.exact_level(j) - t.bottom() == (j as real / 5 as real) * range,
            s == t.price_scale as real,
            r == (t.max_price - t.min_price) as real,
            offset == 400_000 * j * (t.max_price - t.min_price),
    ;
    lemma_exact_y_quotient(t, t.exact_level(j), offset);
    lemma_scaled_ratio_is_nearest(
        t.exact_y(t.exact_level(j)),
        t.height,
        t.price_numer(offset),
        t.price_denom(),
    );
}

/// `level_price(j)` is the price at `j / 5` of the visible range, rounded to
/// the nearest whole number of hundredths, halves upward.
pub proof fn lemma_level_price_exact(t: Transform, j: int)
    requires
        t.wf(),
    ensures
        t.level_price(j) == nearest(t.exact_level(j)),
{
    let s = t.price_scale as real;
    let r = (t.max_price - t.min_price) as real;
    let m = (t.max_price + t.min_price) as real;
    let range = r / (s / 1_000_000 as real);
    let numer = 2 * (5 * t.price_scale * (t.max_price + t.min_price) + 1_000_000 * (t.max_price
        - t.min_price) * (2 * j - 5)) + 10 * t.price_scale;
    let denom = 20 * t.price_scale;
    let x = t.exact_level(j) + 1 as real / 2 as real;
    assert(range * s == 1_000_000 as real * r) by (nonlinear_arith)
        requires
            range == r / (s / 1_000_000 as real),
            s > 0 as real,
    ;
    assert(x * (20 as real * s) == numer as real) by (nonlinear_arith)
        requires
            range * s == 1_000_000 as real * r,
            x == m / 2 as real - range / 2 as real + (j as real / 5 as real) * range + 1 as real
                / 2 as real,
            s == t.price_scale as real,
            r == (t.max_price - t.min_price) as real,
            m == (t.max_price + t.min_price) as real,
            numer == 2 * (5 * t.price_scale * (t.max_price + t.min_price) + 1_000_000 * (t.max_price
                - t.min_price) * (2 * j - 5)) + 10 * t.price_scale,
    ;
    assert(x * denom as real == numer as real) by (nonlinear_arith)
        requires
            x * (20 as real * s) == numer as real,
            denom == 20 * t.price_scale,
            s == t.price_scale as real,
    ;
    lemma_floor_of_quotient(x, numer, denom);
}

/// `slots` is the number of slots in millionths, and the horizontal
/// quantities are the fractions of the width that their formulas give:
/// each of `candle_spacing`, `candle_width`, `index_x` and `body_left` is its
/// counterpart over the reals, rounded to the nearest thousandth and brought
/// into the coordinate range.
pub proof fn lemma_horizontal_exact(t: Transform, i: int)
    requires
        t.wf(),
    ensures
        t.slots() as real == t.exact_slots() * 1_000_000 as real,
        t.candle_spacing() == to_coord(t.exact_spacing()),
        t.candle_width() == to_coord(t.exact_width()),
        t.index_x(i) == to_coord(t.exact_x(i)),
        t.body_left(i) == to_coord(t.exact_left(i)),
{
    let w = t.width as real;
    let k = t.slots() as real;
    let sp = t.exact_spacing();
    let ir = i as real;
    assert((t.count * t.time_scale) as real == t.count as real * t.time_zoom() * 1_000_000 as real)
        by (nonlinear_arith)
        requires
            t.time_zoom() == t.time_scale as real / 1_000_000 as real,
    ;
    assert(t.count * t.time_scale > 0) by (nonlinear_arith)
        requires
            t.count >= 1,
            t.time_scale >= 100_000,
    ;
    assert(k == t.exact_slots() * 1_000_000 as real);
    assert(k >= 1_000_000 as real);
    assert(sp * k == w * 1_000_000 as real) by (nonlinear_arith)
        requires
            sp == w / t.exact_slots(),
            k == t.exact_slots() * 1_000_000 as real,
            k >= 1_000_000 as real,
    ;
    assert(sp * k == (t.width * 1_000_000) as real);
    lemma_scaled_round_is_nearest(sp, t.width, 1_000_000, t.slots());

    assert(t.exact_width() * k == (t.width * 700_000) as real) by (nonlinear_arith)
        requires
            t.exact_width() == sp * (7 as real / 10 as real),
            sp * k == w * 1_000_000 as real,
            w == t.width as real,
    ;
    lemma_scaled_round_is_nearest(t.exact_width(), t.width, 700_000, t.slots());

    assert(t.exact_x(i) * k == (t.width * (500_000 * (2 * i + 1))) as real) by (nonlinear_arith)
        requires
            t.exact_x(i) == ir * sp + sp / 2 as real,
            sp * k == w * 1_000_000 as real,
            w == t.width as real,
            ir == i as real,
    ;
    lemma_scaled_round_is_nearest(t.exact_x(i), t.width, 500_000 * (2 * i + 1), t.slots());

    assert(t.exact_left(i) * k == (t.width * (1_000_000 * i + 150_000)) as real) by (nonlinear_arith)
        requires
            t.exact_left(i) == ir * sp + sp / 2 as real - (sp * (7 as real / 10 as real))
                / 2 as real,
            sp * k == w * 1_000_000 as real,
            w == t.width as real,
            ir == i as real,
    ;
    lemma_scaled_round_is_nearest(t.exact_left(i), t.width, 1_000_000 * i + 150_000, t.slots());
}

/// `zoomed` is the factor times the movement's multiplier
/// `1 + lines / 10`, rounded to the nearest millionth and clamped.
pub proof fn lemma_zoomed_exact(scale: int, delta: ScrollDelta)
    ensures
        zoomed(scale, delta) == clamp_scale(nearest(scale as real * zoom_factor(delta))),
{
    let numer = zoom_numer(delta);
    assert(zoom_factor(delta) == numer as real / 500_000 as real) by (nonlinear_arith)
        requires
            delta matches ScrollDelta::Lines { x, y } ==> zoom_factor(delta) == 1 as real + (y as real
                / 1000 as real) * (1 as real / 10 as real) && numer == 500_000 + 50 * y,
            delta matches ScrollDelta::Pixels { x, y } ==> zoom_factor(delta) == 1 as real + ((
            y as real / 1000 as real) / 50 as real) * (1 as real / 10 as real) && numer == 500_000
                + y,
    ;
    let x = scale as real * zoom_factor(delta) + 1 as real / 2 as real;
    assert(x * 1_000_000 as real == (2 * (scale * numer) + 500_000) as real) by (nonlinear_arith)
        requires
            x == scale as real * zoom_factor(delta) + 1 as real / 2 as real,
            zoom_factor(delta) == numer as real / 500_000 as real,
    ;
    lemma_floor_of_quotient(x, 2 * (scale * numer) + 500_000, 1_000_000);
}

} // verus!
