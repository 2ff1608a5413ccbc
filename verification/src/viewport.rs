//! The viewport: two zoom factors and the state of the zoom button.
//!
//! A zoom factor is an integer in millionths, so `SCALE_ONE` stands for 1.0.
//! Both factors start at 1.0 and never leave `[SCALE_MIN, SCALE_MAX]`, that is
//! `[0.1, 10.0]`.

use vstd::prelude::*;
use crate::event::{Event, MouseButton, MouseEvent, ScrollDelta, Status};

verus! {

/// The zoom factor 1.0.
pub const SCALE_ONE: u32 = 1_000_000;

/// The smallest zoom factor, 0.1.
pub const SCALE_MIN: u32 = 100_000;

/// The largest zoom factor, 10.0.
pub const SCALE_MAX: u32 = 10_000_000;

/// The denominator over which `zoom_numer` expresses a wheel movement's
/// multiplier.
pub const ZOOM_DENOM: u32 = 500_000;

/// The multiplier of a wheel movement, as a numerator over `ZOOM_DENOM`.
///
/// The multiplier is `1 + lines / 10`. A movement in lines counts as it is,
/// one in pixels as a fiftieth of it. With `y` in thousandths this is
/// `(500000 + 50 y) / 500000` for lines and `(500000 + y) / 500000` for
/// pixels. The horizontal component plays no part.
pub open spec fn zoom_numer(delta: ScrollDelta) -> int {
    match delta {
        ScrollDelta::Lines { x, y } => 500_000 + 50 * y,
        ScrollDelta::Pixels { x, y } => 500_000 + y,
    }
}

/// `v` brought into `[SCALE_MIN, SCALE_MAX]`.
pub open spec fn clamp_scale(v: int) -> int {
    if v < SCALE_MIN {
        SCALE_MIN as int
    } else if v > SCALE_MAX {
        SCALE_MAX as int
    } else {
        v
    }
}

/// A zoom factor after a wheel movement: the product with the movement's
/// multiplier, rounded to the nearest millionth with halves upward, then
/// clamped. Rounding to the nearest is adding a half and rounding down; here
/// both are taken over twice `ZOOM_DENOM`.
pub open spec fn zoomed(scale: int, delta: ScrollDelta) -> int {
    clamp_scale((2 * (scale * zoom_numer(delta)) + 500_000) / 1_000_000)
}

/// The mathematical content of a `CandleChartState`.
pub struct Viewport {
    pub button_held: bool,
    pub price_scale: int,
    pub time_scale: int,
}

impl Viewport {
    /// The viewport of a fresh chart.
    pub open spec fn initial() -> Viewport {
        Viewport { button_held: false, price_scale: SCALE_ONE as int, time_scale: SCALE_ONE as int }
    }

    /// Both zoom factors lie in `[SCALE_MIN, SCALE_MAX]`.
    pub open spec fn in_range(self) -> bool {
        &&& SCALE_MIN <= self.price_scale <= SCALE_MAX
        &&& SCALE_MIN <= self.time_scale <= SCALE_MAX
    }

    /// The viewport after one event, and whether the event was used.
    ///
    /// Pressing the middle button sets the flag and releasing it clears the
    /// flag; both are captured. A wheel movement while the flag is set zooms
    /// both factors and is captured; without the flag it changes nothing and
    /// is ignored, like every other event.
    pub open spec fn step(self, event: Event) -> (Viewport, Status) {
        match event {
            Event::Mouse(MouseEvent::ButtonPressed(MouseButton::Middle)) => (
                Viewport { button_held: true, ..self },
                Status::Captured,
            ),
            Event::Mouse(MouseEvent::ButtonReleased(MouseButton::Middle)) => (
                Viewport { button_held: false, ..self },
                Status::Captured,
            ),
            Event::Mouse(MouseEvent::WheelScrolled { delta }) => if self.button_held {
                (
                    Viewport {
                        button_held: true,
                        price_scale: zoomed(self.price_scale, delta),
                        time_scale: zoomed(self.time_scale, delta),
                    },
                    Status::Captured,
                )
            } else {
                (self, Status::Ignored)
            },
            _ => (self, Status::Ignored),
        }
    }

    /// The viewport after a sequence of events, first event first.
    pub open spec fn run(self, events: Seq<Event>) -> Viewport
        decreases events.len(),
    {
        if events.len() == 0 {
            self
        } else {
            self.run(events.drop_last()).step(events.last()).0
        }
    }
}

/// Whatever the factor was before, after a zoom it lies in
/// `[SCALE_MIN, SCALE_MAX]`.
pub proof fn lemma_zoomed_in_range(scale: int, delta: ScrollDelta)
    ensures
        SCALE_MIN <= zoomed(scale, delta) <= SCALE_MAX,
{
}

/// No event takes a zoom factor out of `[SCALE_MIN, SCALE_MAX]`.
pub proof fn lemma_step_in_range(v: Viewport, event: Event)
    requires
        v.in_range(),
    ensures
        v.step(event).0.in_range(),
{
}

/// After any sequence of events both zoom factors are still in
/// `[SCALE_MIN, SCALE_MAX]`.
pub proof fn lemma_run_in_range(v: Viewport, events: Seq<Event>)
    requires
        v.in_range(),
    ensures
        v.run(events).in_range(),
    decreases events.len(),
{
    if events.len() > 0 {
        lemma_run_in_range(v, events.drop_last());
        lemma_step_in_range(v.run(events.drop_last()), events.last());
    }
}

/// While the button is up the wheel does nothing: the viewport is unchanged
/// and the event is reported as ignored.
pub proof fn lemma_wheel_needs_button(v: Viewport, delta: ScrollDelta)
    requires
        !v.button_held,
    ensures
        v.step(Event::Mouse(MouseEvent::WheelScrolled { delta })) == (v, Status::Ignored),
{
}

/// A movement that zooms in by a tenth or more raises a factor by at least
/// a hundredth, until it stops at `SCALE_MAX`; there it stays.
pub proof fn lemma_zoom_in_climbs(scale: int, delta: ScrollDelta)
    requires
        SCALE_MIN <= scale <= SCALE_MAX,
        zoom_numer(delta) >= 550_000,
    ensures
        zoomed(scale, delta) >= scale + 10_000 || zoomed(scale, delta) == SCALE_MAX,
        scale == SCALE_MAX ==> zoomed(scale, delta) == SCALE_MAX,
{
    let numer = zoom_numer(delta);
    assert(scale * numer >= (scale + 10_000) * 500_000) by (nonlinear_arith)
        requires
            scale >= 100_000,
            numer >= 550_000,
    ;
}

/// The viewport after `n` equal wheel movements with the button held.
pub open spec fn wheel_run(v: Viewport, delta: ScrollDelta, n: nat) -> Viewport {
    v.run(Seq::new(n, |i: int| Event::Mouse(MouseEvent::WheelScrolled { delta })))
}

/// Repeated zooming in saturates: with the button held, enough wheel
/// movements of a tenth or more bring both factors to exactly `SCALE_MAX`,
/// and never beyond. After `n` movements each factor has reached
/// `SCALE_MAX` or gained at least `n` hundredths; 990 movements suffice from
/// anywhere.
pub proof fn lemma_zoom_in_saturates(v: Viewport, delta: ScrollDelta, n: nat)
    requires
        v.in_range(),
        v.button_held,
        zoom_numer(delta) >= 550_000,
    ensures
        wheel_run(v, delta, n).button_held,
        wheel_run(v, delta, n).in_range(),
        wheel_run(v, delta, n).price_scale == SCALE_MAX || wheel_run(v, delta, n).price_scale
            >= v.price_scale + 10_000 * n,
        wheel_run(v, delta, n).time_scale == SCALE_MAX || wheel_run(v, delta, n).time_scale
            >= v.time_scale + 10_000 * n,
        n >= 990 ==> wheel_run(v, delta, n).price_scale == SCALE_MAX && wheel_run(
            v,
            delta,
            n,
        ).time_scale == SCALE_MAX,
    decreases n,
{
    let wheel = Event::Mouse(MouseEvent::WheelScrolled { delta });
    let events = Seq::new(n, |i: int| wheel);
    if n > 0 {
        let before = Seq::new((n - 1) as nat, |i: int| wheel);
        assert(events.drop_last() =~= before);
        lemma_zoom_in_saturates(v, delta, (n - 1) as nat);
        let w = wheel_run(v, delta, (n - 1) as nat);
        assert(wheel_run(v, delta, n) == w.step(wheel).0);
        lemma_zoom_in_climbs(w.price_scale, delta);
        lemma_zoom_in_climbs(w.time_scale, delta);
    }
}

/// The interaction state of one chart view.
#[derive(Clone, Copy, Debug)]
pub struct CandleChartState {
    middle_pressed: bool,
    price_scale: u32,
    time_scale: u32,
}

impl View for CandleChartState {
    type V = Viewport;

    closed spec fn view(&self) -> Viewport {
        Viewport {
            button_held: self.middle_pressed,
            price_scale: self.price_scale as int,
            time_scale: self.time_scale as int,
        }
    }
}

/// A zoom factor after one wheel movement.
pub fn zoom_scale(scale: u32, delta: ScrollDelta) -> (r: u32)
    ensures
        r == zoomed(scale as int, delta),
        r == clamp_scale(crate::exact::nearest(scale as real * crate::exact::zoom_factor(delta))),
        SCALE_MIN <= r <= SCALE_MAX,
{
    proof {
        crate::exact::lemma_zoomed_exact(scale as int, delta);
    }
    let numer: i64 = match delta {
        ScrollDelta::Lines { x: _, y } => 500_000 + 50 * (y as i64),
        ScrollDelta::Pixels { x: _, y } => 500_000 + (y as i64),
    };
    if numer <= 0 {
        assert(scale * numer <= 0) by (nonlinear_arith)
            requires
                scale >= 0,
                numer <= 0,
        ;
        return SCALE_MIN;
    }
    assert(0 <= scale * numer <= 0x1_0000_0000 * 0x100_0000_0000) by (nonlinear_arith)
        requires
            0 <= scale <= 0x1_0000_0000,
            0 < numer <= 0x100_0000_0000,
    ;
    let product: u128 = (scale as u128) * (numer as u128);
    let quotient: u128 = (2 * product + 500_000) / 1_000_000;
    if quotient < SCALE_MIN as u128 {
        SCALE_MIN
    } else if quotient > SCALE_MAX as u128 {
        SCALE_MAX
    } else {
        quotient as u32
    }
}

impl CandleChartState {
    #[verifier::type_invariant]
    spec fn scales_clamped(self) -> bool {
        &&& SCALE_MIN <= self.price_scale <= SCALE_MAX
        &&& SCALE_MIN <= self.time_scale <= SCALE_MAX
    }

    /// Whether the zoom button is down.
    pub fn button_held(&self) -> (r: bool)
        ensures
            r == self@.button_held,
    {
        self.middle_pressed
    }

    /// The zoom factor of the price axis, in millionths.
    pub fn price_scale(&self) -> (r: u32)
        ensures
            r == self@.price_scale,
            SCALE_MIN <= r <= SCALE_MAX,
    {
        proof {
            use_type_invariant(self);
        }
        self.price_scale
    }

    /// The zoom factor of the time axis, in millionths.
    pub fn time_scale(&self) -> (r: u32)
        ensures
            r == self@.time_scale,
            SCALE_MIN <= r <= SCALE_MAX,
    {
        proof {
            use_type_invariant(self);
        }
        self.time_scale
    }

    /// Feeds one event to the state and says whether it was used.
    pub fn apply(&mut self, event: Event) -> (status: Status)
        ensures
            (final(self)@, status) == old(self)@.step(event),
            final(self)@.in_range(),
    {
        proof {
            use_type_invariant(&*self);
        }
        match event {
            Event::Mouse(MouseEvent::ButtonPressed(MouseButton::Middle)) => {
                self.middle_pressed = true;
                Status::Captured
            },
            Event::Mouse(MouseEvent::ButtonReleased(MouseButton::Middle)) => {
                self.middle_pressed = false;
                Status::Captured
            },
            Event::Mouse(MouseEvent::WheelScrolled { delta }) => {
                if self.middle_pressed {
                    self.price_scale = zoom_scale(self.price_scale, delta);
                    self.time_scale = zoom_scale(self.time_scale, delta);
                    Status::Captured
                } else {
                    Status::Ignored
                }
            },
            _ => Status::Ignored,
        }
    }
}

impl Default for CandleChartState {
    /// The state of a fresh chart: button up, both factors 1.0.
    fn default() -> (r: Self)
        ensures
            r@ == Viewport::initial(),
    {
        CandleChartState { middle_pressed: false, price_scale: SCALE_ONE, time_scale: SCALE_ONE }
    }
}

} // verus!
