//! The chart: one frame of drawing commands, and the event handler.

use vstd::prelude::*;
use vstd::string::StrSliceExecFns;
use crate::arith::{clamp_coord, saturate};
use crate::candle::Candle;
use crate::draw::{primitives, Bounds, Color, DrawCommand, Primitive, FONT_SIZE, LINE_WIDTH};
use crate::event::{Event, Message, Status};
use crate::label::{format_hundredths, format_utc, hundredths_text, utc_text, TIME_FORMAT};
use crate::mapper::{CoordinateMapper, Transform, LEVELS};
use crate::viewport::{CandleChartState, Viewport};

verus! {

/// Price labels start five pixels from the left edge.
pub const LABEL_LEFT: i64 = 5_000;

/// Time labels start twenty pixels above the bottom edge.
pub const LABEL_RISE: i64 = 20_000;

/// Half the width that a label's text is taken to have, for each character:
/// three tenths of the font size, halved.
pub const HALF_CHAR_WIDTH: i64 = 2_100;

/// The fill of the whole area.
pub open spec fn background(bounds: Bounds) -> Primitive {
    Primitive::FillRect {
        x: 0,
        y: 0,
        width: bounds.width as int,
        height: bounds.height as int,
        color: Color::Background,
    }
}

/// The wick of candle `i`: a vertical line at its centre from its high to its
/// low.
pub open spec fn wick(t: Transform, c: Candle, i: int) -> Primitive {
    Primitive::Line {
        x1: t.index_x(i),
        y1: t.price_y(c.high as int),
        x2: t.index_x(i),
        y2: t.price_y(c.low as int),
        color: Color::Black,
        thickness: LINE_WIDTH as int,
    }
}

/// The colour of a candle's body: green where it closed above its open, red
/// where it closed at or below it.
pub open spec fn body_color(c: Candle) -> Color {
    if c.rising() {
        Color::Green
    } else {
        Color::Red
    }
}

/// The body of candle `i`: a rectangle about its centre between the
/// coordinates of its open and its close, whichever is higher on the screen
/// first.
pub open spec fn body(t: Transform, c: Candle, i: int) -> Primitive {
    let open_y = t.price_y(c.open as int);
    let close_y = t.price_y(c.close as int);
    Primitive::FillRect {
        x: t.body_left(i),
        y: if close_y < open_y {
            close_y
        } else {
            open_y
        },
        width: t.candle_width(),
        height: if close_y < open_y {
            open_y - close_y
        } else {
            close_y - open_y
        },
        color: body_color(c),
    }
}

/// The label of price gridline `j`: the price there, its middle on the
/// gridline.
pub open spec fn price_label(t: Transform, j: int) -> Primitive {
    Primitive::Text {
        content: hundredths_text(t.level_price(j)),
        x: LABEL_LEFT as int,
        y: clamp_coord(t.level_y(j) - FONT_SIZE / 2),
        color: Color::Black,
        size: FONT_SIZE as int,
    }
}

/// Price gridline `j`: a horizontal line across the area.
pub open spec fn price_line(t: Transform, j: int) -> Primitive {
    Primitive::Line {
        x1: 0,
        y1: t.level_y(j),
        x2: t.width,
        y2: t.level_y(j),
        color: Color::PriceGrid,
        thickness: LINE_WIDTH as int,
    }
}

/// The label under the time gridline through candle `index`: `text`, its
/// middle on the gridline, taking each character for three tenths of the font
/// size wide. Without a text the label is empty.
pub open spec fn time_label(t: Transform, index: int, text: Option<Seq<char>>) -> Primitive {
    let content = match text {
        Some(s) => s,
        None => Seq::<char>::empty(),
    };
    Primitive::Text {
        content,
        x: clamp_coord(t.index_x(index) - content.len() * HALF_CHAR_WIDTH),
        y: t.height - LABEL_RISE,
        color: Color::Black,
        size: FONT_SIZE as int,
    }
}

/// The time gridline through candle `index`: a vertical line down the area.
pub open spec fn time_line(t: Transform, index: int) -> Primitive {
    Primitive::Line {
        x1: t.index_x(index),
        y1: 0,
        x2: t.index_x(index),
        y2: t.height,
        color: Color::TimeGrid,
        thickness: LINE_WIDTH as int,
    }
}

/// Command `k` of the frame of a non-empty sequence of candles: the
/// background; then for every candle, in order, its wick and its body; then
/// for each of the six price levels its label and its line; then for each of
/// the six time levels its label and its line.
pub open spec fn frame_item(candles: Seq<Candle>, t: Transform, bounds: Bounds, k: int) -> Primitive {
    let n = candles.len() as int;
    if k == 0 {
        background(bounds)
    } else if k <= 2 * n {
        let i = (k - 1) / 2;
        if (k - 1) % 2 == 0 {
            wick(t, candles[i], i)
        } else {
            body(t, candles[i], i)
        }
    } else if k <= 2 * n + 12 {
        let j = (k - 2 * n - 1) / 2;
        if (k - 2 * n - 1) % 2 == 0 {
            price_label(t, j)
        } else {
            price_line(t, j)
        }
    } else {
        let j = (k - 2 * n - 13) / 2;
        let index = t.time_index(j);
        if (k - 2 * n - 13) % 2 == 0 {
            time_label(t, index, utc_text(candles[index].time as int, TIME_FORMAT@))
        } else {
            time_line(t, index)
        }
    }
}

/// The frame: what the chart draws for `candles` in `bounds` under
/// `viewport`. For no candles it is the background alone.
pub open spec fn frame(candles: Seq<Candle>, bounds: Bounds, viewport: Viewport) -> Seq<Primitive> {
    if candles.len() == 0 {
        seq![background(bounds)]
    } else {
        let t = Transform::of(candles, bounds, viewport);
        Seq::new((2 * candles.len() + 25) as nat, |k: int| frame_item(candles, t, bounds, k))
    }
}

/// The frame of `n > 0` candles has `2 n + 25` commands, and candle `i` owns
/// the two at `1 + 2 i`: its wick, then its body. So the frame holds exactly
/// one wick and body for each candle, in the candles' order.
pub proof fn lemma_frame_candles(candles: Seq<Candle>, bounds: Bounds, viewport: Viewport, i: int)
    requires
        0 <= i < candles.len(),
    ensures
        frame(candles, bounds, viewport).len() == 2 * candles.len() + 25,
        frame(candles, bounds, viewport)[0] == background(bounds),
        frame(candles, bounds, viewport)[1 + 2 * i] == wick(
            Transform::of(candles, bounds, viewport),
            candles[i],
            i,
        ),
        frame(candles, bounds, viewport)[2 + 2 * i] == body(
            Transform::of(candles, bounds, viewport),
            candles[i],
            i,
        ),
{
}

/// After the candles come the six price levels and then the six time levels,
/// each a label followed by its line.
pub proof fn lemma_frame_grid(candles: Seq<Candle>, bounds: Bounds, viewport: Viewport, j: int)
    requires
        candles.len() > 0,
        0 <= j <= LEVELS,
    ensures
        ({
            let f = frame(candles, bounds, viewport);
            let t = Transform::of(candles, bounds, viewport);
            let n = candles.len() as int;
            let index = t.time_index(j);
            &&& f[2 * n + 1 + 2 * j] == price_label(t, j)
            &&& f[2 * n + 2 + 2 * j] == price_line(t, j)
            &&& f[2 * n + 13 + 2 * j] == time_label(
                t,
                index,
                utc_text(candles[index].time as int, TIME_FORMAT@),
            )
            &&& f[2 * n + 14 + 2 * j] == time_line(t, index)
            &&& 0 <= index < n
        }),
{
    let n = candles.len() as int;
    assert(0 <= j * (n - 1) <= 5 * (n - 1)) by (nonlinear_arith)
        requires
            0 <= j <= 5,
            n >= 1,
    ;
}

/// For no candles the frame is the background alone: no candle, no label, no
/// gridline.
pub proof fn lemma_empty_frame(bounds: Bounds, viewport: Viewport)
    ensures
        frame(Seq::<Candle>::empty(), bounds, viewport) == seq![background(bounds)],
        frame(Seq::<Candle>::empty(), bounds, viewport).len() == 1,
{
}

/// A body is green exactly where the candle closed above its open, and red
/// otherwise; a candle that closed where it opened is red.
pub proof fn lemma_body_color(t: Transform, c: Candle, i: int)
    ensures
        body(t, c, i) matches Primitive::FillRect { color, .. } && (color == Color::Green <==> c.close
            > c.open) && (color == Color::Red <==> c.close <= c.open),
{
}

/// A wick runs down the screen from the high to the low: its first end is at
/// or above its second. This needs the candle's low at or below its high.
pub proof fn lemma_wick_runs_down(t: Transform, c: Candle, i: int)
    requires
        t.wf(),
        t.min_price <= t.max_price,
        c.low <= c.high,
    ensures
        t.price_y(c.high as int) <= t.price_y(c.low as int),
        wick(t, c, i)->y1 <= wick(t, c, i)->y2,
{
    crate::mapper::lemma_price_y_monotone(t, c.low as int, c.high as int);
}

/// In a frame every wick runs down the screen, provided each candle has its
/// low at or below its high.
pub proof fn lemma_frame_wicks_run_down(
    candles: Seq<Candle>,
    bounds: Bounds,
    viewport: Viewport,
    i: int,
)
    requires
        viewport.in_range(),
        0 <= i < candles.len(),
        forall|k: int| 0 <= k < candles.len() ==> (#[trigger] candles[k]).low <= candles[k].high,
    ensures
        frame(candles, bounds, viewport)[1 + 2 * i]->y1 <= frame(candles, bounds, viewport)[1 + 2
            * i]->y2,
{
    let t = Transform::of(candles, bounds, viewport);
    crate::candle::lemma_price_bounds(candles);
    lemma_wick_runs_down(t, candles[i], i);
}

/// The wick and the body of candle `i`.
pub fn candle_commands(mapper: &CoordinateMapper, candle: &Candle, i: usize) -> (r: (
    DrawCommand,
    DrawCommand,
))
    ensures
        r.0@ == wick(mapper@, *candle, i as int),
        r.1@ == body(mapper@, *candle, i as int),
{
    let x: i64 = mapper.index_to_x(i);
    let high_y: i64 = mapper.price_to_y(candle.high);
    let low_y: i64 = mapper.price_to_y(candle.low);
    let stick = DrawCommand::Line {
        x1: x,
        y1: high_y,
        x2: x,
        y2: low_y,
        color: Color::Black,
        thickness: LINE_WIDTH,
    };
    let open_y: i64 = mapper.price_to_y(candle.open);
    let close_y: i64 = mapper.price_to_y(candle.close);
    let (top, bottom) = if close_y < open_y {
        (close_y, open_y)
    } else {
        (open_y, close_y)
    };
    let color = if candle.close > candle.open {
        Color::Green
    } else {
        Color::Red
    };
    let rect = DrawCommand::FillRect {
        x: mapper.body_left(i),
        y: top,
        width: mapper.candle_width() as u64,
        height: (bottom as i128 - top as i128) as u64,
        color,
    };
    (stick, rect)
}

/// The label and the line of price gridline `j`.
pub fn price_gridline(mapper: &CoordinateMapper, j: u8) -> (r: (DrawCommand, DrawCommand))
    ensures
        r.0@ == price_label(mapper@, j as int),
        r.1@ == price_line(mapper@, j as int),
{
    let y: i64 = mapper.level_to_y(j);
    let text = DrawCommand::Text {
        content: format_hundredths(mapper.level_price(j)),
        x: LABEL_LEFT,
        y: saturate(y as i128 - (FONT_SIZE / 2) as i128),
        color: Color::Black,
        size: FONT_SIZE,
    };
    let line = DrawCommand::Line {
        x1: 0,
        y1: y,
        x2: mapper.width() as i64,
        y2: y,
        color: Color::PriceGrid,
        thickness: LINE_WIDTH,
    };
    (text, line)
}

/// The label and the line of the time gridline through candle `index`, given
/// the text of that candle's time.
pub fn time_gridline(mapper: &CoordinateMapper, index: usize, text: Option<String>) -> (r: (
    DrawCommand,
    DrawCommand,
))
    ensures
        r.0@ == time_label(mapper@, index as int, crate::label::text_of(text)),
        r.1@ == time_line(mapper@, index as int),
{
    let x: i64 = mapper.index_to_x(index);
    let content = match text {
        Some(s) => s,
        None => String::new(),
    };
    let chars: usize = content.as_str().unicode_len();
    let label = DrawCommand::Text {
        content,
        x: saturate(x as i128 - (chars as i128) * (HALF_CHAR_WIDTH as i128)),
        y: mapper.height() as i64 - LABEL_RISE,
        color: Color::Black,
        size: FONT_SIZE,
    };
    let line = DrawCommand::Line {
        x1: x,
        y1: 0,
        x2: x,
        y2: mapper.height() as i64,
        color: Color::TimeGrid,
        thickness: LINE_WIDTH,
    };
    (label, line)
}

/// A candlestick chart over a fixed sequence of candles.
#[derive(Clone, Debug)]
pub struct CandleChart {
    pub candles: Vec<Candle>,
}

impl CandleChart {
    pub fn new(candles: Vec<Candle>) -> (chart: Self)
        ensures
            chart.candles == candles,
    {
        Self { candles }
    }

    /// Draws one frame: the commands of `frame`, in order.
    pub fn draw(&self, state: &CandleChartState, bounds: Bounds) -> (out: Vec<DrawCommand>)
        ensures
            primitives(out@) == frame(self.candles@, bounds, state@),
    {
        let mut out: Vec<DrawCommand> = Vec::new();
        out.push(
            DrawCommand::FillRect {
                x: 0,
                y: 0,
                width: bounds.width as u64,
                height: bounds.height as u64,
                color: Color::Background,
            },
        );
        let mapper = match CoordinateMapper::new(&self.candles, bounds, state) {
            None => {
                assert(primitives(out@) =~= frame(self.candles@, bounds, state@));
                return out;
            },
            Some(m) => m,
        };
        let ghost candles = self.candles@;
        let ghost t = mapper@;
        let n: usize = self.candles.len();
        let mut i: usize = 0;
        while i < n
            invariant
                i <= n,
                n == candles.len(),
                candles == self.candles@,
                t == mapper@,
                out.len() == 1 + 2 * i,
                forall|k: int| 0 <= k < out.len() ==> (#[trigger] out[k])@ == frame_item(candles, t, bounds, k),
            decreases n - i,
        {
            let (stick, rect) = candle_commands(&mapper, &self.candles[i], i);
            out.push(stick);
            out.push(rect);
            i = i + 1;
        }
        let mut j: u8 = 0;
        while j <= LEVELS
            invariant
                j <= LEVELS + 1,
                n == candles.len(),
                t == mapper@,
                out.len() == 1 + 2 * n + 2 * j,
                forall|k: int| 0 <= k < out.len() ==> (#[trigger] out[k])@ == frame_item(candles, t, bounds, k),
            decreases LEVELS + 1 - j,
        {
            let (text, line) = price_gridline(&mapper, j);
            out.push(text);
            out.push(line);
            j = j + 1;
        }
        let mut k: u8 = 0;
        while k <= LEVELS
            invariant
                k <= LEVELS + 1,
                n == candles.len(),
                candles == self.candles@,
                t == mapper@,
                t.count == n,
                out.len() == 13 + 2 * n + 2 * k,
                forall|m: int| 0 <= m < out.len() ==> (#[trigger] out[m])@ == frame_item(candles, t, bounds, m),
            decreases LEVELS + 1 - k,
        {
            let index: usize = mapper.time_index(k);
            let text = format_utc(self.candles[index].time, TIME_FORMAT);
            let (label, line) = time_gridline(&mapper, index, text);
            out.push(label);
            out.push(line);
            k = k + 1;
        }
        assert(primitives(out@) =~= frame(self.candles@, bounds, state@));
        out
    }

    /// Handles one event: updates `state` as `Viewport::step` says and reports
    /// whether the event was used. No message is ever published.
    pub fn update(&self, state: &mut CandleChartState, event: Event) -> (r: (
        Status,
        Option<Message>,
    ))
        ensures
            (final(state)@, r.0) == old(state)@.step(event),
            final(state)@.in_range(),
            r.1 is None,
    {
        let status = state.apply(event);
        (status, None)
    }
}

} // verus!
