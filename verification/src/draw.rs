//! Drawing commands: what the chart asks its host to paint.

use vstd::prelude::*;

verus! {

/// The drawing area, in thousandths of a pixel.
#[derive(Clone, Copy, Debug, PartialEq, Eq, Structural)]
pub struct Bounds {
    pub width: u32,
    pub height: u32,
}

/// The chart's fixed palette.
#[derive(Clone, Copy, Debug, PartialEq, Eq, Structural)]
pub enum Color {
    /// The light gray behind everything.
    Background,
    /// Wicks and label text.
    Black,
    /// The body of a candle that closed above its open.
    Green,
    /// The body of a candle that closed at or below its open.
    Red,
    /// Horizontal gridlines.
    PriceGrid,
    /// Vertical gridlines.
    TimeGrid,
}

impl Color {
    /// The red, green and blue channels, eight bits each. Green and red are
    /// seven tenths of full strength, which eight bits hold as 179.
    pub open spec fn channels(self) -> (u8, u8, u8) {
        match self {
            Color::Background => (240u8, 240u8, 240u8),
            Color::Black => (0u8, 0u8, 0u8),
            Color::Green => (0u8, 179u8, 0u8),
            Color::Red => (179u8, 0u8, 0u8),
            Color::PriceGrid => (200u8, 200u8, 200u8),
            Color::TimeGrid => (220u8, 220u8, 220u8),
        }
    }

    /// The red, green and blue channels, eight bits each.
    pub fn rgb(self) -> (r: (u8, u8, u8))
        ensures
            r == self.channels(),
    {
        match self {
            Color::Background => (240, 240, 240),
            Color::Black => (0, 0, 0),
            Color::Green => (0, 179, 0),
            Color::Red => (179, 0, 0),
            Color::PriceGrid => (200, 200, 200),
            Color::TimeGrid => (220, 220, 220),
        }
    }
}

/// The width of every stroked line: one pixel.
pub const LINE_WIDTH: u32 = 1_000;

/// The size of label text: fourteen pixels.
pub const FONT_SIZE: u32 = 14_000;

/// One drawing command. Coordinates grow rightward and downward from the top
/// left corner of the area, in thousandths of a pixel.
#[derive(Clone, Debug, PartialEq, Eq)]
pub enum DrawCommand {
    /// Fill the rectangle with corner `(x, y)` and the given size.
    FillRect { x: i64, y: i64, width: u64, height: u64, color: Color },
    /// Stroke the segment from `(x1, y1)` to `(x2, y2)`.
    Line { x1: i64, y1: i64, x2: i64, y2: i64, color: Color, thickness: u32 },
    /// Draw `content` with its top left corner at `(x, y)`.
    Text { content: String, x: i64, y: i64, color: Color, size: u32 },
}

/// The mathematical content of a `DrawCommand`.
pub enum Primitive {
    FillRect { x: int, y: int, width: int, height: int, color: Color },
    Line { x1: int, y1: int, x2: int, y2: int, color: Color, thickness: int },
    Text { content: Seq<char>, x: int, y: int, color: Color, size: int },
}

impl View for DrawCommand {
    type V = Primitive;

    open spec fn view(&self) -> Primitive {
        match *self {
            DrawCommand::FillRect { x, y, width, height, color } => Primitive::FillRect {
                x: x as int,
                y: y as int,
                width: width as int,
                height: height as int,
                color,
            },
            DrawCommand::Line { x1, y1, x2, y2, color, thickness } => Primitive::Line {
                x1: x1 as int,
                y1: y1 as int,
                x2: x2 as int,
                y2: y2 as int,
                color,
                thickness: thickness as int,
            },
            DrawCommand::Text { content, x, y, color, size } => Primitive::Text {
                content: content@,
                x: x as int,
                y: y as int,
                color,
                size: size as int,
            },
        }
    }
}

/// The contents of a list of commands, in order.
pub open spec fn primitives(commands: Seq<DrawCommand>) -> Seq<Primitive> {
    commands.map_values(|c: DrawCommand| c@)
}

} // verus!
