//! A bar chart of labelled values against a common maximum.

use vstd::prelude::*;
use crate::color::Color;
use crate::scalar::{saturate_i32, Scalar};

verus! {

/// Height of every bar, in pixels.
pub const BAR_HEIGHT: u32 = 10;

/// The data of a chart: one coloured value per bar, the value that a bar of
/// full length stands for, that length in pixels, and the horizontal
/// position that the bars start from.
#[derive(Clone, Debug, PartialEq, Eq)]
pub struct Graph {
    pub data: Vec<(Color, Scalar)>,
    pub max: Scalar,
    pub bar_max: i32,
    pub bar_x: i32,
}

/// A filled rectangle of the chart, by its upper left corner and its size.
#[derive(Clone, Copy, Debug, PartialEq, Eq, Structural)]
pub struct Bar {
    pub color: Color,
    pub x: i32,
    pub y: i32,
    pub width: u32,
    pub height: u32,
}

/// Signed length in pixels of the bar for `value`: `(value / max) * bar_max`.
pub open spec fn bar_length(value: Scalar, max: Scalar, bar_max: i32) -> Scalar {
    value.div(max).mul(Scalar::from_i32(bar_max))
}

/// The bar at `row` for `datum`. Rows are `BAR_HEIGHT` apart. A positive
/// value gives a bar that starts at `bar_x` and runs right; any other value
/// gives a bar that ends at `bar_x`. Coordinates beyond the range of `i32`
/// stop at its ends.
pub open spec fn bar_at(datum: (Color, Scalar), row: int, max: Scalar, bar_max: i32, bar_x: i32) -> Bar {
    let length = bar_length(datum.1, max, bar_max);
    let y = saturate_i32(row * BAR_HEIGHT);
    if length.raw > 0 {
        Bar { color: datum.0, x: bar_x, y, width: length.to_u32(), height: BAR_HEIGHT }
    } else {
        Bar {
            color: datum.0,
            x: saturate_i32(bar_x + length.to_i32()),
            y,
            width: length.abs().to_u32(),
            height: BAR_HEIGHT,
        }
    }
}

impl Graph {
    /// A chart of `data`.
    pub fn new(data: Vec<(Color, Scalar)>, max: Scalar, bar_max: i32, bar_x: i32) -> (graph: Graph)
        ensures
            graph.data@ == data@,
            graph.max == max,
            graph.bar_max == bar_max,
            graph.bar_x == bar_x,
    {
        Graph { data, max, bar_max, bar_x }
    }

    /// The bars of the chart, one per datum, from the top down.
    pub open spec fn bars(self) -> Seq<Bar> {
        Seq::new(
            self.data@.len(),
            |row: int| bar_at(self.data@[row], row, self.max, self.bar_max, self.bar_x),
        )
    }

    /// Lays out the bars of the chart.
    pub fn draw(&self) -> (bars: Vec<Bar>)
        ensures
            bars@ == self.bars(),
    {
        let mut bars: Vec<Bar> = Vec::new();
        let mut y: i32 = 0;
        let mut row: usize = 0;
        while row < self.data.len()
            invariant
                row <= self.data.len(),
                y == saturate_i32(row * BAR_HEIGHT),
                bars@ == self.bars().take(row as int),
            decreases self.data.len() - row,
        {
            let datum = self.data[row];
            let length = datum.1.div(self.max).mul(Scalar::from_i32(self.bar_max));
            let bar = if length.raw > 0 {
                Bar { color: datum.0, x: self.bar_x, y, width: length.to_u32(), height: BAR_HEIGHT }
            } else {
                let x: i64 = self.bar_x as i64 + length.to_i32() as i64;
                Bar {
                    color: datum.0,
                    x: if x > 0x7fff_ffff {
                        i32::MAX
                    } else if x < -0x8000_0000 {
                        i32::MIN
                    } else {
                        x as i32
                    },
                    y,
                    width: length.abs().to_u32(),
                    height: BAR_HEIGHT,
                }
            };
            assert(self.bars().take(row + 1) == self.bars().take(row as int).push(bar));
            bars.push(bar);
            y = if y > 0x7fff_ffff - 10 {
                i32::MAX
            } else {
                y + 10
            };
            row += 1;
        }
        assert(self.bars().take(row as int) == self.bars());
        bars
    }
}

} // verus!
