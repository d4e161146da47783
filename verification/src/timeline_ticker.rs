use crate::timeline_range::TimelineRange;
use vstd::prelude::*;

verus! {

/// The span of time that a ticker labels.
#[derive(Clone, Copy, Debug, PartialEq, Eq)]
pub struct TimelineTickerPrivate {
    pub time_range: TimelineRange,
}

/// The unit that a ticker's labels are written in.
#[derive(Clone, Copy, Debug, PartialEq, Eq)]
pub enum TickUnit {
    Milliseconds,
    Seconds,
    Minutes,
    Hours,
}

/// The unit for the labels of a span of `duration` milliseconds: the
/// largest one that the span holds at least once.
pub open spec fn unit_for(duration: u64) -> TickUnit {
    if duration < 1000 {
        TickUnit::Milliseconds
    } else if duration < 60000 {
        TickUnit::Seconds
    } else if duration < 3600000 {
        TickUnit::Minutes
    } else {
        TickUnit::Hours
    }
}

/// The distance in pixels from one tick to the next.
pub const TICK_SPACING: i32 = 10;

/// The distance in pixels from the ticker's edge to its first tick.
pub const TICK_MARGIN: i32 = 5;

impl TimelineTickerPrivate {
    /// The unit of the labels.
    pub fn tick_unit(&self) -> (r: TickUnit)
        requires
            self.time_range.imp.start <= self.time_range.imp.end,
        ensures
            r == unit_for((self.time_range.imp.end - self.time_range.imp.start) as u64),
    {
        let duration = self.time_range.duration();
        if duration < 1000 {
            TickUnit::Milliseconds
        } else if duration < 60000 {
            TickUnit::Seconds
        } else if duration < 3600000 {
            TickUnit::Minutes
        } else {
            TickUnit::Hours
        }
    }
}

/// The number of ticks of a ticker of `width` pixels: the ticks stand
/// `TICK_SPACING` apart, and `TICK_MARGIN` is kept free at both edges.
pub open spec fn tick_count(width: i32) -> int {
    if width <= 2 * TICK_MARGIN {
        0
    } else {
        (width - 2 * TICK_MARGIN + TICK_SPACING - 1) / (TICK_SPACING as int)
    }
}

/// The positions in pixels of the ticks of a ticker of `width` pixels, from
/// the first to the last.
pub fn tick_positions(width: i32) -> (r: Vec<i32>)
    ensures
        r.len() == tick_count(width),
        forall|i: int| 0 <= i < r.len() ==> #[trigger] r[i] == TICK_MARGIN + TICK_SPACING * i,
{
    let mut positions: Vec<i32> = Vec::new();
    if width <= 2 * TICK_MARGIN {
        return positions;
    }
    let mut position: i32 = TICK_MARGIN;
    while position < width - TICK_MARGIN
        invariant
            width > 2 * TICK_MARGIN,
            position == TICK_MARGIN + TICK_SPACING * positions.len(),
            position < width - TICK_MARGIN + TICK_SPACING,
            positions.len() <= tick_count(width),
            forall|i: int|
                0 <= i < positions.len() ==> #[trigger] positions[i] == TICK_MARGIN + TICK_SPACING
                    * i,
        decreases width - position + TICK_SPACING,
    {
        positions.push(position);
        position = position + TICK_SPACING;
    }
    positions
}

/// Whether the tick at `position` pixels is a longer one, which gets a label.
pub fn is_longer_tick(position: i32) -> (r: bool)
    ensures
        r == (position % 55 == 0),
{
    position % 55 == 0
}

} // verus!
