use vstd::prelude::*;

verus! {

/// The two ends of a span of time, in the unit of the samples' timestamps.
#[derive(Clone, Copy, Debug, PartialEq, Eq)]
pub struct TimelineRangePrivate {
    pub start: u64,
    pub end: u64,
}

/// A span of time on the timeline, both ends included.
#[derive(Clone, Copy, Debug, PartialEq, Eq)]
pub struct TimelineRange {
    pub imp: TimelineRangePrivate,
}

impl TimelineRange {
    /// The span from `start` to `end`.
    pub fn new(start: u64, end: u64) -> (r: Self)
        ensures
            r.imp.start == start,
            r.imp.end == end,
    {
        TimelineRange { imp: TimelineRangePrivate { start, end } }
    }

    /// The first timestamp of the span.
    pub fn start(&self) -> (r: u64)
        ensures
            r == self.imp.start,
    {
        self.imp.start
    }

    /// The last timestamp of the span.
    pub fn end(&self) -> (r: u64)
        ensures
            r == self.imp.end,
    {
        self.imp.end
    }

    /// The length of the span. A span that ends before it starts has none.
    pub fn duration(&self) -> (r: u64)
        requires
            self.imp.start <= self.imp.end,
        ensures
            r == self.imp.end - self.imp.start,
    {
        self.imp.end - self.imp.start
    }

    /// Whether `timestamp` lies in the span.
    pub fn contains(&self, timestamp: u64) -> (r: bool)
        ensures
            r == (self.imp.start <= timestamp <= self.imp.end),
    {
        self.imp.start <= timestamp && timestamp <= self.imp.end
    }
}

impl Default for TimelineRange {
    /// The span that holds the timestamp zero alone.
    fn default() -> (r: Self)
        ensures
            r.imp.start == 0,
            r.imp.end == 0,
    {
        TimelineRange { imp: TimelineRangePrivate { start: 0, end: 0 } }
    }
}

} // verus!
