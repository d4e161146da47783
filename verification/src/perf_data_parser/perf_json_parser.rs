use crate::timeline_range::{TimelineRange, TimelineRangePrivate};
use vstd::prelude::*;

verus! {

/// A profile that another tool has converted to text: what was captured,
/// and the samples with their call chains already named.
#[derive(Clone, Debug, PartialEq, Eq)]
pub struct Profile {
    pub headers: Headers,
    pub samples: Vec<Sample>,
}

/// Where and how a profile was captured.
#[derive(Clone, Debug, PartialEq, Eq)]
pub struct Headers {
    pub captured_on: String,
    pub hostname: String,
    pub os_release: String,
    pub arch: String,
    pub cpu_desc: String,
    pub cpuid: String,
    pub nrcpus_online: u16,
    pub nrcpus_avail: u16,
    pub perf_version: String,
    pub cmdline: Vec<String>,
}

/// One captured call stack of a converted profile.
#[derive(Clone, Debug, PartialEq, Eq)]
pub struct Sample {
    pub timestamp: u64,
    pub tid: u32,
    pub callchain: Vec<Symbol>,
}

/// One frame of a call chain: its instruction pointer in hexadecimal, and
/// the function and the module that it lies in, where they are known.
#[derive(Clone, Debug, PartialEq, Eq)]
pub struct Symbol {
    pub ip: String,
    pub symbol: Option<String>,
    pub dso: Option<String>,
}

/// Whether `range` is the span of time that `samples` were taken in: it
/// starts with the earliest of them and ends with the latest.
pub open spec fn spans(range: TimelineRange, samples: Seq<Sample>) -> bool {
    &&& forall|i: int|
        0 <= i < samples.len() ==> range.imp.start <= (#[trigger] samples[i]).timestamp
            <= range.imp.end
    &&& exists|i: int| 0 <= i < samples.len() && (#[trigger] samples[i]).timestamp == range.imp.start
    &&& exists|i: int| 0 <= i < samples.len() && (#[trigger] samples[i]).timestamp == range.imp.end
}

impl Profile {
    /// The span of time that the profile's samples were taken in. A profile
    /// without samples has none.
    pub fn time_range(&self) -> (r: Option<TimelineRange>)
        ensures
            match r {
                Some(range) => spans(range, self.samples@),
                None => self.samples.len() == 0,
            },
    {
        if self.samples.len() == 0 {
            return None;
        }
        let mut start: u64 = self.samples[0].timestamp;
        let mut end: u64 = start;
        let mut i: usize = 1;
        while i < self.samples.len()
            invariant
                1 <= i <= self.samples.len(),
                forall|j: int|
                    0 <= j < i ==> start <= (#[trigger] self.samples[j]).timestamp <= end,
                exists|j: int| 0 <= j < i && (#[trigger] self.samples[j]).timestamp == start,
                exists|j: int| 0 <= j < i && (#[trigger] self.samples[j]).timestamp == end,
            decreases self.samples.len() - i,
        {
            let timestamp = self.samples[i].timestamp;
            if timestamp < start {
                start = timestamp;
            }
            if timestamp > end {
                end = timestamp;
            }
            i = i + 1;
        }
        Some(TimelineRange { imp: TimelineRangePrivate { start, end } })
    }
}

} // verus!
