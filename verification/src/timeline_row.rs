use crate::perf_data_parser::perf_json_parser::Sample;
use crate::timeline_range::TimelineRange;
use vstd::prelude::*;

verus! {

/// The samples of one row of the timeline.
pub struct TimelineRowPrivate {
    pub samples: Vec<Sample>,
}

impl TimelineRowPrivate {
    /// A row of `samples`.
    pub fn new(samples: Vec<Sample>) -> (r: Self)
        ensures
            r.samples == samples,
    {
        TimelineRowPrivate { samples }
    }

    /// The indices of the samples that were taken in `range`, in their
    /// order: the samples that the row shows while `range` is on display.
    pub fn samples_in(&self, range: &TimelineRange) -> (r: Vec<usize>)
        ensures
            forall|k: int|
                0 <= k < r.len() ==> (#[trigger] r[k]) < self.samples.len()
                    && range.imp.start <= self.samples[r[k] as int].timestamp <= range.imp.end,
            forall|k: int, l: int| 0 <= k < l < r.len() ==> r[k] < r[l],
            forall|i: int|
                0 <= i < self.samples.len() && range.imp.start
                    <= (#[trigger] self.samples[i]).timestamp <= range.imp.end ==> r@.contains(
                    i as usize,
                ),
    {
        let mut shown: Vec<usize> = Vec::new();
        let mut i: usize = 0;
        while i < self.samples.len()
            invariant
                i <= self.samples.len(),
                forall|k: int|
                    0 <= k < shown.len() ==> (#[trigger] shown[k]) < i && range.imp.start
                        <= self.samples[shown[k] as int].timestamp <= range.imp.end,
                forall|k: int, l: int| 0 <= k < l < shown.len() ==> shown[k] < shown[l],
                forall|j: int|
                    0 <= j < i && range.imp.start <= (#[trigger] self.samples[j]).timestamp
                        <= range.imp.end ==> shown@.contains(j as usize),
            decreases self.samples.len() - i,
        {
            if range.contains(self.samples[i].timestamp) {
                let ghost before = shown@;
                shown.push(i);
                assert(shown@[before.len() as int] == i);
                assert forall|j: int|
                    0 <= j < i + 1 && range.imp.start <= (#[trigger] self.samples[j]).timestamp
                        <= range.imp.end implies shown@.contains(j as usize) by {
                    if j < i {
                        let k = choose|k: int| 0 <= k < before.len() && before[k] == j as usize;
                        assert(shown@[k] == j as usize);
                    }
                }
            }
            i = i + 1;
        }
        shown
    }
}

} // verus!
