use crate::timeline_range::TimelineRange;
use vstd::prelude::*;

verus! {

/// What a timeline shows: the span of the whole profile, the span on
/// display, and the span that the user has selected in it, if any.
#[derive(Clone, Copy, Debug, PartialEq, Eq)]
pub struct TimelineViewPrivate {
    pub profile_time_range: TimelineRange,
    pub display_time_range: TimelineRange,
    pub selected_time_range: Option<TimelineRange>,
}

impl TimelineViewPrivate {
    /// A timeline that displays the whole of `profile_time_range`, with
    /// nothing selected.
    pub fn new(profile_time_range: TimelineRange) -> (r: Self)
        ensures
            r.profile_time_range == profile_time_range,
            r.display_time_range == profile_time_range,
            r.selected_time_range is None,
    {
        TimelineViewPrivate {
            profile_time_range,
            display_time_range: profile_time_range,
            selected_time_range: None,
        }
    }

    /// Displays another span. A selection was made in the span that was on
    /// display, so it is dropped.
    pub fn set_display_time_range(&mut self, value: TimelineRange)
        ensures
            final(self).display_time_range == value,
            final(self).selected_time_range is None,
            final(self).profile_time_range == old(self).profile_time_range,
    {
        self.display_time_range = value;
        self.selected_time_range = None;
    }

    /// Selects a span, or clears the selection.
    pub fn set_selected_time_range(&mut self, value: Option<TimelineRange>)
        ensures
            final(self).selected_time_range == value,
            final(self).display_time_range == old(self).display_time_range,
            final(self).profile_time_range == old(self).profile_time_range,
    {
        self.selected_time_range = value;
    }
}

} // verus!
