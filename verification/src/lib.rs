//! A decoder for the traces of a sampling profiler, and the state of the
//! window that shows them.
//!
//! [`perf_data_parser`] reads a `perf.data` trace: the file header, the
//! attribute section and the data section, whose memory-map records tell
//! where the profiled binary was loaded and whose sample records hold the
//! call stacks. The instruction pointers of a call stack are named from the
//! binary's debug data. The other modules hold what the window keeps of a
//! profile: the spans of time of the timeline, and the state of a tab.

pub mod perf_data_parser;
pub mod profile_page_view;
pub mod profile_setup_page;
pub mod profile_tab;
pub mod timeline_range;
pub mod timeline_row;
pub mod timeline_ticker;
pub mod timeline_view;
