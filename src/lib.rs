//! Watches clipboard text for URLs and decides which ones to record.
//!
//! The library holds the decisions: how a failed clipboard read is classified,
//! whether a new clipboard value is a URL worth persisting, and how the polling
//! loop reacts to each event. Reading the clipboard, waiting for timer ticks and
//! writing to storage are left to the caller, which feeds the outcomes back in.
use vstd::prelude::*;

pub mod clipboard;
pub mod url_text;
pub mod pipeline;
pub mod poller;

verus! {

/// Time between two clipboard samples when none is configured, in milliseconds.
pub const DEFAULT_POLL_INTERVAL_MILLISECONDS: u64 = 5000;

} // verus!
