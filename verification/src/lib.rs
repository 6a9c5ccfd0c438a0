//! Core engine of a log-tailing tool: it discovers the log groups of a remote
//! log service whose names contain a filter string, polls each group for
//! recent events over a sliding lookback window, suppresses duplicates caused
//! by the overlapping windows, and hands novel events to a display sink.
//!
//! This crate holds the verified logic only: catalog pagination and
//! filtering, duplicate suppression with bounded memory, error
//! classification, and the scheduler's per-cycle decisions.  The remote
//! calls, the pacing sleeps and the terminal rendering live in the
//! surrounding binary, which drives the state machines defined here.

use vstd::prelude::*;

pub mod catalog;
pub mod dedup;
pub mod errors;
pub mod event;
pub mod scheduler;
pub mod text;

verus! {

/// Options of the watch command: an optional substring that group names
/// must contain; absent means every group is watched.
pub struct Watch {
    pub input: Option<String>,
}

impl Watch {
    /// The name filter to apply: the given substring, or the empty string
    /// (which matches every name) when none was given.
    pub fn filter(&self) -> (f: String)
        ensures
            f@ == match self.input {
                Some(s) => s@,
                None => Seq::<char>::empty(),
            },
    {
        match &self.input {
            Some(s) => s.clone(),
            None => String::new(),
        }
    }
}

} // verus!
