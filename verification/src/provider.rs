//! What the filesystem asks of the runtime that hosts it.

use vstd::prelude::*;
use crate::types::TimeSpec;

verus! {

/// The services of the host runtime. The filesystem keeps its own time, so
/// an implementation is free in what it reports.
pub trait DbfsProvider: Send + Sync {
    /// The current time.
    fn current_time(&self) -> TimeSpec;
}

/// The provider that is used where the host offers nothing.
#[derive(Debug, Clone, Copy)]
pub struct DefaultDbfsProvider;

impl DbfsProvider for DefaultDbfsProvider {
    /// The start of the epoch, whenever it is asked.
    fn current_time(&self) -> (r: TimeSpec)
        ensures
            r == (TimeSpec { sec: 0, nsec: 0 }),
    {
        TimeSpec::default()
    }
}

} // verus!
