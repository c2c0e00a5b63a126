//! A guard that carries a terminal-cleanup action to run at shutdown.

use vstd::prelude::*;

verus! {

/// Holds a cleanup action until the session ends; `finish` runs it
/// exactly once.
pub struct OnShutdown<F: FnOnce() -> Result<(), String>> {
    pub action: F,
}

impl<F: FnOnce() -> Result<(), String>> OnShutdown<F> {
    /// Wrap a cleanup action.
    pub fn new(action: F) -> (r: Self)
        ensures
            r.action == action,
    {
        OnShutdown { action }
    }

    /// Run the cleanup action and hand back what it reported.
    pub fn finish(self) -> (r: Result<(), String>)
        requires
            call_requires(self.action, ()),
        ensures
            call_ensures(self.action, (), r),
    {
        (self.action)()
    }
}

} // verus!
