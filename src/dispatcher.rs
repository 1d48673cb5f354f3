//! The platform dispatcher. Its thread checks and task queues are the
//! application's; the library holds only the handle.

use vstd::prelude::*;

verus! {

/// Handle through which tasks are dispatched to the platform.
#[derive(Clone, Copy, Debug, PartialEq, Eq, Structural)]
pub struct WindowsDispatcher {}

impl WindowsDispatcher {
    pub fn new() -> (r: WindowsDispatcher)
        ensures
            r == (WindowsDispatcher {}),
    {
        WindowsDispatcher {}
    }
}

} // verus!
