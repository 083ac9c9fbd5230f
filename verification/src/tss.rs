//! Where the task state segment stands.
//!
//! The segment is never used to switch tasks. The CPU asks for a valid one
//! whenever an interrupt or an exception arrives, so one is described in the
//! GDT and loaded into the task register once.

use vstd::prelude::*;

verus! {

/// Size in bytes of a 32-bit task state segment.
pub const TASK_STATE_SEGMENT_SIZE: u32 = 104;

/// Address and size of the task state segment, for its descriptor.
#[derive(Clone, Copy, Debug, PartialEq, Eq, Structural)]
pub struct TaskStateLocation {
    /// Linear address of the first byte.
    pub base: u32,
    /// What the descriptor holds as the limit, in bytes.
    pub size: u32,
}

impl TaskStateLocation {
    /// The location of a segment of the usual size at `base`.
    pub fn at(base: u32) -> (location: Self)
        ensures
            location == (TaskStateLocation { base, size: TASK_STATE_SEGMENT_SIZE }),
    {
        TaskStateLocation { base, size: TASK_STATE_SEGMENT_SIZE }
    }
}

} // verus!
