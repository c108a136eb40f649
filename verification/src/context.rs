use vstd::prelude::*;

verus! {

/// The logical device context: one device handle and the one queue handle
/// bound to the selected family. It is created once per run, after adapter
/// and queue-family selection, and must be destroyed exactly once, after
/// every buffer and allocation derived from it — see the teardown order —
/// and before the top-level instance it was derived from.
#[derive(Clone, Copy, Debug, PartialEq, Eq, Structural)]
pub struct LogicalContext {
    /// The driver's raw device handle.
    pub device_handle: u64,
    /// The driver's raw queue handle.
    pub queue_handle: u64,
    /// The queue family the queue was taken from. Exactly one queue is
    /// requested from it, at full priority.
    pub queue_family_index: usize,
}

impl LogicalContext {
    /// Record a freshly created logical device and its single queue.
    pub fn new(device_handle: u64, queue_handle: u64, queue_family_index: usize) -> (c:
        LogicalContext)
        ensures
            c.device_handle == device_handle,
            c.queue_handle == queue_handle,
            c.queue_family_index == queue_family_index,
    {
        LogicalContext { device_handle, queue_handle, queue_family_index }
    }
}

} // verus!
