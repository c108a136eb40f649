use vstd::prelude::*;

verus! {

/// The failure taxonomy of the bootstrap sequence. Every error is fatal:
/// nothing is retried, and the caller is expected to tear down whatever was
/// created so far and stop.
#[derive(Clone, Copy, Debug, PartialEq, Eq, Structural)]
pub enum GpuError {
    /// Enumerating the hardware adapters failed in the driver.
    EnumerationFailed,
    /// The adapter list was empty.
    NoAdapterAvailable,
    /// No queue family advertises the required capability.
    NoMatchingQueueFamily,
    /// Creating the logical device failed in the driver.
    DeviceCreationFailed,
    /// No memory type is both compatible with the buffer and host-visible.
    NoSuitableMemoryType,
    /// The device memory allocation failed in the driver.
    AllocationFailed,
    /// Binding the buffer to its allocation failed in the driver.
    BindFailed,
    /// Mapping the allocation into host address space failed in the driver.
    MapFailed,
    /// The payload does not fit into the mapped region.
    PayloadTooLarge,
}

impl GpuError {
    /// The diagnostic text for this error.
    pub open spec fn spec_message(self) -> Seq<char> {
        match self {
            GpuError::EnumerationFailed => "failed to enumerate adapters"@,
            GpuError::NoAdapterAvailable => "no adapter available"@,
            GpuError::NoMatchingQueueFamily => "no matching queue family"@,
            GpuError::DeviceCreationFailed => "device creation failed"@,
            GpuError::NoSuitableMemoryType => "no suitable memory type"@,
            GpuError::AllocationFailed => "memory allocation failed"@,
            GpuError::BindFailed => "failed to bind buffer memory"@,
            GpuError::MapFailed => "failed to map memory"@,
            GpuError::PayloadTooLarge => "payload too large for buffer"@,
        }
    }

    /// A short description of the error, for the caller's report.
    pub fn message(&self) -> (m: &'static str)
        ensures
            m@ == self.spec_message(),
    {
        match self {
            GpuError::EnumerationFailed => "failed to enumerate adapters",
            GpuError::NoAdapterAvailable => "no adapter available",
            GpuError::NoMatchingQueueFamily => "no matching queue family",
            GpuError::DeviceCreationFailed => "device creation failed",
            GpuError::NoSuitableMemoryType => "no suitable memory type",
            GpuError::AllocationFailed => "memory allocation failed",
            GpuError::BindFailed => "failed to bind buffer memory",
            GpuError::MapFailed => "failed to map memory",
            GpuError::PayloadTooLarge => "payload too large for buffer",
        }
    }
}

} // verus!
