use vstd::prelude::*;

use crate::caps::{MemoryType, MEMORY_PROPERTY_HOST_VISIBLE};
use crate::error::GpuError;
use crate::select::{first_suitable_memory_type, memory_type_suitable, select_memory_type};

verus! {

/// What the driver reports a buffer needs of its backing memory.
#[derive(Clone, Copy, Debug, PartialEq, Eq, Structural)]
pub struct MemoryRequirements {
    /// The allocation size in bytes; may exceed the requested buffer size
    /// because of alignment.
    pub size: u64,
    /// The required alignment in bytes.
    pub alignment: u64,
    /// Bit `i` is set when memory type `i` can back the buffer.
    pub memory_type_bits: u32,
}

/// One device memory allocation, sized for exactly one buffer and owned by
/// that buffer until teardown takes it over.
#[derive(Clone, Copy, Debug, PartialEq, Eq, Structural)]
pub struct DeviceMemory {
    /// The driver's raw allocation handle.
    pub handle: u64,
    /// The allocation size in bytes.
    pub size: u64,
    /// The memory type the allocation was made from.
    pub memory_type_index: u32,
}

/// What the allocator decided for one buffer: how much to allocate and from
/// which memory type.
#[derive(Clone, Copy, Debug, PartialEq, Eq, Structural)]
pub struct AllocationPlan {
    /// The size to allocate: the requirement's reported size, not the
    /// requested buffer size.
    pub allocation_size: u64,
    /// The selected memory type index.
    pub memory_type_index: u32,
}

/// Where a buffer stands in its lifecycle.
#[derive(Clone, Copy, Debug, PartialEq, Eq, Structural)]
pub enum BufferState {
    /// Created, no backing memory bound yet.
    Created,
    /// Bound to its backing memory at offset zero.
    Bound,
    /// Bound, and mapped into host address space.
    Mapped,
}

/// One buffer and the lifecycle bookkeeping the teardown rules need. A size
/// of zero is accepted and stands for an empty buffer: every step of the
/// lifecycle treats it like any other size, and a payload write into it is
/// rejected as too large rather than undefined.
#[derive(Clone, Copy, Debug, PartialEq, Eq, Structural)]
pub struct Buffer {
    /// The driver's raw buffer handle.
    pub handle: u64,
    /// The size requested for the buffer, in bytes.
    pub size_bytes: u64,
    /// The backing allocation, present once the buffer is bound.
    pub backing: Option<DeviceMemory>,
    /// Lifecycle position.
    pub state: BufferState,
}

impl Buffer {
    /// A buffer has backing memory exactly when it has been bound.
    pub open spec fn well_formed(self) -> bool {
        self.backing is Some <==> (self.state == BufferState::Bound || self.state
            == BufferState::Mapped)
    }

    /// Record a freshly created, unbound buffer.
    pub fn new(handle: u64, size_bytes: u64) -> (b: Buffer)
        ensures
            b.well_formed(),
            b.handle == handle,
            b.size_bytes == size_bytes,
            b.state == BufferState::Created,
            b.backing is None,
    {
        Buffer { handle, size_bytes, backing: None, state: BufferState::Created }
    }

    /// Record that the buffer was bound to `memory` at offset zero. A buffer
    /// is bound exactly once, before any mapping.
    pub fn bind_memory(&mut self, memory: DeviceMemory)
        requires
            old(self).well_formed(),
            old(self).state == BufferState::Created,
        ensures
            final(self).well_formed(),
            final(self).state == BufferState::Bound,
            final(self).backing == Some(memory),
            final(self).handle == old(self).handle,
            final(self).size_bytes == old(self).size_bytes,
    {
        self.backing = Some(memory);
        self.state = BufferState::Bound;
    }

    /// Record that the buffer's full bound range was mapped into host
    /// address space. Only a bound, unmapped buffer can be mapped.
    pub fn map_memory(&mut self)
        requires
            old(self).well_formed(),
            old(self).state == BufferState::Bound,
        ensures
            final(self).well_formed(),
            final(self).state == BufferState::Mapped,
            final(self).backing == old(self).backing,
            final(self).handle == old(self).handle,
            final(self).size_bytes == old(self).size_bytes,
    {
        self.state = BufferState::Mapped;
    }

    /// Record that the mapping was released. Only a mapped buffer can be
    /// unmapped.
    pub fn unmap_memory(&mut self)
        requires
            old(self).well_formed(),
            old(self).state == BufferState::Mapped,
        ensures
            final(self).well_formed(),
            final(self).state == BufferState::Bound,
            final(self).backing == old(self).backing,
            final(self).handle == old(self).handle,
            final(self).size_bytes == old(self).size_bytes,
    {
        self.state = BufferState::Bound;
    }

    /// Record the buffer's destruction and hand its backing memory, if any,
    /// to the teardown path, which must free it afterwards. A mapped buffer
    /// must be unmapped first: it is never destroyed while mapped.
    pub fn into_teardown(self) -> (memory: Option<DeviceMemory>)
        requires
            self.well_formed(),
            self.state != BufferState::Mapped,
        ensures
            memory == self.backing,
            self.state == BufferState::Bound ==> memory is Some,
            self.state == BufferState::Created ==> memory is None,
    {
        self.backing
    }
}

/// Decide how to back a buffer: take the first memory type that is
/// compatible with the requirement mask and host-visible, and allocate the
/// requirement's reported size from it. Host visibility is guaranteed;
/// coherence is not, so a caller must flush writes itself where the selected
/// type lacks the coherent property.
pub fn plan_allocation(requirements: &MemoryRequirements, types: &Vec<MemoryType>) -> (r: Result<
    AllocationPlan,
    GpuError,
>)
    requires
        types@.len() <= 32,
    ensures
        match r {
            Ok(plan) => {
                &&& plan.allocation_size == requirements.size
                &&& first_suitable_memory_type(
                    requirements.memory_type_bits,
                    types@,
                    MEMORY_PROPERTY_HOST_VISIBLE,
                    plan.memory_type_index as int,
                )
            },
            Err(e) => {
                &&& e == GpuError::NoSuitableMemoryType
                &&& forall|j: int|
                    !memory_type_suitable(
                        requirements.memory_type_bits,
                        types@,
                        MEMORY_PROPERTY_HOST_VISIBLE,
                        j,
                    )
            },
        },
{
    let memory_type_index = select_memory_type(
        requirements.memory_type_bits,
        types,
        MEMORY_PROPERTY_HOST_VISIBLE,
    )?;
    Ok(AllocationPlan { allocation_size: requirements.size, memory_type_index })
}

/// One driver call of the teardown path.
#[derive(Clone, Copy, Debug, PartialEq, Eq, Structural)]
pub enum TeardownStep {
    /// Destroy the buffer object.
    DestroyBuffer,
    /// Free the buffer's backing allocation.
    FreeMemory,
    /// Destroy the logical device and its queue.
    DestroyDevice,
    /// Destroy the top-level instance the device was derived from.
    DestroyInstance,
}

/// The teardown calls, in the order they must be made: the reverse of the
/// creation order. The buffer steps appear exactly when a buffer was
/// created.
pub open spec fn spec_teardown_steps(buffer_created: bool) -> Seq<TeardownStep> {
    if buffer_created {
        seq![
            TeardownStep::DestroyBuffer,
            TeardownStep::FreeMemory,
            TeardownStep::DestroyDevice,
            TeardownStep::DestroyInstance,
        ]
    } else {
        seq![TeardownStep::DestroyDevice, TeardownStep::DestroyInstance]
    }
}

/// Decide the teardown order. The caller makes one driver call per step, in
/// order; each handle is destroyed exactly once.
pub fn teardown_steps(buffer_created: bool) -> (steps: Vec<TeardownStep>)
    ensures
        steps@ == spec_teardown_steps(buffer_created),
{
    let mut steps: Vec<TeardownStep> = Vec::new();
    if buffer_created {
        steps.push(TeardownStep::DestroyBuffer);
        steps.push(TeardownStep::FreeMemory);
    }
    steps.push(TeardownStep::DestroyDevice);
    steps.push(TeardownStep::DestroyInstance);
    proof {
        assert(steps@ =~= spec_teardown_steps(buffer_created));
    }
    steps
}

/// The teardown order law: in every teardown, the memory is freed strictly
/// after the buffer is destroyed, the device is destroyed strictly after
/// both, and the instance is destroyed strictly after the device; each step
/// occurs at most once, and the device and instance steps always occur.
pub proof fn lemma_teardown_order(buffer_created: bool)
    ensures
        ({
            let steps = spec_teardown_steps(buffer_created);
            &&& forall|i: int, j: int|
                0 <= i < steps.len() && 0 <= j < steps.len() && steps[i]
                    == TeardownStep::DestroyBuffer && steps[j] == TeardownStep::FreeMemory
                    ==> i < j
            &&& forall|i: int, j: int|
                0 <= i < steps.len() && 0 <= j < steps.len() && (steps[i]
                    == TeardownStep::DestroyBuffer || steps[i] == TeardownStep::FreeMemory)
                    && steps[j] == TeardownStep::DestroyDevice ==> i < j
            &&& forall|i: int, j: int|
                0 <= i < steps.len() && 0 <= j < steps.len() && steps[i]
                    == TeardownStep::DestroyDevice && steps[j] == TeardownStep::DestroyInstance
                    ==> i < j
            &&& forall|i: int, j: int|
                0 <= i < steps.len() && 0 <= j < steps.len() && steps[i] == steps[j] ==> i == j
            &&& exists|i: int| 0 <= i < steps.len() && steps[i] == TeardownStep::DestroyDevice
            &&& exists|i: int| 0 <= i < steps.len() && steps[i] == TeardownStep::DestroyInstance
        }),
{
    let steps = spec_teardown_steps(buffer_created);
    if buffer_created {
        assert(steps[2] == TeardownStep::DestroyDevice);
        assert(steps[3] == TeardownStep::DestroyInstance);
    } else {
        assert(steps[0] == TeardownStep::DestroyDevice);
        assert(steps[1] == TeardownStep::DestroyInstance);
    }
}

} // verus!
