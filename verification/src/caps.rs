use vstd::prelude::*;

verus! {

/// Memory property bits, with the values the driver reports.
pub const MEMORY_PROPERTY_DEVICE_LOCAL: u32 = 0x1;
pub const MEMORY_PROPERTY_HOST_VISIBLE: u32 = 0x2;
pub const MEMORY_PROPERTY_HOST_COHERENT: u32 = 0x4;
pub const MEMORY_PROPERTY_HOST_CACHED: u32 = 0x8;
pub const MEMORY_PROPERTY_LAZILY_ALLOCATED: u32 = 0x10;

/// Queue capability bits, with the values the driver reports.
pub const QUEUE_GRAPHICS: u32 = 0x1;
pub const QUEUE_COMPUTE: u32 = 0x2;
pub const QUEUE_TRANSFER: u32 = 0x4;

/// One memory heap of an adapter, indexed by its position in the heap list.
#[derive(Clone, Copy, Debug, PartialEq, Eq, Structural)]
pub struct MemoryHeap {
    /// Heap size in bytes.
    pub size: u64,
    /// Whether the heap lives in device-local memory.
    pub device_local: bool,
}

/// One memory type of an adapter, indexed by its position in the type list.
#[derive(Clone, Copy, Debug, PartialEq, Eq, Structural)]
pub struct MemoryType {
    /// The heap this type allocates from, as an index into the heap list.
    pub heap_index: u32,
    /// A mask of `MEMORY_PROPERTY_*` bits.
    pub property_flags: u32,
}

/// One queue family of an adapter, indexed by its position in the family list.
#[derive(Clone, Copy, Debug, PartialEq, Eq, Structural)]
pub struct QueueFamily {
    /// How many queues the family offers.
    pub queue_count: u32,
    /// A mask of `QUEUE_*` capability bits.
    pub capability_flags: u32,
}

/// Whether a memory type's property mask includes every bit of `required`.
pub open spec fn memory_type_has_properties(t: MemoryType, required: u32) -> bool {
    t.property_flags & required == required
}

/// Whether a queue family's capability mask includes every bit of `required`.
pub open spec fn queue_family_supports(f: QueueFamily, required: u32) -> bool {
    f.capability_flags & required == required
}

impl MemoryType {
    /// Whether this type's property mask includes every bit of `required`.
    pub fn has_properties(&self, required: u32) -> (r: bool)
        ensures
            r == memory_type_has_properties(*self, required),
    {
        self.property_flags & required == required
    }

    /// Whether host writes through a mapping of this type reach the device
    /// only after an explicit flush. Host visibility never implies
    /// coherence, so a writer must ask this of the selected type.
    pub fn needs_explicit_flush(&self) -> (r: bool)
        ensures
            r == !memory_type_has_properties(*self, MEMORY_PROPERTY_HOST_COHERENT),
    {
        self.property_flags & MEMORY_PROPERTY_HOST_COHERENT != MEMORY_PROPERTY_HOST_COHERENT
    }
}

impl QueueFamily {
    /// Whether this family's capability mask includes every bit of `required`.
    pub fn supports(&self, required: u32) -> (r: bool)
        ensures
            r == queue_family_supports(*self, required),
    {
        self.capability_flags & required == required
    }
}

/// Everything the bootstrap reads of one physical adapter, captured as plain
/// values when the adapter is enumerated.
#[derive(Debug)]
pub struct AdapterInfo {
    /// The adapter name as the driver reports it: a byte array that is
    /// terminated by a zero byte unless the name fills it completely.
    pub name: Vec<u8>,
    /// The memory heaps, in index order.
    pub memory_heaps: Vec<MemoryHeap>,
    /// The memory types, in index order.
    pub memory_types: Vec<MemoryType>,
    /// The queue families, in index order.
    pub queue_families: Vec<QueueFamily>,
}

impl AdapterInfo {
    /// Every memory type's heap index resolves to a heap in the heap list.
    pub open spec fn well_formed(self) -> bool {
        forall|i: int|
            0 <= i < self.memory_types@.len() ==> (
            #[trigger] self.memory_types@[i]).heap_index < self.memory_heaps@.len()
    }
}

} // verus!
