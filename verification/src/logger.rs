use vstd::prelude::*;

use crate::caps::{
    AdapterInfo, QueueFamily, MEMORY_PROPERTY_DEVICE_LOCAL,
    MEMORY_PROPERTY_HOST_CACHED, MEMORY_PROPERTY_HOST_COHERENT, MEMORY_PROPERTY_HOST_VISIBLE,
    MEMORY_PROPERTY_LAZILY_ALLOCATED, QUEUE_COMPUTE, QUEUE_GRAPHICS, QUEUE_TRANSFER,
};

verus! {

/// Messages at or below this severity are suppressed; the caller prints only
/// what `enabled` accepts.
pub const LOG_LEVEL: u8 = 3;

/// The severity of one log message.
#[derive(Clone, Copy, Debug, PartialEq, Eq, Structural)]
pub enum Logger {
    /// Trace output, suppressed at the default level.
    Empty,
    /// A fatal failure.
    Error,
    /// A recovery note.
    Fix,
    /// An informational report.
    Info,
}

impl Logger {
    /// Whether the configured level lets this severity through.
    pub open spec fn spec_enabled(self) -> bool {
        match self {
            Logger::Empty => LOG_LEVEL > 3,
            Logger::Info => LOG_LEVEL > 2,
            Logger::Fix => LOG_LEVEL > 1,
            Logger::Error => LOG_LEVEL > 0,
        }
    }

    /// Decide whether a message of this severity is printed at all.
    pub fn enabled(&self) -> (r: bool)
        ensures
            r == self.spec_enabled(),
    {
        match self {
            Logger::Empty => LOG_LEVEL > 3,
            Logger::Info => LOG_LEVEL > 2,
            Logger::Fix => LOG_LEVEL > 1,
            Logger::Error => LOG_LEVEL > 0,
        }
    }

    /// The 256-colour palette index that marks this severity in the output.
    pub fn color_index(&self) -> (c: u8)
        ensures
            c == match *self {
                Logger::Empty => 44u8,
                Logger::Info => 5u8,
                Logger::Fix => 2u8,
                Logger::Error => 1u8,
            },
    {
        match self {
            Logger::Empty => 44,
            Logger::Info => 5,
            Logger::Fix => 2,
            Logger::Error => 1,
        }
    }
}

/// One named memory property of a reported memory type, in the order the
/// report lists them.
#[derive(Clone, Copy, Debug, PartialEq, Eq, Structural)]
pub enum MemoryProperty {
    /// The type is device-local.
    DeviceLocal,
    /// The type is visible to the host.
    HostVisible,
    /// Host writes need no explicit flush.
    HostCoherent,
    /// The type is cached on the host.
    HostCached,
    /// The type is backed lazily.
    LazilyAllocated,
}

/// The descriptive record of one memory type: which heap kind backs it, how
/// large that heap is, and which properties it advertises.
#[derive(Debug, PartialEq, Eq)]
pub struct MemoryTypeReport {
    /// Whether the backing heap is device-local video memory rather than
    /// system memory.
    pub heap_device_local: bool,
    /// The backing heap's size in whole mebibytes.
    pub heap_size_mb: u64,
    /// The properties the type advertises, in report order.
    pub properties: Vec<MemoryProperty>,
}

/// The descriptive record of one queue family: its queue count and its
/// capabilities, in report order.
#[derive(Debug, PartialEq, Eq)]
pub struct QueueFamilyReport {
    /// How many queues the family offers.
    pub queue_count: u32,
    /// The capabilities the family advertises, in report order.
    pub capabilities: Vec<QueueCapability>,
}

/// One named capability of a reported queue family.
#[derive(Clone, Copy, Debug, PartialEq, Eq, Structural)]
pub enum QueueCapability {
    /// The family accepts graphics work.
    Graphics,
    /// The family accepts compute work.
    Compute,
    /// The family accepts transfer work.
    Transfer,
}

/// The properties a memory type's mask advertises, in report order.
pub open spec fn spec_properties_list(flags: u32) -> Seq<MemoryProperty> {
    (if flags & MEMORY_PROPERTY_DEVICE_LOCAL != 0 {
        seq![MemoryProperty::DeviceLocal]
    } else {
        Seq::empty()
    }) + (if flags & MEMORY_PROPERTY_HOST_VISIBLE != 0 {
        seq![MemoryProperty::HostVisible]
    } else {
        Seq::empty()
    }) + (if flags & MEMORY_PROPERTY_HOST_COHERENT != 0 {
        seq![MemoryProperty::HostCoherent]
    } else {
        Seq::empty()
    }) + (if flags & MEMORY_PROPERTY_HOST_CACHED != 0 {
        seq![MemoryProperty::HostCached]
    } else {
        Seq::empty()
    }) + (if flags & MEMORY_PROPERTY_LAZILY_ALLOCATED != 0 {
        seq![MemoryProperty::LazilyAllocated]
    } else {
        Seq::empty()
    })
}

/// The capabilities a queue family's mask advertises, in report order.
pub open spec fn spec_capabilities_list(flags: u32) -> Seq<QueueCapability> {
    (if flags & QUEUE_GRAPHICS != 0 {
        seq![QueueCapability::Graphics]
    } else {
        Seq::empty()
    }) + (if flags & QUEUE_COMPUTE != 0 {
        seq![QueueCapability::Compute]
    } else {
        Seq::empty()
    }) + (if flags & QUEUE_TRANSFER != 0 {
        seq![QueueCapability::Transfer]
    } else {
        Seq::empty()
    })
}

/// The capability inspector: it turns what the driver reports of an adapter
/// into plain descriptive records, and computes nothing else.
pub struct VkLog;

impl VkLog {
    /// The adapter's name: the longest prefix of the raw name bytes that
    /// holds no terminating zero byte.
    pub fn gpu_name(raw_name: &Vec<u8>) -> (name: Vec<u8>)
        ensures
            name@.len() <= raw_name@.len(),
            name@ == raw_name@.take(name@.len() as int),
            forall|i: int| 0 <= i < name@.len() ==> name@[i] != 0,
            name@.len() < raw_name@.len() ==> raw_name@[name@.len() as int] == 0,
    {
        let mut name: Vec<u8> = Vec::new();
        let mut i: usize = 0;
        while i < raw_name.len()
            invariant
                i <= raw_name@.len(),
                name@.len() == i,
                name@ == raw_name@.take(i as int),
                forall|j: int| 0 <= j < i ==> raw_name@[j] != 0,
            decreases raw_name@.len() - i,
        {
            let b = raw_name[i];
            if b == 0 {
                return name;
            }
            name.push(b);
            proof {
                assert(name@ =~= raw_name@.take(i as int + 1));
            }
            i = i + 1;
        }
        name
    }

    /// Report every memory type of the adapter, in index order: the kind and
    /// size of its backing heap and the properties it advertises.
    pub fn memory(adapter: &AdapterInfo) -> (reports: Vec<MemoryTypeReport>)
        requires
            adapter.well_formed(),
        ensures
            reports@.len() == adapter.memory_types@.len(),
            forall|i: int|
                0 <= i < reports@.len() ==> {
                    let t = adapter.memory_types@[i];
                    let h = adapter.memory_heaps@[t.heap_index as int];
                    &&& (#[trigger] reports@[i]).heap_device_local == h.device_local
                    &&& reports@[i].heap_size_mb == h.size / 1024 / 1024
                    &&& reports@[i].properties@ == spec_properties_list(t.property_flags)
                },
    {
        let mut reports: Vec<MemoryTypeReport> = Vec::new();
        let mut i: usize = 0;
        while i < adapter.memory_types.len()
            invariant
                adapter.well_formed(),
                i <= adapter.memory_types@.len(),
                reports@.len() == i,
                forall|k: int|
                    0 <= k < i ==> {
                        let t = adapter.memory_types@[k];
                        let h = adapter.memory_heaps@[t.heap_index as int];
                        &&& (#[trigger] reports@[k]).heap_device_local == h.device_local
                        &&& reports@[k].heap_size_mb == h.size / 1024 / 1024
                        &&& reports@[k].properties@ == spec_properties_list(t.property_flags)
                    },
            decreases adapter.memory_types@.len() - i,
        {
            let t = adapter.memory_types[i];
            let h = adapter.memory_heaps[t.heap_index as usize];
            let properties = properties_of(t.property_flags);
            reports.push(
                MemoryTypeReport {
                    heap_device_local: h.device_local,
                    heap_size_mb: h.size / 1024 / 1024,
                    properties,
                },
            );
            i = i + 1;
        }
        reports
    }

    /// Report every queue family of the adapter, in index order: its queue
    /// count and the capabilities it advertises.
    pub fn queue_families(families: &Vec<QueueFamily>) -> (reports: Vec<QueueFamilyReport>)
        ensures
            reports@.len() == families@.len(),
            forall|i: int|
                0 <= i < reports@.len() ==> {
                    &&& (#[trigger] reports@[i]).queue_count == families@[i].queue_count
                    &&& reports@[i].capabilities@ == spec_capabilities_list(
                        families@[i].capability_flags,
                    )
                },
    {
        let mut reports: Vec<QueueFamilyReport> = Vec::new();
        let mut i: usize = 0;
        while i < families.len()
            invariant
                i <= families@.len(),
                reports@.len() == i,
                forall|k: int|
                    0 <= k < i ==> {
                        &&& (#[trigger] reports@[k]).queue_count == families@[k].queue_count
                        &&& reports@[k].capabilities@ == spec_capabilities_list(
                            families@[k].capability_flags,
                        )
                    },
            decreases families@.len() - i,
        {
            let f = families[i];
            let capabilities = capabilities_of(f.capability_flags);
            reports.push(QueueFamilyReport { queue_count: f.queue_count, capabilities });
            i = i + 1;
        }
        reports
    }
}

/// List the properties a memory type's mask advertises, in report order.
pub fn properties_of(flags: u32) -> (properties: Vec<MemoryProperty>)
    ensures
        properties@ == spec_properties_list(flags),
{
    let mut properties: Vec<MemoryProperty> = Vec::new();
    if flags & MEMORY_PROPERTY_DEVICE_LOCAL != 0 {
        properties.push(MemoryProperty::DeviceLocal);
    }
    if flags & MEMORY_PROPERTY_HOST_VISIBLE != 0 {
        properties.push(MemoryProperty::HostVisible);
    }
    if flags & MEMORY_PROPERTY_HOST_COHERENT != 0 {
        properties.push(MemoryProperty::HostCoherent);
    }
    if flags & MEMORY_PROPERTY_HOST_CACHED != 0 {
        properties.push(MemoryProperty::HostCached);
    }
    if flags & MEMORY_PROPERTY_LAZILY_ALLOCATED != 0 {
        properties.push(MemoryProperty::LazilyAllocated);
    }
    proof {
        assert(properties@ =~= spec_properties_list(flags));
    }
    properties
}

/// List the capabilities a queue family's mask advertises, in report order.
pub fn capabilities_of(flags: u32) -> (capabilities: Vec<QueueCapability>)
    ensures
        capabilities@ == spec_capabilities_list(flags),
{
    let mut capabilities: Vec<QueueCapability> = Vec::new();
    if flags & QUEUE_GRAPHICS != 0 {
        capabilities.push(QueueCapability::Graphics);
    }
    if flags & QUEUE_COMPUTE != 0 {
        capabilities.push(QueueCapability::Compute);
    }
    if flags & QUEUE_TRANSFER != 0 {
        capabilities.push(QueueCapability::Transfer);
    }
    proof {
        assert(capabilities@ =~= spec_capabilities_list(flags));
    }
    capabilities
}

} // verus!
