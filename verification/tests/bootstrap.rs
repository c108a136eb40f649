//! One full bootstrap run over a single simulated adapter, driving every
//! decision of the library in the order the driver calls would be made.

use gpu_boot::buffer::{plan_allocation, teardown_steps, Buffer, DeviceMemory, MemoryRequirements, TeardownStep};
use gpu_boot::caps::{
    AdapterInfo, MemoryHeap, MemoryType, QueueFamily, MEMORY_PROPERTY_DEVICE_LOCAL,
    MEMORY_PROPERTY_HOST_VISIBLE, QUEUE_GRAPHICS, QUEUE_TRANSFER,
};
use gpu_boot::context::LogicalContext;
use gpu_boot::select::{select_adapter, select_queue_family};
use gpu_boot::transfer::{vertex_payload, write_payload};

#[test]
fn single_adapter_bootstrap_runs_to_completion() {
    // One adapter: one queue family with graphics and transfer, and memory
    // types [host-visible, device-local].
    let adapters = vec![AdapterInfo {
        name: b"adapter-a".to_vec(),
        memory_heaps: vec![
            MemoryHeap { size: 4 * 1024 * 1024 * 1024, device_local: false },
            MemoryHeap { size: 8 * 1024 * 1024 * 1024, device_local: true },
        ],
        memory_types: vec![
            MemoryType { heap_index: 0, property_flags: MEMORY_PROPERTY_HOST_VISIBLE },
            MemoryType { heap_index: 1, property_flags: MEMORY_PROPERTY_DEVICE_LOCAL },
        ],
        queue_families: vec![QueueFamily {
            queue_count: 1,
            capability_flags: QUEUE_GRAPHICS | QUEUE_TRANSFER,
        }],
    }];

    // Selection picks the one adapter and its family 0.
    let adapter = select_adapter(&adapters).unwrap();
    assert_eq!(adapter.name, b"adapter-a".to_vec());
    let family_index = select_queue_family(&adapter.queue_families, QUEUE_GRAPHICS).unwrap();
    assert_eq!(family_index, 0);

    let context = LogicalContext::new(1, 2, family_index);
    assert_eq!(context.queue_family_index, 0);

    // A buffer of 32 bytes: the driver would report requirements at least
    // that large and mark both types compatible; memory type 0 is the first
    // host-visible one.
    let mut buffer = Buffer::new(3, 32);
    let requirements = MemoryRequirements { size: 32, alignment: 4, memory_type_bits: 0b11 };
    let plan = plan_allocation(&requirements, &adapter.memory_types).unwrap();
    assert_eq!(plan.memory_type_index, 0);
    assert_eq!(plan.allocation_size, 32);

    let memory = DeviceMemory {
        handle: 4,
        size: plan.allocation_size,
        memory_type_index: plan.memory_type_index,
    };
    buffer.bind_memory(memory);

    // Map, write the four-value payload, unmap.
    buffer.map_memory();
    let mut mapped: Vec<u8> = vec![0; buffer.size_bytes as usize];
    let payload = vertex_payload();
    write_payload(&mut mapped, &payload).unwrap();
    assert_eq!(&mapped[..16], payload.as_slice());
    buffer.unmap_memory();

    // Teardown: the buffer hands its memory over, and every handle is
    // released exactly once, in reverse creation order.
    let reclaimed = buffer.into_teardown();
    assert_eq!(reclaimed, Some(memory));
    let steps = teardown_steps(reclaimed.is_some());
    assert_eq!(
        steps,
        vec![
            TeardownStep::DestroyBuffer,
            TeardownStep::FreeMemory,
            TeardownStep::DestroyDevice,
            TeardownStep::DestroyInstance,
        ]
    );
}
