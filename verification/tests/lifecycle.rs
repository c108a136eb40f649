use gpu_boot::buffer::{
    plan_allocation, teardown_steps, Buffer, BufferState, DeviceMemory, MemoryRequirements,
    TeardownStep,
};
use gpu_boot::caps::{MemoryType, MEMORY_PROPERTY_DEVICE_LOCAL, MEMORY_PROPERTY_HOST_VISIBLE};
use gpu_boot::context::LogicalContext;
use gpu_boot::error::GpuError;
use gpu_boot::transfer::{vertex_payload, write_payload};

#[test]
fn allocation_plan_uses_required_size_and_first_suitable_type() {
    let requirements = MemoryRequirements { size: 48, alignment: 16, memory_type_bits: 0b11 };
    let types = vec![
        MemoryType { heap_index: 0, property_flags: MEMORY_PROPERTY_DEVICE_LOCAL },
        MemoryType { heap_index: 1, property_flags: MEMORY_PROPERTY_HOST_VISIBLE },
    ];
    let plan = plan_allocation(&requirements, &types).unwrap();
    // The plan takes the requirement's size (48), not the requested buffer
    // size that produced it, and the first compatible host-visible type.
    assert_eq!(plan.allocation_size, 48);
    assert_eq!(plan.memory_type_index, 1);
}

#[test]
fn allocation_plan_fails_without_host_visible_type() {
    let requirements = MemoryRequirements { size: 48, alignment: 16, memory_type_bits: 0b1 };
    let types = vec![MemoryType { heap_index: 0, property_flags: MEMORY_PROPERTY_DEVICE_LOCAL }];
    assert_eq!(
        plan_allocation(&requirements, &types).unwrap_err(),
        GpuError::NoSuitableMemoryType
    );
}

#[test]
fn buffer_lifecycle_hands_memory_to_teardown() {
    let mut buffer = Buffer::new(7, 32);
    assert_eq!(buffer.state, BufferState::Created);
    assert_eq!(buffer.backing, None);

    let memory = DeviceMemory { handle: 9, size: 32, memory_type_index: 0 };
    buffer.bind_memory(memory);
    assert_eq!(buffer.state, BufferState::Bound);

    buffer.map_memory();
    assert_eq!(buffer.state, BufferState::Mapped);
    buffer.unmap_memory();
    assert_eq!(buffer.state, BufferState::Bound);

    let reclaimed = buffer.into_teardown();
    assert_eq!(reclaimed, Some(memory));
}

#[test]
fn unbound_buffer_leaves_nothing_to_free() {
    let buffer = Buffer::new(7, 32);
    assert_eq!(buffer.into_teardown(), None);
}

#[test]
fn teardown_with_buffer_frees_in_reverse_creation_order() {
    let steps = teardown_steps(true);
    assert_eq!(
        steps,
        vec![
            TeardownStep::DestroyBuffer,
            TeardownStep::FreeMemory,
            TeardownStep::DestroyDevice,
            TeardownStep::DestroyInstance,
        ]
    );
}

#[test]
fn teardown_without_buffer_skips_buffer_steps() {
    let steps = teardown_steps(false);
    assert_eq!(steps, vec![TeardownStep::DestroyDevice, TeardownStep::DestroyInstance]);
}

#[test]
fn payload_round_trips_through_mapped_region() {
    let mut mapped: Vec<u8> = vec![0; 32];
    let payload = vertex_payload();
    write_payload(&mut mapped, &payload).unwrap();

    let mut values = [0.0f32; 4];
    for (i, value) in values.iter_mut().enumerate() {
        let bytes = [
            mapped[4 * i],
            mapped[4 * i + 1],
            mapped[4 * i + 2],
            mapped[4 * i + 3],
        ];
        *value = f32::from_le_bytes(bytes);
    }
    assert_eq!(values, [1.0f32, 2.0f32, 4.0f32, 3.0f32]);
    // Past the payload the region is untouched.
    assert!(mapped[16..].iter().all(|&b| b == 0));
}

#[test]
fn payload_write_rejects_short_region() {
    let mut mapped: Vec<u8> = vec![0xaa; 8];
    let payload = vertex_payload();
    assert_eq!(write_payload(&mut mapped, &payload).unwrap_err(), GpuError::PayloadTooLarge);
    assert_eq!(mapped, vec![0xaa; 8]);
}

#[test]
fn zero_size_buffer_is_an_empty_buffer() {
    // A zero-byte request is accepted and stands for an empty buffer.
    let buffer = Buffer::new(3, 0);
    assert_eq!(buffer.size_bytes, 0);
    // Writing the payload into its zero-length mapped region is rejected,
    // never an overrun.
    let mut mapped: Vec<u8> = Vec::new();
    let payload = vertex_payload();
    assert_eq!(write_payload(&mut mapped, &payload).unwrap_err(), GpuError::PayloadTooLarge);
    assert!(mapped.is_empty());
}

#[test]
fn logical_context_records_its_handles() {
    let context = LogicalContext::new(11, 12, 0);
    assert_eq!(context.device_handle, 11);
    assert_eq!(context.queue_handle, 12);
    assert_eq!(context.queue_family_index, 0);
}

#[test]
fn error_messages_name_each_failure() {
    assert_eq!(GpuError::EnumerationFailed.message(), "failed to enumerate adapters");
    assert_eq!(GpuError::NoAdapterAvailable.message(), "no adapter available");
    assert_eq!(GpuError::NoMatchingQueueFamily.message(), "no matching queue family");
    assert_eq!(GpuError::DeviceCreationFailed.message(), "device creation failed");
    assert_eq!(GpuError::NoSuitableMemoryType.message(), "no suitable memory type");
    assert_eq!(GpuError::AllocationFailed.message(), "memory allocation failed");
    assert_eq!(GpuError::BindFailed.message(), "failed to bind buffer memory");
    assert_eq!(GpuError::MapFailed.message(), "failed to map memory");
    assert_eq!(GpuError::PayloadTooLarge.message(), "payload too large for buffer");
}
