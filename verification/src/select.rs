use vstd::prelude::*;

use crate::caps::{queue_family_supports, AdapterInfo, MemoryType, QueueFamily};
use crate::error::GpuError;

verus! {

/// Whether `i` is the first queue family in `families` that supports
/// `required`: it qualifies, and no family before it does.
pub open spec fn first_supporting_family(
    families: Seq<QueueFamily>,
    required: u32,
    i: int,
) -> bool {
    &&& 0 <= i < families.len()
    &&& queue_family_supports(families[i], required)
    &&& forall|j: int| 0 <= j < i ==> !queue_family_supports(families[j], required)
}

/// Pick the adapter to use: the first of the list, by position alone.
/// Fails only when the list is empty.
pub fn select_adapter(adapters: &Vec<AdapterInfo>) -> (r: Result<&AdapterInfo, GpuError>)
    ensures
        match r {
            Ok(a) => adapters@.len() > 0 && *a == adapters@[0],
            Err(e) => adapters@.len() == 0 && e == GpuError::NoAdapterAvailable,
        },
{
    if adapters.len() == 0 {
        Err(GpuError::NoAdapterAvailable)
    } else {
        Ok(&adapters[0])
    }
}

/// Pick the queue family to use: the first of the list whose capability mask
/// includes `required`, by iteration order, so the lowest qualifying index
/// wins. Fails only when no family qualifies.
pub fn select_queue_family(families: &Vec<QueueFamily>, required: u32) -> (r: Result<
    usize,
    GpuError,
>)
    ensures
        match r {
            Ok(i) => first_supporting_family(families@, required, i as int),
            Err(e) => {
                &&& e == GpuError::NoMatchingQueueFamily
                &&& forall|j: int|
                    0 <= j < families@.len() ==> !queue_family_supports(families@[j], required)
            },
        },
{
    let mut i: usize = 0;
    while i < families.len()
        invariant
            i <= families@.len(),
            forall|j: int| 0 <= j < i ==> !queue_family_supports(families@[j], required),
        decreases families@.len() - i,
    {
        if families[i].supports(required) {
            return Ok(i);
        }
        i = i + 1;
    }
    Err(GpuError::NoMatchingQueueFamily)
}

/// The selected queue family has the lowest index among all qualifying
/// families.
pub proof fn lemma_queue_family_selection_lowest(
    families: Seq<QueueFamily>,
    required: u32,
    i: int,
    j: int,
)
    requires
        first_supporting_family(families, required, i),
        0 <= j < families.len(),
        queue_family_supports(families[j], required),
    ensures
        i <= j,
{
    if j < i {
        assert(!queue_family_supports(families[j], required));
    }
}

/// Whether memory type `i` can back the buffer: its bit is set in the
/// requirement mask and its properties include every bit of `required`.
pub open spec fn memory_type_suitable(
    mask: u32,
    types: Seq<MemoryType>,
    required: u32,
    i: int,
) -> bool {
    &&& 0 <= i < types.len()
    &&& i < 32
    &&& mask & (1u32 << (i as u32)) != 0
    &&& types[i].property_flags & required == required
}

/// Whether `i` is the first suitable memory type: it is suitable, and no
/// type before it is.
pub open spec fn first_suitable_memory_type(
    mask: u32,
    types: Seq<MemoryType>,
    required: u32,
    i: int,
) -> bool {
    &&& memory_type_suitable(mask, types, required, i)
    &&& forall|j: int| 0 <= j < i ==> !memory_type_suitable(mask, types, required, j)
}

/// Pick the memory type to allocate from: the first index whose bit is set
/// in `mask` and whose properties include `required`, in index order, with
/// no scoring of closer matches. Fails only when no type is suitable.
///
/// The driver reports at most 32 memory types, one per bit of `mask`.
pub fn select_memory_type(mask: u32, types: &Vec<MemoryType>, required: u32) -> (r: Result<
    u32,
    GpuError,
>)
    requires
        types@.len() <= 32,
    ensures
        match r {
            Ok(i) => first_suitable_memory_type(mask, types@, required, i as int),
            Err(e) => {
                &&& e == GpuError::NoSuitableMemoryType
                &&& forall|j: int| !memory_type_suitable(mask, types@, required, j)
            },
        },
{
    let mut i: usize = 0;
    while i < types.len()
        invariant
            types@.len() <= 32,
            i <= types@.len(),
            forall|j: int| 0 <= j < i ==> !memory_type_suitable(mask, types@, required, j),
        decreases types@.len() - i,
    {
        let bit: u32 = 1u32 << (i as u32);
        if mask & bit != 0 && types[i].has_properties(required) {
            return Ok(i as u32);
        }
        i = i + 1;
    }
    Err(GpuError::NoSuitableMemoryType)
}

/// Memory-type selection is deterministic: for a fixed requirement mask,
/// type table and required properties, only one index can be the first
/// suitable one, so repeated selections agree.
pub proof fn lemma_memory_type_selection_deterministic(
    mask: u32,
    types: Seq<MemoryType>,
    required: u32,
    i1: int,
    i2: int,
)
    requires
        first_suitable_memory_type(mask, types, required, i1),
        first_suitable_memory_type(mask, types, required, i2),
    ensures
        i1 == i2,
{
    if i1 < i2 {
        assert(!memory_type_suitable(mask, types, required, i1));
    } else if i2 < i1 {
        assert(!memory_type_suitable(mask, types, required, i2));
    }
}

} // verus!
