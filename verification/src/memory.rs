use ash::vk;
use vstd::prelude::*;
use crate::error::RenderError;

verus! {

/// One memory type of a device: its property flags and the heap behind it.
#[derive(Clone, Copy, Debug, PartialEq, Eq, Structural)]
pub struct MemoryType {
    pub property_flags: u32,
    pub heap_index: u32,
}

/// The memory types a physical device reports, in index order.
#[derive(Clone, Debug)]
pub struct MemoryProperties {
    pub memory_types: Vec<MemoryType>,
}

/// Bit `index` of `mask` is set. A 32-bit mask has no bit 32 or above.
pub open spec fn bit_is_set(mask: u32, index: int) -> bool {
    0 <= index < 32 && mask & (1u32 << (index as u32)) != 0
}

/// Every flag of `required` is present in `flags`.
pub open spec fn flags_contain(flags: u32, required: u32) -> bool {
    flags & required == required
}

/// Memory type `index` may be used for the allocation and has the required properties.
pub open spec fn is_suitable(types: Seq<MemoryType>, type_bits: u32, required: u32, index: int) -> bool {
    &&& 0 <= index < types.len()
    &&& bit_is_set(type_bits, index)
    &&& flags_contain(types[index].property_flags, required)
}

/// `result` is what resolving `type_bits` and `required` against `types` gives:
/// the lowest suitable index, or the error when no index is suitable.
pub open spec fn resolves_to(
    types: Seq<MemoryType>,
    type_bits: u32,
    required: u32,
    result: Result<u32, RenderError>,
) -> bool {
    match result {
        Ok(index) => {
            &&& is_suitable(types, type_bits, required, index as int)
            &&& forall|j: int| 0 <= j < index ==> !is_suitable(types, type_bits, required, j)
        },
        Err(e) => {
            &&& e == RenderError::NoSuitableMemoryType
            &&& forall|j: int| !is_suitable(types, type_bits, required, j)
        },
    }
}

/// `ash::vk::MemoryPropertyFlags::contains` on two raw flag words. ash defines
/// it as `self & other == other`, and `from_raw` keeps every bit.
#[verifier::external_body]
fn memory_flags_contain(flags: u32, required: u32) -> (contained: bool)
    ensures
        contained == flags_contain(flags, required),
{
    vk::MemoryPropertyFlags::from_raw(flags).contains(vk::MemoryPropertyFlags::from_raw(required))
}

/// Finds the memory type for an allocation: the first index whose bit is set
/// in `type_bits` and whose properties include all of `properties`.
pub fn get_memory_type_index(
    device_memory_properties: &MemoryProperties,
    type_bits: u32,
    properties: u32,
) -> (result: Result<u32, RenderError>)
    ensures
        resolves_to(device_memory_properties.memory_types@, type_bits, properties, result),
        type_bits == 0 ==> result == Err::<u32, RenderError>(RenderError::NoSuitableMemoryType),
{
    let types = &device_memory_properties.memory_types;
    let mut i: u32 = 0;
    while i < 32 && (i as usize) < types.len()
        invariant
            i <= 32,
            i <= types.len(),
            types == &device_memory_properties.memory_types,
            forall|j: int| 0 <= j < i ==> !is_suitable(types@, type_bits, properties, j),
        decreases 32 - i,
    {
        if type_bits & (1u32 << i) != 0 {
            if memory_flags_contain(types[i as usize].property_flags, properties) {
                proof {
                    assert(type_bits & (1u32 << i) != 0 ==> type_bits != 0) by (bit_vector);
                }
                return Ok(i);
            }
        }
        i = i + 1;
    }
    Err(RenderError::NoSuitableMemoryType)
}

/// Resolution is a function of its inputs: two results that both meet the
/// resolver's contract for the same memory types, mask and requirement are the
/// same result, so asking again gives the same answer.
pub proof fn lemma_resolution_is_unique(
    types: Seq<MemoryType>,
    type_bits: u32,
    required: u32,
    first: Result<u32, RenderError>,
    second: Result<u32, RenderError>,
)
    requires
        resolves_to(types, type_bits, required, first),
        resolves_to(types, type_bits, required, second),
    ensures
        first == second,
{
    match (first, second) {
        (Ok(a), Ok(b)) => {
            if a < b {
                assert(!is_suitable(types, type_bits, required, a as int));
            } else if b < a {
                assert(!is_suitable(types, type_bits, required, b as int));
            }
        },
        (Ok(a), Err(_)) => {
            assert(!is_suitable(types, type_bits, required, a as int));
        },
        (Err(_), Ok(b)) => {
            assert(!is_suitable(types, type_bits, required, b as int));
        },
        (Err(_), Err(_)) => {},
    }
}

/// A mask with no bit set allows no memory type, whatever is required.
pub proof fn lemma_empty_mask_resolves_to_error(
    types: Seq<MemoryType>,
    required: u32,
    result: Result<u32, RenderError>,
)
    requires
        resolves_to(types, 0, required, result),
    ensures
        result == Err::<u32, RenderError>(RenderError::NoSuitableMemoryType),
{
    if let Ok(index) = result {
        assert(0u32 & (1u32 << index) == 0) by (bit_vector);
    }
}

} // verus!
