use ash::vk;
use vstd::prelude::*;
use crate::error::RenderError;

verus! {

/// What a device reports of one queue family.
#[derive(Clone, Copy, Debug, PartialEq, Eq, Structural)]
pub struct QueueFamily {
    pub queue_flags: u32,
    pub queue_count: u32,
}

/// A physical device as the selector sees it: its queue families, in index order.
#[derive(Clone, Debug)]
pub struct PhysicalDevice {
    pub queue_families: Vec<QueueFamily>,
}

/// A device and one of its queue families, each by its position in the enumeration.
#[derive(Clone, Copy, Debug, PartialEq, Eq, Structural)]
pub struct QueueSelection {
    pub device_index: usize,
    pub queue_family_index: usize,
}

/// The capability bit of a queue family that takes graphics work.
pub const QUEUE_GRAPHICS: u32 = 0x1;

/// The family takes graphics work and has a queue to give.
pub open spec fn is_graphics_family(family: QueueFamily) -> bool {
    family.queue_count > 0 && family.queue_flags & QUEUE_GRAPHICS == QUEUE_GRAPHICS
}

/// Family `family` of device `device` exists and can be selected.
pub open spec fn qualifies(devices: Seq<PhysicalDevice>, device: int, family: int) -> bool {
    &&& 0 <= device < devices.len()
    &&& 0 <= family < devices[device].queue_families@.len()
    &&& is_graphics_family(devices[device].queue_families@[family])
}

/// `result` is what selection among `devices` gives: the first device that
/// has a qualifying family with the first such family in it, or the error
/// when no family of any device qualifies.
pub open spec fn selects(
    devices: Seq<PhysicalDevice>,
    result: Result<QueueSelection, RenderError>,
) -> bool {
    match result {
        Ok(selection) => {
            &&& qualifies(devices, selection.device_index as int, selection.queue_family_index as int)
            &&& forall|family: int|
                0 <= family < selection.queue_family_index ==> !qualifies(
                    devices,
                    selection.device_index as int,
                    family,
                )
            &&& forall|device: int, family: int|
                0 <= device < selection.device_index ==> !qualifies(devices, device, family)
        },
        Err(error) => {
            &&& error == RenderError::NoSuitableDevice
            &&& forall|device: int, family: int| !qualifies(devices, device, family)
        },
    }
}

/// `ash::vk::QueueFlags::contains`, asked of a raw flag word for
/// `ash::vk::QueueFlags::GRAPHICS`. ash defines `contains` as
/// `self & other == other` and `GRAPHICS` as bit 0.
#[verifier::external_body]
fn queue_supports_graphics(queue_flags: u32) -> (supported: bool)
    ensures
        supported == (queue_flags & QUEUE_GRAPHICS == QUEUE_GRAPHICS),
{
    vk::QueueFlags::from_raw(queue_flags).contains(vk::QueueFlags::GRAPHICS)
}

/// The first graphics-capable family among `families`.
pub fn first_graphics_family(families: &Vec<QueueFamily>) -> (found: Option<usize>)
    ensures
        match found {
            Some(index) => {
                &&& index < families.len()
                &&& is_graphics_family(families[index as int])
                &&& forall|j: int| 0 <= j < index ==> !is_graphics_family(families[j])
            },
            None => forall|j: int| 0 <= j < families.len() ==> !is_graphics_family(families[j]),
        },
{
    let mut index: usize = 0;
    while index < families.len()
        invariant
            index <= families.len(),
            forall|j: int| 0 <= j < index ==> !is_graphics_family(families[j]),
        decreases families.len() - index,
    {
        let family = families[index];
        if family.queue_count > 0 && queue_supports_graphics(family.queue_flags) {
            return Some(index);
        }
        index = index + 1;
    }
    None
}

/// Picks the device to render on and the queue family to submit to: the
/// first device, in enumeration order, that has a graphics-capable family
/// with at least one queue, and the first such family of that device.
pub fn pick_physical_device_and_queue_family_indices(devices: &Vec<PhysicalDevice>) -> (result:
    Result<QueueSelection, RenderError>)
    ensures
        selects(devices@, result),
        result is Ok <==> exists|device: int, family: int| qualifies(devices@, device, family),
{
    let mut device_index: usize = 0;
    while device_index < devices.len()
        invariant
            device_index <= devices.len(),
            forall|device: int, family: int|
                0 <= device < device_index ==> !qualifies(devices@, device, family),
        decreases devices.len() - device_index,
    {
        match first_graphics_family(&devices[device_index].queue_families) {
            Some(queue_family_index) => {
                assert(qualifies(devices@, device_index as int, queue_family_index as int));
                return Ok(QueueSelection { device_index, queue_family_index });
            },
            None => {},
        }
        device_index = device_index + 1;
    }
    Err(RenderError::NoSuitableDevice)
}

/// Selection is a function of the device list: two results that both meet
/// the selector's contract for one list are the same result.
pub proof fn lemma_selection_is_unique(
    devices: Seq<PhysicalDevice>,
    first: Result<QueueSelection, RenderError>,
    second: Result<QueueSelection, RenderError>,
)
    requires
        selects(devices, first),
        selects(devices, second),
    ensures
        first == second,
{
    match (first, second) {
        (Ok(a), Ok(b)) => {
            if a.device_index < b.device_index {
                assert(!qualifies(devices, a.device_index as int, a.queue_family_index as int));
            } else if b.device_index < a.device_index {
                assert(!qualifies(devices, b.device_index as int, b.queue_family_index as int));
            } else if a.queue_family_index < b.queue_family_index {
                assert(!qualifies(devices, b.device_index as int, a.queue_family_index as int));
            } else if b.queue_family_index < a.queue_family_index {
                assert(!qualifies(devices, a.device_index as int, b.queue_family_index as int));
            }
        },
        (Ok(a), Err(_)) => {
            assert(!qualifies(devices, a.device_index as int, a.queue_family_index as int));
        },
        (Err(_), Ok(b)) => {
            assert(!qualifies(devices, b.device_index as int, b.queue_family_index as int));
        },
        (Err(_), Err(_)) => {},
    }
}

} // verus!
