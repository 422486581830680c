use vstd::prelude::*;

use crate::error_utils::EngineError;
use crate::names::{contains_name, includes_all, list_includes_all};
use crate::utilities::QueueFamilyIndices;

verus! {

/// The device extension that swap chains need.
pub const KHR_SWAPCHAIN: &'static str = "VK_KHR_swapchain";

/// The message of the error returned when no device qualifies.
pub const NO_SUITABLE_DEVICE: &'static str = "No valid physical device available";

/// What the driver reports about one queue family of a physical device.
#[derive(Clone, Copy, Debug, PartialEq, Eq, Structural)]
pub struct QueueFamilyInfo {
    pub id: u32,
    pub supports_graphics: bool,
    /// Whether queues of this family can present to the window's surface.
    pub supports_presentation: bool,
}

/// What the driver reports about one physical device: its queue families in
/// enumeration order and the names of the device extensions it supports.
#[derive(Clone, Debug)]
pub struct PhysicalDeviceInfo {
    pub queue_families: Vec<QueueFamilyInfo>,
    pub supported_extensions: Vec<String>,
}

/// The two jobs a queue family is looked up for.
#[derive(Clone, Copy, Debug, PartialEq, Eq, Structural)]
pub enum QueueRole {
    Graphics,
    Presentation,
}

/// Family `f` can do the job `role`.
pub open spec fn supports_role(f: QueueFamilyInfo, role: QueueRole) -> bool {
    match role {
        QueueRole::Graphics => f.supports_graphics,
        QueueRole::Presentation => f.supports_presentation,
    }
}

/// Some family serves `role`.
pub open spec fn has_family(families: Seq<QueueFamilyInfo>, role: QueueRole) -> bool {
    exists|i: int| 0 <= i < families.len() && supports_role(#[trigger] families[i], role)
}

/// Family `i` serves `role` and no earlier family does.
pub open spec fn first_family_at(families: Seq<QueueFamilyInfo>, role: QueueRole, i: int) -> bool {
    &&& 0 <= i < families.len()
    &&& supports_role(families[i], role)
    &&& forall|j: int| 0 <= j < i ==> !supports_role(#[trigger] families[j], role)
}

/// The id of the first family, in enumeration order, that serves `role`.
pub open spec fn first_family(families: Seq<QueueFamilyInfo>, role: QueueRole) -> Option<u32> {
    if has_family(families, role) {
        Some(families[choose|i: int| first_family_at(families, role, i)].id)
    } else {
        None
    }
}

/// A device qualifies when it has a graphics family, a family that can
/// present, and swap chain support.
pub open spec fn is_suitable(d: PhysicalDeviceInfo) -> bool {
    &&& has_family(d.queue_families@, QueueRole::Graphics)
    &&& has_family(d.queue_families@, QueueRole::Presentation)
    &&& contains_name(d.supported_extensions@, KHR_SWAPCHAIN@)
}

/// Device `i` qualifies and no earlier device does.
pub open spec fn first_suitable_at(devices: Seq<PhysicalDeviceInfo>, i: int) -> bool {
    &&& 0 <= i < devices.len()
    &&& is_suitable(devices[i])
    &&& forall|j: int| 0 <= j < i ==> !is_suitable(#[trigger] devices[j])
}

fn find_family(families: &Vec<QueueFamilyInfo>, role: QueueRole) -> (r: Option<u32>)
    ensures
        r == first_family(families@, role),
{
    let mut i: usize = 0;
    while i < families.len()
        invariant
            0 <= i <= families@.len(),
            forall|j: int| 0 <= j < i ==> !supports_role(#[trigger] families@[j], role),
        decreases families@.len() - i,
    {
        let f = families[i];
        let serves = match role {
            QueueRole::Graphics => f.supports_graphics,
            QueueRole::Presentation => f.supports_presentation,
        };
        if serves {
            proof {
                let k = i as int;
                assert(first_family_at(families@, role, k));
                let c = choose|c: int| first_family_at(families@, role, c);
                if c < k {
                    assert(!supports_role(families@[c], role));
                } else if k < c {
                    assert(!supports_role(families@[k], role));
                }
            }
            return Some(f.id);
        }
        i = i + 1;
    }
    None
}

/// The first graphics family and the first family that can present, each
/// in enumeration order.
pub fn get_queue_families(physical_device: &PhysicalDeviceInfo) -> (r: QueueFamilyIndices)
    ensures
        r.graphics_family == first_family(physical_device.queue_families@, QueueRole::Graphics),
        r.presentation_family == first_family(
            physical_device.queue_families@,
            QueueRole::Presentation,
        ),
        r.valid() <==> has_family(physical_device.queue_families@, QueueRole::Graphics)
            && has_family(physical_device.queue_families@, QueueRole::Presentation),
{
    let mut queue_family_indices = QueueFamilyIndices::new();
    queue_family_indices.graphics_family = find_family(
        &physical_device.queue_families,
        QueueRole::Graphics,
    );
    queue_family_indices.presentation_family = find_family(
        &physical_device.queue_families,
        QueueRole::Presentation,
    );
    queue_family_indices
}

/// The device extensions that the renderer needs: swap chain support.
pub fn get_required_device_extensions() -> (r: Vec<String>)
    ensures
        r@.len() == 1,
        r@[0]@ == KHR_SWAPCHAIN@,
{
    let mut extensions: Vec<String> = Vec::new();
    extensions.push(String::from_str(KHR_SWAPCHAIN));
    extensions
}

/// Whether the device supports every extension of `extensions`.
pub fn check_device_extension_support(
    supported_extensions: &Vec<String>,
    extensions: &Vec<String>,
) -> (r: bool)
    ensures
        r == includes_all(supported_extensions@, extensions@),
{
    list_includes_all(supported_extensions, extensions)
}

/// Whether the device has the queue families and extensions the renderer
/// needs.
pub fn check_device_suitable(physical_device: &PhysicalDeviceInfo) -> (r: bool)
    ensures
        r == is_suitable(*physical_device),
{
    let queue_families = get_queue_families(physical_device);
    let extensions = get_required_device_extensions();
    let supported = check_device_extension_support(
        &physical_device.supported_extensions,
        &extensions,
    );
    proof {
        if supported {
            assert(contains_name(physical_device.supported_extensions@, extensions@[0]@));
        }
    }
    queue_families.is_valid() && supported
}

/// The index of the first device, in enumeration order, that qualifies;
/// a validation error when none does.
pub fn get_physical_device(devices: &Vec<PhysicalDeviceInfo>) -> (r: Result<usize, EngineError>)
    ensures
        r is Ok <==> exists|i: int| 0 <= i < devices@.len() && is_suitable(#[trigger] devices@[i]),
        r matches Ok(i) ==> first_suitable_at(devices@, i as int),
        r matches Err(e) ==> (e matches EngineError::VulkanValidationError(m) && m@
            == NO_SUITABLE_DEVICE@),
{
    let mut i: usize = 0;
    while i < devices.len()
        invariant
            0 <= i <= devices@.len(),
            forall|j: int| 0 <= j < i ==> !is_suitable(#[trigger] devices@[j]),
        decreases devices@.len() - i,
    {
        if check_device_suitable(&devices[i]) {
            return Ok(i);
        }
        i = i + 1;
    }
    Err(EngineError::VulkanValidationError(String::from_str(NO_SUITABLE_DEVICE)))
}

} // verus!
