use vulkan_setup::device_selection::{
    check_device_extension_support, check_device_suitable, get_physical_device,
    get_queue_families, get_required_device_extensions, PhysicalDeviceInfo, QueueFamilyInfo,
    KHR_SWAPCHAIN, NO_SUITABLE_DEVICE,
};
use vulkan_setup::error_utils::EngineError;
use vulkan_setup::instance_setup::{
    check_instance_extension_support, check_validation_layer_support,
    get_required_instance_extensions, plan_instance, validation_layers, EXT_DEBUG_UTILS,
    MISSING_INSTANCE_EXTENSIONS, VALIDATION_LAYER,
};
use vulkan_setup::utilities::QueueFamilyIndices;
use vulkano::OomError;

fn names(list: &[&str]) -> Vec<String> {
    list.iter().map(|s| s.to_string()).collect()
}

fn family(id: u32, graphics: bool, present: bool) -> QueueFamilyInfo {
    QueueFamilyInfo {
        id,
        supports_graphics: graphics,
        supports_presentation: present,
    }
}

fn device(families: Vec<QueueFamilyInfo>, extensions: &[&str]) -> PhysicalDeviceInfo {
    PhysicalDeviceInfo {
        queue_families: families,
        supported_extensions: names(extensions),
    }
}

fn validation_message(e: EngineError) -> String {
    match e {
        EngineError::VulkanValidationError(m) => m,
        other => panic!("expected a validation error, got {:?}", other),
    }
}

#[test]
fn new_indices_are_empty_and_invalid() {
    let q = QueueFamilyIndices::new();
    assert_eq!(q.graphics_family, None);
    assert_eq!(q.presentation_family, None);
    assert!(!q.is_valid());
    assert!(q.into_vec().is_empty());
}

#[test]
fn half_filled_indices_give_no_families() {
    let q = QueueFamilyIndices {
        graphics_family: Some(1),
        presentation_family: None,
    };
    assert!(!q.is_valid());
    assert!(q.into_vec().is_empty());
    let q = QueueFamilyIndices {
        graphics_family: None,
        presentation_family: Some(1),
    };
    assert!(q.into_vec().is_empty());
}

#[test]
fn shared_family_is_listed_once() {
    let q = QueueFamilyIndices {
        graphics_family: Some(2),
        presentation_family: Some(2),
    };
    assert!(q.is_valid());
    assert_eq!(q.into_vec(), vec![2]);
}

#[test]
fn distinct_families_graphics_first() {
    let q = QueueFamilyIndices {
        graphics_family: Some(4),
        presentation_family: Some(1),
    };
    assert_eq!(q.into_vec(), vec![4, 1]);
}

#[test]
fn queue_families_are_first_matches() {
    let d = device(
        vec![
            family(0, false, false),
            family(1, false, true),
            family(2, true, false),
            family(3, true, true),
        ],
        &[],
    );
    let q = get_queue_families(&d);
    assert_eq!(q.graphics_family, Some(2));
    assert_eq!(q.presentation_family, Some(1));
    assert_eq!(q.into_vec(), vec![2, 1]);
}

#[test]
fn queue_families_missing_presentation() {
    let d = device(vec![family(0, true, false), family(1, true, false)], &[]);
    let q = get_queue_families(&d);
    assert_eq!(q.graphics_family, Some(0));
    assert_eq!(q.presentation_family, None);
    assert!(!q.is_valid());
}

#[test]
fn required_device_extensions_are_swapchain() {
    assert_eq!(get_required_device_extensions(), vec![KHR_SWAPCHAIN.to_string()]);
}

#[test]
fn device_extension_subset_check() {
    let supported = names(&["VK_KHR_maintenance1", "VK_KHR_swapchain"]);
    assert!(check_device_extension_support(
        &supported,
        &names(&["VK_KHR_swapchain"])
    ));
    assert!(check_device_extension_support(&supported, &names(&[])));
    assert!(!check_device_extension_support(
        &supported,
        &names(&["VK_KHR_swapchain", "VK_KHR_ray_query"])
    ));
    assert!(!check_device_extension_support(
        &names(&[]),
        &names(&["VK_KHR_swapchain"])
    ));
}

#[test]
fn suitability_needs_families_and_swapchain() {
    let good = device(vec![family(0, true, true)], &["VK_KHR_swapchain"]);
    assert!(check_device_suitable(&good));
    let no_ext = device(vec![family(0, true, true)], &["VK_KHR_maintenance1"]);
    assert!(!check_device_suitable(&no_ext));
    let no_graphics = device(vec![family(0, false, true)], &["VK_KHR_swapchain"]);
    assert!(!check_device_suitable(&no_graphics));
    let no_present = device(vec![family(0, true, false)], &["VK_KHR_swapchain"]);
    assert!(!check_device_suitable(&no_present));
    let split = device(
        vec![family(0, true, false), family(1, false, true)],
        &["VK_KHR_swapchain"],
    );
    assert!(check_device_suitable(&split));
}

#[test]
fn first_suitable_device_is_selected() {
    let devices = vec![
        device(vec![family(0, true, true)], &["VK_KHR_maintenance1"]),
        device(vec![family(0, true, false)], &["VK_KHR_swapchain"]),
        device(vec![family(0, true, true)], &["VK_KHR_swapchain"]),
        device(vec![family(0, true, true)], &["VK_KHR_swapchain"]),
    ];
    assert_eq!(get_physical_device(&devices).unwrap(), 2);
}

#[test]
fn no_suitable_device_is_an_error() {
    let devices = vec![
        device(vec![family(0, true, true)], &[]),
        device(vec![], &["VK_KHR_swapchain"]),
    ];
    let e = get_physical_device(&devices).unwrap_err();
    assert_eq!(validation_message(e), NO_SUITABLE_DEVICE);
    let e = get_physical_device(&vec![]).unwrap_err();
    assert_eq!(validation_message(e), "No valid physical device available");
}

#[test]
fn validation_layer_lookup() {
    assert_eq!(validation_layers(), vec![VALIDATION_LAYER.to_string()]);
    assert!(check_validation_layer_support(&names(&[
        "VK_LAYER_MESA_overlay",
        "VK_LAYER_KHRONOS_validation"
    ])));
    assert!(!check_validation_layer_support(&names(&[
        "VK_LAYER_MESA_overlay"
    ])));
    assert!(!check_validation_layer_support(&names(&[])));
}

#[test]
fn debug_utils_added_under_validation() {
    let window = names(&["VK_KHR_surface", "VK_KHR_xcb_surface"]);
    assert_eq!(
        get_required_instance_extensions(window.clone(), true),
        names(&["VK_KHR_surface", "VK_KHR_xcb_surface", "VK_EXT_debug_utils"])
    );
    assert_eq!(get_required_instance_extensions(window.clone(), false), window);
    let already = names(&["VK_EXT_debug_utils", "VK_KHR_surface"]);
    assert_eq!(get_required_instance_extensions(already.clone(), true), already);
}

#[test]
fn instance_extension_subset_check() {
    let supported = names(&["VK_KHR_surface", "VK_KHR_xcb_surface", EXT_DEBUG_UTILS]);
    assert!(check_instance_extension_support(
        &supported,
        &names(&["VK_KHR_xcb_surface", "VK_KHR_surface"])
    ));
    assert!(!check_instance_extension_support(
        &supported,
        &names(&["VK_KHR_wayland_surface"])
    ));
}

#[test]
fn instance_plan_with_validation() {
    let plan = plan_instance(
        true,
        &names(&["VK_LAYER_KHRONOS_validation"]),
        names(&["VK_KHR_surface"]),
        &names(&["VK_KHR_surface", "VK_EXT_debug_utils"]),
    )
    .unwrap();
    assert_eq!(plan.extensions, names(&["VK_KHR_surface", "VK_EXT_debug_utils"]));
    assert_eq!(plan.layers, names(&["VK_LAYER_KHRONOS_validation"]));
}

#[test]
fn instance_plan_without_offered_layer() {
    let plan = plan_instance(
        true,
        &names(&["VK_LAYER_MESA_overlay"]),
        names(&["VK_KHR_surface"]),
        &names(&["VK_KHR_surface", "VK_EXT_debug_utils"]),
    )
    .unwrap();
    assert_eq!(plan.extensions, names(&["VK_KHR_surface", "VK_EXT_debug_utils"]));
    assert!(plan.layers.is_empty());
}

#[test]
fn instance_plan_without_validation() {
    let plan = plan_instance(
        false,
        &names(&["VK_LAYER_KHRONOS_validation"]),
        names(&["VK_KHR_surface"]),
        &names(&["VK_KHR_surface"]),
    )
    .unwrap();
    assert_eq!(plan.extensions, names(&["VK_KHR_surface"]));
    assert!(plan.layers.is_empty());
}

#[test]
fn instance_plan_missing_extension() {
    let e = plan_instance(
        true,
        &names(&["VK_LAYER_KHRONOS_validation"]),
        names(&["VK_KHR_surface"]),
        &names(&["VK_KHR_surface"]),
    )
    .unwrap_err();
    assert_eq!(validation_message(e), MISSING_INSTANCE_EXTENSIONS);
    let e = plan_instance(
        false,
        &names(&[]),
        names(&["VK_KHR_surface", "VK_KHR_wayland_surface"]),
        &names(&["VK_KHR_surface"]),
    )
    .unwrap_err();
    assert_eq!(
        validation_message(e),
        "Expected more instance extensions than available"
    );
}

#[test]
fn outside_errors_convert_into_their_variant() {
    let e = EngineError::from(OomError::OutOfHostMemory);
    assert!(matches!(
        e,
        EngineError::VulkanOomError(OomError::OutOfHostMemory)
    ));
}
