use vulkan_setup::device::{
    check_device_extension_support, create_logical_device,
    find_queue_families, is_device_suitable, pick_physical_device, DeviceProfile, QueueFamily,
    QueueFamilyIndices,
};
use vulkan_setup::error::SetupError;
use vulkan_setup::swapchain::{Extent2D, SurfaceCapabilities, SurfaceFormat, SwapchainSupport};

fn caps() -> SurfaceCapabilities {
    SurfaceCapabilities {
        min_image_count: 2,
        max_image_count: 8,
        current_extent: Extent2D { width: 800, height: 600 },
        min_image_extent: Extent2D { width: 1, height: 1 },
        max_image_extent: Extent2D { width: 4096, height: 4096 },
        current_transform: 1,
    }
}

fn suitable_device() -> DeviceProfile {
    DeviceProfile {
        queue_families: vec![QueueFamily { flags: 0b0111, supports_present: true }],
        extensions: vec!["VK_KHR_maintenance1".to_string(), "VK_KHR_swapchain".to_string()],
        swapchain_support: SwapchainSupport {
            capabilities: caps(),
            formats: vec![SurfaceFormat { format: 44, color_space: 0 }],
            present_modes: vec![2],
        },
    }
}

fn device_without_present_family() -> DeviceProfile {
    let mut d = suitable_device();
    d.queue_families = vec![QueueFamily { flags: 0b0001, supports_present: false }];
    d
}

fn device_without_swapchain_extension() -> DeviceProfile {
    let mut d = suitable_device();
    d.extensions = vec!["VK_KHR_maintenance1".to_string()];
    d
}

#[test]
fn is_complete_needs_both_families() {
    let both = QueueFamilyIndices { graphics_family: Some(0), presentation_family: Some(0) };
    let one = QueueFamilyIndices { graphics_family: Some(0), presentation_family: None };
    let none = QueueFamilyIndices { graphics_family: None, presentation_family: None };
    assert!(both.is_complete());
    assert!(!one.is_complete());
    assert!(!none.is_complete());
}

#[test]
fn graphics_bit_is_bit_zero() {
    let family = |flags: u32| QueueFamily { flags, supports_present: false };
    assert!(family(0b0001).has_graphics());
    assert!(family(0b1111).has_graphics());
    assert!(!family(0b1110).has_graphics());
    assert!(!family(0).has_graphics());
}

#[test]
fn queue_families_found_independently() {
    let families = vec![
        QueueFamily { flags: 0b0010, supports_present: false },
        QueueFamily { flags: 0b0011, supports_present: false },
        QueueFamily { flags: 0b0100, supports_present: true },
    ];
    let indices = find_queue_families(&families);
    assert_eq!(indices.graphics_family, Some(1));
    assert_eq!(indices.presentation_family, Some(2));
}

#[test]
fn queue_families_later_match_wins() {
    let families = vec![
        QueueFamily { flags: 0b0001, supports_present: true },
        QueueFamily { flags: 0b0001, supports_present: true },
    ];
    let indices = find_queue_families(&families);
    assert_eq!(indices, QueueFamilyIndices { graphics_family: Some(1), presentation_family: Some(1) });
    let empty = find_queue_families(&vec![]);
    assert_eq!(empty, QueueFamilyIndices { graphics_family: None, presentation_family: None });
}

#[test]
fn device_extension_support_looks_for_swapchain() {
    assert!(check_device_extension_support(&vec!["VK_KHR_swapchain".to_string()]));
    assert!(!check_device_extension_support(&vec!["VK_KHR_surface".to_string()]));
    assert!(!check_device_extension_support(&vec![]));
}

#[test]
fn suitability_requires_each_part() {
    assert!(is_device_suitable(&suitable_device()));
    assert!(!is_device_suitable(&device_without_present_family()));
    assert!(!is_device_suitable(&device_without_swapchain_extension()));
    let mut no_formats = suitable_device();
    no_formats.swapchain_support.formats.clear();
    assert!(!is_device_suitable(&no_formats));
    let mut no_modes = suitable_device();
    no_modes.swapchain_support.present_modes.clear();
    assert!(!is_device_suitable(&no_modes));
}

#[test]
fn picks_first_suitable_device() {
    let devices = vec![
        device_without_present_family(),
        device_without_swapchain_extension(),
        suitable_device(),
        suitable_device(),
    ];
    assert_eq!(pick_physical_device(&devices), Ok(2));
}

#[test]
fn no_suitable_device_is_an_error() {
    let devices = vec![device_without_present_family(), device_without_swapchain_extension()];
    assert_eq!(pick_physical_device(&devices), Err(SetupError::NoSuitableDevice));
    assert_eq!(pick_physical_device(&vec![]), Err(SetupError::NoSuitableDevice));
}

#[test]
fn logical_device_dedups_families() {
    let same = QueueFamilyIndices { graphics_family: Some(3), presentation_family: Some(3) };
    let plan = create_logical_device(&same, true).unwrap();
    assert_eq!(plan.queue_families, vec![3]);
    assert_eq!(plan.extensions, vec!["VK_KHR_swapchain".to_string()]);
    assert_eq!(plan.layers, vec!["VK_LAYER_KHRONOS_validation".to_string()]);

    let split = QueueFamilyIndices { graphics_family: Some(0), presentation_family: Some(2) };
    let plan = create_logical_device(&split, false).unwrap();
    assert_eq!(plan.queue_families, vec![0, 2]);
    assert!(plan.layers.is_empty());
}

#[test]
fn logical_device_needs_complete_indices() {
    let partial = QueueFamilyIndices { graphics_family: None, presentation_family: Some(0) };
    assert_eq!(
        create_logical_device(&partial, true).unwrap_err(),
        SetupError::IncompleteQueueFamilies
    );
}
