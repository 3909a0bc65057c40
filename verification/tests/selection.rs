use vulkan_playground::first_graphics_family;
use vulkan_playground::rendering_queue_family;
use vulkan_playground::swapchain_params;
use vulkan_playground::QueueFamilySupport;
use vulkan_playground::SwapchainParamError;
use vulkan_playground::SwapchainParams;
use vulkan_playground::UVec2;

#[test]
fn first_graphics_family_picks_first() {
    let families = vec![false, true, true];
    assert_eq!(first_graphics_family(&families), Some(1));
}

#[test]
fn first_graphics_family_none_without_support() {
    assert_eq!(first_graphics_family(&vec![false, false]), None);
    assert_eq!(first_graphics_family(&vec![]), None);
}

#[test]
fn rendering_family_needs_graphics_and_surface() {
    let families = vec![
        QueueFamilySupport { graphics: true, surface: false },
        QueueFamilySupport { graphics: false, surface: true },
        QueueFamilySupport { graphics: true, surface: true },
    ];
    assert_eq!(rendering_queue_family(&families), Some(2));
}

#[test]
fn rendering_family_none_without_candidate() {
    let families = vec![
        QueueFamilySupport { graphics: true, surface: false },
        QueueFamilySupport { graphics: false, surface: true },
    ];
    assert_eq!(rendering_queue_family(&families), None);
}

#[test]
fn swapchain_params_take_first_of_everything() {
    let r = swapchain_params(2, 4, 3, UVec2::new(800, 600));
    assert_eq!(
        r,
        Ok(SwapchainParams {
            image_count: 2,
            format_index: 0,
            alpha_index: 0,
            extent: UVec2(800, 600),
        })
    );
}

#[test]
fn swapchain_params_need_a_format() {
    let r = swapchain_params(2, 0, 3, UVec2::new(800, 600));
    assert_eq!(r, Err(SwapchainParamError::NoSupportedFormat));
}

#[test]
fn swapchain_params_need_an_alpha_mode() {
    let r = swapchain_params(2, 4, 0, UVec2::new(800, 600));
    assert_eq!(r, Err(SwapchainParamError::NoSupportedAlpha));
}

#[test]
fn no_enumerated_device_is_classified() {
    let devices: Vec<std::sync::Arc<vulkano::device::physical::PhysicalDevice>> = Vec::new();
    assert!(matches!(
        vulkan_playground::select_compute_device(&devices),
        Err(vulkan_playground::InterfaceError::NoPhysicalDevice)
    ));
}
