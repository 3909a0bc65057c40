//! Small Vulkan convenience layer: a dimension value, device/resource
//! acquisition helpers, and the decision logic of a swapchain present loop.

mod compute;
mod frame;
mod interface;
mod select;
mod swapchain;
mod vec2;

pub use compute::dispatch_group_counts;
pub use compute::output_byte_len;
pub use compute::rgba_output_well_formed;
pub use compute::BYTES_PER_TEXEL;
pub use compute::LOCAL_SIZE;
pub use interface::create_render_device;
pub use interface::select_compute_device;
pub use interface::zero_bytes;
pub use interface::Interface;
pub use interface::InterfaceError;
pub use frame::AcquireOutcome;
pub use frame::AcquireStep;
pub use frame::EventDirective;
pub use frame::FrameEnd;
pub use frame::LoopEvent;
pub use frame::LoopState;
pub use frame::PresentOutcome;
pub use frame::RecreateOutcome;
pub use frame::RecreateStep;
pub use frame::RedrawPlan;
pub use select::first_graphics_family;
pub use select::rendering_queue_family;
pub use select::QueueFamilySupport;
pub use swapchain::swapchain_params;
pub use swapchain::SwapchainParamError;
pub use swapchain::SwapchainParams;
pub use vec2::UVec2;
