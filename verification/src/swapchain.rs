//! Choice of swapchain creation parameters.
//!
//! The platform reports the surface's capabilities: a minimum image count
//! and lists of supported formats and of supported composite-alpha modes.
//! The demos take the first supported format, the first supported alpha
//! mode, the minimum image count, and size the chain to the window. This
//! module makes those choices over plain values; the host program passes
//! the chosen entries to the platform.

use vstd::prelude::*;

use crate::vec2::UVec2;

verus! {

/// Parameters a swapchain is created with: which entries of the supported
/// lists were chosen, how many images, and the extent.
#[derive(Copy, Clone, Debug, PartialEq, Eq, Structural)]
pub struct SwapchainParams {
    /// Number of images in the chain.
    pub image_count: u32,
    /// Index of the chosen entry in the supported-formats list.
    pub format_index: usize,
    /// Index of the chosen entry in the supported-alpha-modes list.
    pub alpha_index: usize,
    /// Dimensions of the chain's images: the window's dimensions.
    pub extent: UVec2,
}

/// Why no swapchain parameters could be chosen.
#[derive(Copy, Clone, Debug, PartialEq, Eq, Structural)]
pub enum SwapchainParamError {
    /// The surface reports no supported image format.
    NoSupportedFormat,
    /// The surface reports no supported composite-alpha mode.
    NoSupportedAlpha,
}

/// Choose swapchain parameters from the surface's capabilities: the first
/// supported format, the first supported alpha mode, the minimum image
/// count, and the window's dimensions. Fails exactly when one of the two
/// supported lists is empty.
pub fn swapchain_params(
    min_image_count: u32,
    format_count: usize,
    alpha_count: usize,
    window_size: UVec2,
) -> (r: Result<SwapchainParams, SwapchainParamError>)
    ensures
        format_count == 0 ==> r == Result::<
            SwapchainParams,
            SwapchainParamError,
        >::Err(SwapchainParamError::NoSupportedFormat),
        format_count > 0 && alpha_count == 0 ==> r == Result::<
            SwapchainParams,
            SwapchainParamError,
        >::Err(SwapchainParamError::NoSupportedAlpha),
        format_count > 0 && alpha_count > 0 ==> r == Result::<
            SwapchainParams,
            SwapchainParamError,
        >::Ok(
            SwapchainParams {
                image_count: min_image_count,
                format_index: 0,
                alpha_index: 0,
                extent: window_size,
            },
        ),
{
    if format_count == 0 {
        Err(SwapchainParamError::NoSupportedFormat)
    } else if alpha_count == 0 {
        Err(SwapchainParamError::NoSupportedAlpha)
    } else {
        Ok(
            SwapchainParams {
                image_count: min_image_count,
                format_index: 0,
                alpha_index: 0,
                extent: window_size,
            },
        )
    }
}

} // verus!
