//! Values that come from the `ash` bindings: extension names and the raw
//! numbers of the enumerants that the selection rules look for.
use vstd::prelude::*;

verus! {

/// Relies on `ash::vk::QueueFlags::contains`: a family supports graphics
/// exactly when the GRAPHICS bit (`0b1`) is set in its flags.
#[verifier::external_body]
pub(crate) fn has_graphics_bit(flags: u32) -> (r: bool)
    ensures
        r == (flags & 1u32 == 1u32),
{
    ash::vk::QueueFlags::from_raw(flags).contains(ash::vk::QueueFlags::GRAPHICS)
}

/// Relies on `ash::extensions::khr::Swapchain::name`, which is the C string
/// `VK_KHR_swapchain`.
#[verifier::external_body]
pub(crate) fn swapchain_extension_name() -> (r: String)
    ensures
        r@ == "VK_KHR_swapchain"@,
{
    ash::extensions::khr::Swapchain::name().to_string_lossy().into_owned()
}

/// Relies on `ash::extensions::ext::DebugUtils::name`, which is the C string
/// `VK_EXT_debug_utils`.
#[verifier::external_body]
pub(crate) fn debug_utils_extension_name() -> (r: String)
    ensures
        r@ == "VK_EXT_debug_utils"@,
{
    ash::extensions::ext::DebugUtils::name().to_string_lossy().into_owned()
}

/// Relies on `ash::vk::Format::B8G8R8A8_SRGB`, whose raw value is 50.
#[verifier::external_body]
pub(crate) fn format_b8g8r8a8_srgb() -> (r: i32)
    ensures
        r == 50,
{
    ash::vk::Format::B8G8R8A8_SRGB.as_raw()
}

/// Relies on `ash::vk::ColorSpaceKHR::SRGB_NONLINEAR`, whose raw value is 0.
#[verifier::external_body]
pub(crate) fn color_space_srgb_nonlinear() -> (r: i32)
    ensures
        r == 0,
{
    ash::vk::ColorSpaceKHR::SRGB_NONLINEAR.as_raw()
}

/// Relies on `ash::vk::PresentModeKHR::MAILBOX`, whose raw value is 1.
#[verifier::external_body]
pub(crate) fn present_mode_mailbox() -> (r: i32)
    ensures
        r == 1,
{
    ash::vk::PresentModeKHR::MAILBOX.as_raw()
}

/// Relies on `ash::vk::PresentModeKHR::FIFO`, whose raw value is 2.
#[verifier::external_body]
pub(crate) fn present_mode_fifo() -> (r: i32)
    ensures
        r == 2,
{
    ash::vk::PresentModeKHR::FIFO.as_raw()
}

} // verus!
