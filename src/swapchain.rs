//! Swapchain configuration: which surface format, present mode, extent,
//! image count and sharing mode to ask for.
use vstd::prelude::*;

use crate::device::QueueFamilyIndices;
use crate::vk_names::{
    color_space_srgb_nonlinear, format_b8g8r8a8_srgb, present_mode_fifo, present_mode_mailbox,
};

verus! {

/// A pixel format together with its color space, as raw Vulkan enumerants.
#[derive(Clone, Copy, Debug, PartialEq, Eq, Structural)]
pub struct SurfaceFormat {
    pub format: i32,
    pub color_space: i32,
}

#[derive(Clone, Copy, Debug, PartialEq, Eq, Structural)]
pub struct Extent2D {
    pub width: u32,
    pub height: u32,
}

/// What a surface reports about the swapchains it can back.
#[derive(Clone, Copy, Debug, PartialEq, Eq)]
pub struct SurfaceCapabilities {
    pub min_image_count: u32,
    /// Zero means that there is no upper bound.
    pub max_image_count: u32,
    /// A width of `u32::MAX` means that the window decides the extent.
    pub current_extent: Extent2D,
    pub min_image_extent: Extent2D,
    pub max_image_extent: Extent2D,
    /// Raw surface-transform flags, handed on unchanged.
    pub current_transform: u32,
}

/// The triple that a surface reports for one physical device.
#[derive(Clone, Debug)]
pub struct SwapchainSupport {
    pub capabilities: SurfaceCapabilities,
    pub formats: Vec<SurfaceFormat>,
    /// Raw present-mode enumerants.
    pub present_modes: Vec<i32>,
}

#[derive(Clone, Copy, Debug, PartialEq, Eq, Structural)]
pub enum SharingMode {
    Exclusive,
    Concurrent,
}

/// Everything that swapchain creation needs besides the handles.
#[derive(Clone, Debug)]
pub struct SwapchainPlan {
    pub surface_format: SurfaceFormat,
    pub present_mode: i32,
    pub extent: Extent2D,
    pub image_count: u32,
    pub pre_transform: u32,
    pub sharing_mode: SharingMode,
    /// The queue families that share the images; empty when exclusive.
    pub queue_family_indices: Vec<u32>,
}

/// B8G8R8A8_SRGB in the SRGB_NONLINEAR color space.
pub open spec fn preferred_format() -> SurfaceFormat {
    SurfaceFormat { format: 50, color_space: 0 }
}

pub open spec fn mailbox_mode() -> i32 {
    1
}

pub open spec fn fifo_mode() -> i32 {
    2
}

pub open spec fn chosen_format(formats: Seq<SurfaceFormat>) -> SurfaceFormat {
    if formats.contains(preferred_format()) {
        preferred_format()
    } else {
        formats[0]
    }
}

pub open spec fn chosen_present_mode(modes: Seq<i32>) -> i32 {
    if modes.contains(mailbox_mode()) {
        mailbox_mode()
    } else {
        fifo_mode()
    }
}

pub open spec fn clamped(v: u32, lo: u32, hi: u32) -> u32 {
    if v < lo {
        lo
    } else if v > hi {
        hi
    } else {
        v
    }
}

/// Whether the surface leaves the extent to the window.
pub open spec fn extent_undefined(caps: SurfaceCapabilities) -> bool {
    caps.current_extent.width == u32::MAX
}

pub open spec fn chosen_extent(caps: SurfaceCapabilities, window: Extent2D) -> Extent2D {
    if !extent_undefined(caps) {
        caps.current_extent
    } else {
        Extent2D {
            width: clamped(window.width, caps.min_image_extent.width, caps.max_image_extent.width),
            height: clamped(
                window.height,
                caps.min_image_extent.height,
                caps.max_image_extent.height,
            ),
        }
    }
}

/// One image more than the minimum, capped by the maximum when there is one.
pub open spec fn chosen_image_count(caps: SurfaceCapabilities) -> int {
    let wanted = caps.min_image_count + 1;
    if caps.max_image_count > 0 && wanted > caps.max_image_count {
        caps.max_image_count as int
    } else {
        wanted
    }
}

/// The wanted count fits in a `u32`.
pub open spec fn image_count_fits(caps: SurfaceCapabilities) -> bool {
    caps.max_image_count > 0 || caps.min_image_count < u32::MAX
}

pub fn choose_swap_surface_format(available_formats: &Vec<SurfaceFormat>) -> (r: SurfaceFormat)
    requires
        available_formats@.len() > 0,
    ensures
        r == chosen_format(available_formats@),
{
    let want_format = format_b8g8r8a8_srgb();
    let want_space = color_space_srgb_nonlinear();
    let mut i: usize = 0;
    while i < available_formats.len()
        invariant
            0 <= i <= available_formats@.len(),
            want_format == 50,
            want_space == 0,
            forall|j: int| 0 <= j < i ==> available_formats@[j] != preferred_format(),
        decreases available_formats@.len() - i,
    {
        let f = available_formats[i];
        if f.color_space == want_space && f.format == want_format {
            assert(available_formats@[i as int] == preferred_format());
            assert(available_formats@.contains(preferred_format()));
            return f;
        }
        i = i + 1;
    }
    assert(!available_formats@.contains(preferred_format()));
    available_formats[0]
}

pub fn choose_swap_present_mode(available_present_modes: &Vec<i32>) -> (r: i32)
    ensures
        r == chosen_present_mode(available_present_modes@),
{
    let mailbox = present_mode_mailbox();
    let mut i: usize = 0;
    while i < available_present_modes.len()
        invariant
            0 <= i <= available_present_modes@.len(),
            mailbox == mailbox_mode(),
            forall|j: int| 0 <= j < i ==> available_present_modes@[j] != mailbox_mode(),
        decreases available_present_modes@.len() - i,
    {
        if available_present_modes[i] == mailbox {
            assert(available_present_modes@.contains(mailbox_mode()));
            return mailbox;
        }
        i = i + 1;
    }
    assert(!available_present_modes@.contains(mailbox_mode()));
    present_mode_fifo()
}

fn clamp_u32(v: u32, lo: u32, hi: u32) -> (r: u32)
    ensures
        r == clamped(v, lo, hi),
{
    if v < lo {
        lo
    } else if v > hi {
        hi
    } else {
        v
    }
}

pub fn choose_swap_extent(capabilities: &SurfaceCapabilities, window_size: Extent2D) -> (r:
    Extent2D)
    ensures
        r == chosen_extent(*capabilities, window_size),
{
    if capabilities.current_extent.width != u32::MAX {
        capabilities.current_extent
    } else {
        Extent2D {
            width: clamp_u32(
                window_size.width,
                capabilities.min_image_extent.width,
                capabilities.max_image_extent.width,
            ),
            height: clamp_u32(
                window_size.height,
                capabilities.min_image_extent.height,
                capabilities.max_image_extent.height,
            ),
        }
    }
}

pub fn choose_image_count(capabilities: &SurfaceCapabilities) -> (r: u32)
    requires
        image_count_fits(*capabilities),
    ensures
        r as int == chosen_image_count(*capabilities),
{
    let max_image_count = capabilities.max_image_count;
    if max_image_count > 0 && capabilities.min_image_count >= max_image_count {
        max_image_count
    } else {
        capabilities.min_image_count + 1
    }
}

pub open spec fn families_differ(indices: QueueFamilyIndices) -> bool {
    indices.graphics_family.unwrap() != indices.presentation_family.unwrap()
}

/// Concurrent sharing between the two families when they differ, exclusive
/// ownership with no family list otherwise.
pub fn choose_sharing(indices: &QueueFamilyIndices) -> (r: (SharingMode, Vec<u32>))
    requires
        indices.complete(),
    ensures
        families_differ(*indices) ==> r.0 == SharingMode::Concurrent && r.1@ == seq![
            indices.graphics_family.unwrap(),
            indices.presentation_family.unwrap(),
        ],
        !families_differ(*indices) ==> r.0 == SharingMode::Exclusive && r.1@.len() == 0,
{
    let graphics = indices.graphics_family.unwrap();
    let present = indices.presentation_family.unwrap();
    if graphics != present {
        (SharingMode::Concurrent, vec![graphics, present])
    } else {
        (SharingMode::Exclusive, Vec::new())
    }
}

/// Negotiates every swapchain parameter from what the surface supports, the
/// window's pixel size and the chosen queue families.
pub fn plan_swapchain(
    support: &SwapchainSupport,
    window_size: Extent2D,
    indices: &QueueFamilyIndices,
) -> (r: SwapchainPlan)
    requires
        support.formats@.len() > 0,
        image_count_fits(support.capabilities),
        indices.complete(),
    ensures
        r.surface_format == chosen_format(support.formats@),
        r.present_mode == chosen_present_mode(support.present_modes@),
        r.extent == chosen_extent(support.capabilities, window_size),
        r.image_count as int == chosen_image_count(support.capabilities),
        r.pre_transform == support.capabilities.current_transform,
        families_differ(*indices) ==> r.sharing_mode == SharingMode::Concurrent
            && r.queue_family_indices@ == seq![
            indices.graphics_family.unwrap(),
            indices.presentation_family.unwrap(),
        ],
        !families_differ(*indices) ==> r.sharing_mode == SharingMode::Exclusive
            && r.queue_family_indices@.len() == 0,
{
    let surface_format = choose_swap_surface_format(&support.formats);
    let present_mode = choose_swap_present_mode(&support.present_modes);
    let extent = choose_swap_extent(&support.capabilities, window_size);
    let image_count = choose_image_count(&support.capabilities);
    let (sharing_mode, queue_family_indices) = choose_sharing(indices);
    SwapchainPlan {
        surface_format,
        present_mode,
        extent,
        image_count,
        pre_transform: support.capabilities.current_transform,
        sharing_mode,
        queue_family_indices,
    }
}

} // verus!
