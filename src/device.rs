//! Queue-family discovery, physical-device selection and the shape of the
//! logical device to create.
use vstd::prelude::*;

use crate::error::SetupError;
use crate::negotiate::{contains_name, names, validation_layer_names, validation_layers};
use crate::swapchain::SwapchainSupport;
use crate::vk_names::{has_graphics_bit, swapchain_extension_name};

verus! {

/// The queue families a device offers for drawing and for presenting.
#[derive(Clone, Copy, Debug, PartialEq, Eq)]
pub struct QueueFamilyIndices {
    pub graphics_family: Option<u32>,
    pub presentation_family: Option<u32>,
}

impl QueueFamilyIndices {
    pub open spec fn complete(&self) -> bool {
        self.graphics_family.is_some() && self.presentation_family.is_some()
    }

    /// Both a graphics family and a presentation family are known.
    pub fn is_complete(&self) -> (r: bool)
        ensures
            r == self.complete(),
    {
        self.graphics_family.is_some() && self.presentation_family.is_some()
    }
}

/// One queue family of a physical device: its raw capability flags and
/// whether it can present to the bound surface.
#[derive(Clone, Copy, Debug, PartialEq, Eq)]
pub struct QueueFamily {
    pub flags: u32,
    pub supports_present: bool,
}

impl QueueFamily {
    /// The GRAPHICS bit is set in the family's flags.
    pub fn has_graphics(&self) -> (r: bool)
        ensures
            r == supports_graphics(*self),
    {
        has_graphics_bit(self.flags)
    }
}

/// The capability snapshot of one physical device.
#[derive(Clone, Debug)]
pub struct DeviceProfile {
    pub queue_families: Vec<QueueFamily>,
    pub extensions: Vec<String>,
    pub swapchain_support: SwapchainSupport,
}

/// What to ask for when creating the logical device.
#[derive(Clone, Debug)]
pub struct DevicePlan {
    /// The distinct families; one queue of priority 1.0 is requested from each.
    pub queue_families: Vec<u32>,
    pub extensions: Vec<String>,
    pub layers: Vec<String>,
}

pub open spec fn supports_graphics(f: QueueFamily) -> bool {
    f.flags & 1u32 == 1u32
}

/// The last family index with graphics support, scanning in order.
pub open spec fn last_graphics_family(fams: Seq<QueueFamily>) -> Option<u32>
    decreases fams.len(),
{
    if fams.len() == 0 {
        None
    } else if supports_graphics(fams.last()) {
        Some((fams.len() - 1) as u32)
    } else {
        last_graphics_family(fams.drop_last())
    }
}

/// The last family index that can present to the surface.
pub open spec fn last_present_family(fams: Seq<QueueFamily>) -> Option<u32>
    decreases fams.len(),
{
    if fams.len() == 0 {
        None
    } else if fams.last().supports_present {
        Some((fams.len() - 1) as u32)
    } else {
        last_present_family(fams.drop_last())
    }
}

pub open spec fn queue_families_of(fams: Seq<QueueFamily>) -> QueueFamilyIndices {
    QueueFamilyIndices {
        graphics_family: last_graphics_family(fams),
        presentation_family: last_present_family(fams),
    }
}

pub open spec fn swapchain_extension() -> Seq<char> {
    "VK_KHR_swapchain"@
}

/// The three requirements on a device: both queue families, the swapchain
/// extension, and at least one surface format and one present mode.
pub open spec fn suitable(p: DeviceProfile) -> bool {
    &&& queue_families_of(p.queue_families@).complete()
    &&& names(p.extensions@).contains(swapchain_extension())
    &&& p.swapchain_support.formats@.len() > 0
    &&& p.swapchain_support.present_modes@.len() > 0
}

/// Vulkan counts queue families with a `u32`.
pub open spec fn family_count_fits(p: DeviceProfile) -> bool {
    p.queue_families@.len() <= u32::MAX
}

pub fn find_queue_families(families: &Vec<QueueFamily>) -> (r: QueueFamilyIndices)
    requires
        families@.len() <= u32::MAX,
    ensures
        r == queue_families_of(families@),
{
    let mut indices = QueueFamilyIndices { graphics_family: None, presentation_family: None };
    let mut i: usize = 0;
    while i < families.len()
        invariant
            0 <= i <= families@.len() <= u32::MAX,
            indices == queue_families_of(families@.subrange(0, i as int)),
        decreases families@.len() - i,
    {
        let family = families[i];
        proof {
            let next = families@.subrange(0, i as int + 1);
            assert(next.drop_last() =~= families@.subrange(0, i as int));
            assert(next.last() == family);
        }
        if family.has_graphics() {
            indices.graphics_family = Some(i as u32);
        }
        if family.supports_present {
            indices.presentation_family = Some(i as u32);
        }
        i = i + 1;
    }
    assert(families@.subrange(0, families@.len() as int) =~= families@);
    indices
}

/// Whether the swapchain extension is among the device's extensions.
pub fn check_device_extension_support(extensions: &Vec<String>) -> (r: bool)
    ensures
        r == names(extensions@).contains(swapchain_extension()),
{
    let wanted = swapchain_extension_name();
    contains_name(extensions, &wanted)
}

pub fn is_device_suitable(profile: &DeviceProfile) -> (r: bool)
    requires
        family_count_fits(*profile),
    ensures
        r == suitable(*profile),
{
    let indices = find_queue_families(&profile.queue_families);
    let extensions_supported = check_device_extension_support(&profile.extensions);
    let swapchain_adequate = extensions_supported && profile.swapchain_support.formats.len() > 0
        && profile.swapchain_support.present_modes.len() > 0;
    indices.is_complete() && swapchain_adequate
}

/// The first suitable device in enumeration order; no scoring.
pub fn pick_physical_device(devices: &Vec<DeviceProfile>) -> (r: Result<usize, SetupError>)
    requires
        forall|i: int| 0 <= i < devices@.len() ==> family_count_fits(#[trigger] devices@[i]),
    ensures
        match r {
            Ok(i) => {
                &&& i < devices@.len()
                &&& suitable(devices@[i as int])
                &&& forall|j: int| 0 <= j < i ==> !suitable(#[trigger] devices@[j])
            },
            Err(e) => {
                &&& e is NoSuitableDevice
                &&& forall|j: int| 0 <= j < devices@.len() ==> !suitable(#[trigger] devices@[j])
            },
        },
{
    let mut i: usize = 0;
    while i < devices.len()
        invariant
            0 <= i <= devices@.len(),
            forall|j: int| 0 <= j < devices@.len() ==> family_count_fits(#[trigger] devices@[j]),
            forall|j: int| 0 <= j < i ==> !suitable(#[trigger] devices@[j]),
        decreases devices@.len() - i,
    {
        if is_device_suitable(&devices[i]) {
            return Ok(i);
        }
        i = i + 1;
    }
    Err(SetupError::NoSuitableDevice)
}

/// The distinct queue families of the device, graphics first.
pub open spec fn unique_families(indices: QueueFamilyIndices) -> Seq<u32> {
    let g = indices.graphics_family.unwrap();
    let p = indices.presentation_family.unwrap();
    if g == p {
        seq![g]
    } else {
        seq![g, p]
    }
}

/// The logical device to create: one queue per distinct family, the swapchain
/// extension, and the validation layers when diagnostics are on.
pub fn create_logical_device(indices: &QueueFamilyIndices, enable_validation_layer: bool) -> (r:
    Result<DevicePlan, SetupError>)
    ensures
        r is Ok <==> indices.complete(),
        r matches Err(e) ==> e is IncompleteQueueFamilies,
        r matches Ok(plan) ==> {
            &&& plan.queue_families@ == unique_families(*indices)
            &&& names(plan.extensions@) == seq![swapchain_extension()]
            &&& names(plan.layers@) == validation_layer_names(enable_validation_layer)
        },
{
    if !indices.is_complete() {
        return Err(SetupError::IncompleteQueueFamilies);
    }
    let graphics = indices.graphics_family.unwrap();
    let present = indices.presentation_family.unwrap();
    let queue_families = if graphics == present {
        vec![graphics]
    } else {
        vec![graphics, present]
    };
    let extensions = vec![swapchain_extension_name()];
    proof {
        assert(names(extensions@) =~= seq![swapchain_extension()]);
    }
    let layers = validation_layers(enable_validation_layer);
    Ok(DevicePlan { queue_families, extensions, layers })
}

} // verus!
