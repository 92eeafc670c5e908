use vstd::prelude::*;
use crate::error::AppError;
use crate::queues::{sharing_of, QueueFamilyIndices};

verus! {

/// `VK_FORMAT_B8G8R8A8_SRGB`.
pub const FORMAT_B8G8R8A8_SRGB: i32 = 50;

/// `VK_COLOR_SPACE_SRGB_NONLINEAR_KHR`.
pub const COLOR_SPACE_SRGB_NONLINEAR: i32 = 0;

/// `VK_PRESENT_MODE_MAILBOX_KHR`.
pub const PRESENT_MODE_MAILBOX: i32 = 1;

/// `VK_PRESENT_MODE_FIFO_KHR`, which every implementation offers.
pub const PRESENT_MODE_FIFO: i32 = 2;

/// `VK_IMAGE_USAGE_COLOR_ATTACHMENT_BIT`.
pub const IMAGE_USAGE_COLOR_ATTACHMENT: u32 = 0x10;

/// `VK_COMPOSITE_ALPHA_OPAQUE_BIT_KHR`.
pub const COMPOSITE_ALPHA_OPAQUE: u32 = 0x1;

/// A width and a height in pixels.
#[derive(Clone, Copy, Debug, PartialEq, Eq, Structural)]
pub struct Extent2D {
    pub width: u32,
    pub height: u32,
}

/// A pixel format with the color space it is shown in.
#[derive(Clone, Copy, Debug, PartialEq, Eq, Structural)]
pub struct SurfaceFormat {
    pub format: i32,
    pub color_space: i32,
}

/// What a surface allows for the swapchains presented to it.
#[derive(Clone, Copy, Debug, PartialEq, Eq, Structural)]
pub struct SurfaceCapabilities {
    pub min_image_count: u32,
    /// Zero when the number of images has no upper bound.
    pub max_image_count: u32,
    /// `u32::MAX` in `width` when the swapchain picks its own extent.
    pub current_extent: Extent2D,
    pub min_image_extent: Extent2D,
    pub max_image_extent: Extent2D,
    pub current_transform: u32,
}

/// What a physical device offers for presenting to a surface.
pub struct SwapchainSupport {
    pub capabilities: SurfaceCapabilities,
    /// Surface format (pixel format and color space) pairs.
    pub formats: Vec<SurfaceFormat>,
    /// The conditions under which images are shown on the screen.
    pub present_modes: Vec<i32>,
}

/// The format the app looks for: 8-bit BGRA in sRGB, nonlinear sRGB colors.
pub open spec fn preferred_surface_format() -> SurfaceFormat {
    SurfaceFormat { format: FORMAT_B8G8R8A8_SRGB, color_space: COLOR_SPACE_SRGB_NONLINEAR }
}

/// The preferred format when offered, the first offered one otherwise.
pub open spec fn chosen_surface_format(formats: Seq<SurfaceFormat>) -> SurfaceFormat {
    if formats.contains(preferred_surface_format()) {
        preferred_surface_format()
    } else {
        formats[0]
    }
}

/// MAILBOX when offered, FIFO otherwise.
pub open spec fn chosen_present_mode(present_modes: Seq<i32>) -> i32 {
    if present_modes.contains(PRESENT_MODE_MAILBOX) {
        PRESENT_MODE_MAILBOX
    } else {
        PRESENT_MODE_FIFO
    }
}

/// `u32::clamp`: `value` moved into `min..=max`.
pub open spec fn clamp(value: u32, min: u32, max: u32) -> u32 {
    if value < min {
        min
    } else if value > max {
        max
    } else {
        value
    }
}

/// The surface fixes the extent (its current width is not the `u32::MAX` marker).
pub open spec fn extent_is_fixed(capabilities: SurfaceCapabilities) -> bool {
    capabilities.current_extent.width != u32::MAX
}

/// The extent range the surface allows is not empty.
pub open spec fn extent_range_is_valid(capabilities: SurfaceCapabilities) -> bool {
    &&& capabilities.min_image_extent.width <= capabilities.max_image_extent.width
    &&& capabilities.min_image_extent.height <= capabilities.max_image_extent.height
}

/// The surface's own extent when it fixes one, else the window size clamped
/// into the allowed range.
pub open spec fn chosen_extent(window_size: Extent2D, capabilities: SurfaceCapabilities) -> Extent2D {
    if extent_is_fixed(capabilities) {
        capabilities.current_extent
    } else {
        Extent2D {
            width: clamp(window_size.width, capabilities.min_image_extent.width, capabilities.max_image_extent.width),
            height: clamp(window_size.height, capabilities.min_image_extent.height, capabilities.max_image_extent.height),
        }
    }
}

/// One image more than the minimum, capped by the maximum when there is one.
pub open spec fn chosen_image_count(capabilities: SurfaceCapabilities) -> int {
    let wanted = capabilities.min_image_count + 1;
    if capabilities.max_image_count != 0 && wanted > capabilities.max_image_count {
        capabilities.max_image_count as int
    } else {
        wanted
    }
}

/// A swapchain can be built from what the surface reports: there is a
/// format to pick, one more image than the minimum fits in a `u32`, and the
/// extent range is not empty when the surface leaves the extent open.
pub open spec fn supports_swapchain(support: SwapchainSupport) -> bool {
    &&& support.formats.len() > 0
    &&& support.capabilities.min_image_count < u32::MAX
    &&& extent_is_fixed(support.capabilities) || extent_range_is_valid(support.capabilities)
}

/// Picks the surface format: the preferred one when offered, else the first.
pub fn get_swapchain_surface_format(formats: &Vec<SurfaceFormat>) -> (format: SurfaceFormat)
    requires
        formats.len() > 0,
    ensures
        format == chosen_surface_format(formats@),
        formats@.contains(format),
{
    let mut i: usize = 0;
    while i < formats.len()
        invariant
            i <= formats.len(),
            forall|j: int| 0 <= j < i ==> formats@[j] != preferred_surface_format(),
        decreases formats.len() - i,
    {
        let f = formats[i];
        if f.format == FORMAT_B8G8R8A8_SRGB && f.color_space == COLOR_SPACE_SRGB_NONLINEAR {
            assert(formats@[i as int] == preferred_surface_format());
            return f;
        }
        i = i + 1;
    }
    formats[0]
}

/// Picks the present mode: MAILBOX (replaces queued images when the queue is
/// full) when offered, else FIFO, which is always available.
pub fn get_swapchain_present_mode(present_modes: &Vec<i32>) -> (mode: i32)
    ensures
        mode == chosen_present_mode(present_modes@),
{
    let mut i: usize = 0;
    while i < present_modes.len()
        invariant
            i <= present_modes.len(),
            forall|j: int| 0 <= j < i ==> present_modes@[j] != PRESENT_MODE_MAILBOX,
        decreases present_modes.len() - i,
    {
        if present_modes[i] == PRESENT_MODE_MAILBOX {
            assert(present_modes@[i as int] == PRESENT_MODE_MAILBOX);
            return PRESENT_MODE_MAILBOX;
        }
        i = i + 1;
    }
    PRESENT_MODE_FIFO
}

/// `u32::clamp` (which panics when `min > max`, hence the requirement).
pub fn clamp_u32(value: u32, min: u32, max: u32) -> (clamped: u32)
    requires
        min <= max,
    ensures
        clamped == clamp(value, min, max),
{
    if value < min {
        min
    } else if value > max {
        max
    } else {
        value
    }
}

/// The swapchain extent for a window whose client area has the given size:
/// the surface's own extent when it fixes one, else the window size clamped
/// into the allowed range.
pub fn get_swapchain_extent(window_size: Extent2D, capabilities: &SurfaceCapabilities) -> (extent: Extent2D)
    requires
        extent_is_fixed(*capabilities) || extent_range_is_valid(*capabilities),
    ensures
        extent == chosen_extent(window_size, *capabilities),
{
    if capabilities.current_extent.width != u32::MAX {
        capabilities.current_extent
    } else {
        Extent2D {
            width: clamp_u32(window_size.width, capabilities.min_image_extent.width, capabilities.max_image_extent.width),
            height: clamp_u32(window_size.height, capabilities.min_image_extent.height, capabilities.max_image_extent.height),
        }
    }
}

/// The number of swapchain images to ask for.
pub fn swapchain_image_count(capabilities: &SurfaceCapabilities) -> (count: u32)
    requires
        capabilities.min_image_count < u32::MAX,
    ensures
        count == chosen_image_count(*capabilities),
{
    let mut count = capabilities.min_image_count + 1;
    if capabilities.max_image_count != 0 && count > capabilities.max_image_count {
        count = capabilities.max_image_count;
    }
    count
}

/// Law: the image count is never below the surface's minimum, exceeds it by
/// one unless the maximum stops it, and never exceeds a set maximum.
pub proof fn lemma_image_count_bounds(capabilities: SurfaceCapabilities)
    requires
        capabilities.min_image_count <= capabilities.max_image_count || capabilities.max_image_count == 0,
    ensures
        chosen_image_count(capabilities) >= capabilities.min_image_count,
        capabilities.max_image_count != 0 ==> chosen_image_count(capabilities) <= capabilities.max_image_count,
        capabilities.max_image_count == 0 || capabilities.min_image_count < capabilities.max_image_count
            ==> chosen_image_count(capabilities) == capabilities.min_image_count + 1,
{
}

/// Law: the chosen extent always lies in the surface's allowed range, and is
/// the window size itself when that already lies in the range.
pub proof fn lemma_extent_in_range(window_size: Extent2D, capabilities: SurfaceCapabilities)
    requires
        !extent_is_fixed(capabilities),
        extent_range_is_valid(capabilities),
    ensures
        capabilities.min_image_extent.width <= chosen_extent(window_size, capabilities).width <= capabilities.max_image_extent.width,
        capabilities.min_image_extent.height <= chosen_extent(window_size, capabilities).height <= capabilities.max_image_extent.height,
        capabilities.min_image_extent.width <= window_size.width <= capabilities.max_image_extent.width
            && capabilities.min_image_extent.height <= window_size.height <= capabilities.max_image_extent.height
            ==> chosen_extent(window_size, capabilities) == window_size,
{
}

/// Law: whether a swapchain can be built does not depend on the surface's
/// maximum image count (only the count asked for does), and a surface whose
/// minimum and maximum are equal gets exactly that many images; in general
/// the count asked for is one above the minimum unless a set maximum stops it.
pub proof fn lemma_image_maximum_never_refuses(support: SwapchainSupport, max_image_count: u32)
    ensures
        supports_swapchain(support) == supports_swapchain(SwapchainSupport {
            capabilities: SurfaceCapabilities { max_image_count, ..support.capabilities },
            ..support
        }),
        support.capabilities.min_image_count == support.capabilities.max_image_count
            && support.capabilities.max_image_count != 0
            ==> chosen_image_count(support.capabilities) == support.capabilities.max_image_count,
        supports_swapchain(support) && support.capabilities.max_image_count == 0
            ==> chosen_image_count(support.capabilities) == support.capabilities.min_image_count + 1,
{
}

/// Everything a swapchain is created with apart from the surface handle.
pub struct SwapchainSettings {
    pub min_image_count: u32,
    pub surface_format: SurfaceFormat,
    pub extent: Extent2D,
    /// One layer per image (no stereoscopic rendering).
    pub image_array_layers: u32,
    /// The images are rendered into directly, as color attachments.
    pub image_usage: u32,
    pub image_sharing_mode: i32,
    pub queue_family_indices: Vec<u32>,
    /// The transform the surface currently applies (left as it is).
    pub pre_transform: u32,
    pub composite_alpha: u32,
    pub present_mode: i32,
    /// Pixels hidden by other windows are not kept.
    pub clipped: bool,
}

impl SwapchainSettings {
    /// The swapchain settings for a surface with `support`, the queue
    /// families `indices` and the extent `extent`.
    pub fn new(indices: &QueueFamilyIndices, support: &SwapchainSupport, extent: Extent2D) -> (settings: SwapchainSettings)
        requires
            support.formats.len() > 0,
            support.capabilities.min_image_count < u32::MAX,
        ensures
            settings.surface_format == chosen_surface_format(support.formats@),
            settings.present_mode == chosen_present_mode(support.present_modes@),
            settings.extent == extent,
            settings.min_image_count == chosen_image_count(support.capabilities),
            (settings.image_sharing_mode, settings.queue_family_indices@) == sharing_of(*indices),
            settings.pre_transform == support.capabilities.current_transform,
            settings.image_array_layers == 1,
            settings.image_usage == IMAGE_USAGE_COLOR_ATTACHMENT,
            settings.composite_alpha == COMPOSITE_ALPHA_OPAQUE,
            settings.clipped,
    {
        let surface_format = get_swapchain_surface_format(&support.formats);
        let present_mode = get_swapchain_present_mode(&support.present_modes);
        let min_image_count = swapchain_image_count(&support.capabilities);
        let (image_sharing_mode, queue_family_indices) = indices.image_sharing();
        SwapchainSettings {
            min_image_count,
            surface_format,
            extent,
            image_array_layers: 1,
            image_usage: IMAGE_USAGE_COLOR_ATTACHMENT,
            image_sharing_mode,
            queue_family_indices,
            pre_transform: support.capabilities.current_transform,
            composite_alpha: COMPOSITE_ALPHA_OPAQUE,
            present_mode,
            clipped: true,
        }
    }

    /// The swapchain settings for a window whose client area has the size
    /// `window_size`: an error when the surface reports values no swapchain
    /// can be built from.
    pub fn for_window(window_size: Extent2D, indices: &QueueFamilyIndices, support: &SwapchainSupport)
        -> (settings: Result<SwapchainSettings, AppError>)
        ensures
            !supports_swapchain(*support) <==> settings is Err,
            settings is Ok <==> support.formats.len() > 0
                && support.capabilities.min_image_count < u32::MAX
                && (support.capabilities.current_extent.width != u32::MAX
                    || (support.capabilities.min_image_extent.width <= support.capabilities.max_image_extent.width
                        && support.capabilities.min_image_extent.height <= support.capabilities.max_image_extent.height)),
            settings is Err ==> settings->Err_0 == AppError::UnusableSurface,
            settings matches Ok(s) ==> {
                &&& s.surface_format == chosen_surface_format(support.formats@)
                &&& s.present_mode == chosen_present_mode(support.present_modes@)
                &&& s.min_image_count == chosen_image_count(support.capabilities)
                &&& s.extent == chosen_extent(window_size, support.capabilities)
                &&& (s.image_sharing_mode, s.queue_family_indices@) == sharing_of(*indices)
                &&& s.pre_transform == support.capabilities.current_transform
                &&& s.image_array_layers == 1
                &&& s.image_usage == IMAGE_USAGE_COLOR_ATTACHMENT
                &&& s.composite_alpha == COMPOSITE_ALPHA_OPAQUE
                &&& s.clipped
            },
    {
        if !support.supports_swapchain() {
            return Err(AppError::UnusableSurface);
        }
        let extent = get_swapchain_extent(window_size, &support.capabilities);
        Ok(SwapchainSettings::new(indices, support, extent))
    }
}

impl SurfaceCapabilities {
    /// Whether the swapchain extent depends on the window's size: the surface
    /// leaves the extent open.
    pub fn needs_window_size(&self) -> (needed: bool)
        ensures
            needed == !extent_is_fixed(*self),
    {
        self.current_extent.width == u32::MAX
    }
}

impl SwapchainSupport {
    /// Whether a swapchain can be built from what the surface reports.
    pub fn supports_swapchain(&self) -> (ok: bool)
        ensures
            ok == supports_swapchain(*self),
            ok == (self.formats.len() > 0 && self.capabilities.min_image_count < u32::MAX
                && (self.capabilities.current_extent.width != u32::MAX
                    || (self.capabilities.min_image_extent.width <= self.capabilities.max_image_extent.width
                        && self.capabilities.min_image_extent.height <= self.capabilities.max_image_extent.height))),
    {
        self.formats.len() > 0 && self.capabilities.min_image_count < u32::MAX && (
        self.capabilities.current_extent.width != u32::MAX || (
        self.capabilities.min_image_extent.width <= self.capabilities.max_image_extent.width
            && self.capabilities.min_image_extent.height <= self.capabilities.max_image_extent.height))
    }
}

} // verus!
