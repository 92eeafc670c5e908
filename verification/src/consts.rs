use vstd::prelude::*;
use crate::names::{ascii_bytes, name_bytes};

verus! {

/// A Vulkan API version, `major.minor.patch`.
#[derive(Clone, Copy, Debug, PartialEq, Eq, Structural)]
pub struct ApiVersion {
    pub major: u32,
    pub minor: u32,
    pub patch: u32,
}

/// `a` is the same version as `b` or a later one (ordered by major, then
/// minor, then patch).
pub open spec fn version_at_least(a: ApiVersion, b: ApiVersion) -> bool {
    ||| a.major > b.major
    ||| a.major == b.major && a.minor > b.minor
    ||| a.major == b.major && a.minor == b.minor && a.patch >= b.patch
}

/// From this loader version on, the Vulkan SDK on macOS needs the
/// portability extensions: 1.3.216.
pub open spec fn portability_macos_version() -> ApiVersion {
    ApiVersion { major: 1, minor: 3, patch: 216 }
}

/// Compares two versions.
pub fn is_version_at_least(a: ApiVersion, b: ApiVersion) -> (at_least: bool)
    ensures
        at_least == version_at_least(a, b),
{
    if a.major != b.major {
        a.major > b.major
    } else if a.minor != b.minor {
        a.minor > b.minor
    } else {
        a.patch >= b.patch
    }
}

/// The loader version from which macOS needs the portability extensions.
pub fn portability_macos_version_value() -> (v: ApiVersion)
    ensures
        v == portability_macos_version(),
{
    ApiVersion { major: 1, minor: 3, patch: 216 }
}

/// `VK_LAYER_KHRONOS_validation`.
pub open spec fn validation_layer_name() -> Seq<u8> {
    ascii_bytes("VK_LAYER_KHRONOS_validation"@)
}

/// `VK_KHR_swapchain`.
pub open spec fn swapchain_extension_name() -> Seq<u8> {
    ascii_bytes("VK_KHR_swapchain"@)
}

/// `VK_KHR_portability_subset`.
pub open spec fn portability_subset_extension_name() -> Seq<u8> {
    ascii_bytes("VK_KHR_portability_subset"@)
}

/// `VK_KHR_get_physical_device_properties2`.
pub open spec fn physical_device_properties2_extension_name() -> Seq<u8> {
    ascii_bytes("VK_KHR_get_physical_device_properties2"@)
}

/// `VK_KHR_portability_enumeration`.
pub open spec fn portability_enumeration_extension_name() -> Seq<u8> {
    ascii_bytes("VK_KHR_portability_enumeration"@)
}

/// The validation layer the app enables when validation is on.
pub fn validation_layer() -> (name: Vec<u8>)
    ensures
        name@ == validation_layer_name(),
{
    proof {
        reveal_strlit("VK_LAYER_KHRONOS_validation");
    }
    name_bytes("VK_LAYER_KHRONOS_validation")
}

/// The device extensions the app cannot run without: the swapchain one.
pub fn device_extensions() -> (names: Vec<Vec<u8>>)
    ensures
        names.len() == 1,
        names@[0]@ == swapchain_extension_name(),
{
    proof {
        reveal_strlit("VK_KHR_swapchain");
    }
    let mut names = Vec::new();
    names.push(name_bytes("VK_KHR_swapchain"));
    names
}

/// The device extension macOS portability adds.
pub fn portability_subset_extension() -> (name: Vec<u8>)
    ensures
        name@ == portability_subset_extension_name(),
{
    proof {
        reveal_strlit("VK_KHR_portability_subset");
    }
    name_bytes("VK_KHR_portability_subset")
}

/// The first instance extension macOS portability adds.
pub fn physical_device_properties2_extension() -> (name: Vec<u8>)
    ensures
        name@ == physical_device_properties2_extension_name(),
{
    proof {
        reveal_strlit("VK_KHR_get_physical_device_properties2");
    }
    name_bytes("VK_KHR_get_physical_device_properties2")
}

/// The second instance extension macOS portability adds.
pub fn portability_enumeration_extension() -> (name: Vec<u8>)
    ensures
        name@ == portability_enumeration_extension_name(),
{
    proof {
        reveal_strlit("VK_KHR_portability_enumeration");
    }
    name_bytes("VK_KHR_portability_enumeration")
}

} // verus!
