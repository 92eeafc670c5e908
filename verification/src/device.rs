use vstd::prelude::*;
use crate::consts::{device_extensions, portability_subset_extension, portability_subset_extension_name, swapchain_extension_name};
use crate::error::SuitabilityError;
use crate::names::{contains_all_names, names_contain};
use crate::swapchain::SwapchainSupport;

verus! {

/// The text of the error for a device without the required extensions.
pub open spec fn missing_device_extensions() -> Seq<char> {
    "Missing required device extensions"@
}

/// The text of the error for a device that cannot present to the surface.
pub open spec fn insufficient_swapchain_support() -> Seq<char> {
    "Insufficient swapchain support."@
}

/// Checks that a device offers every required extension.
pub fn check_physical_device_extensions(available: &Vec<Vec<u8>>) -> (checked: Result<(), SuitabilityError>)
    ensures
        checked is Ok <==> names_contain(available@, swapchain_extension_name()),
        checked is Err ==> checked->Err_0.0@ == missing_device_extensions(),
{
    let required = device_extensions();
    if contains_all_names(available, &required) {
        assert(names_contain(available@, required@[0]@));
        Ok(())
    } else {
        proof {
            reveal_strlit("Missing required device extensions");
        }
        Err(SuitabilityError("Missing required device extensions"))
    }
}

/// Checks that a device offers at least one surface format and one present
/// mode for the surface.
pub fn check_swapchain_support(support: &SwapchainSupport) -> (checked: Result<(), SuitabilityError>)
    ensures
        checked is Ok <==> support.formats.len() > 0 && support.present_modes.len() > 0,
        checked is Err ==> checked->Err_0.0@ == insufficient_swapchain_support(),
{
    if support.formats.len() == 0 || support.present_modes.len() == 0 {
        proof {
            reveal_strlit("Insufficient swapchain support.");
        }
        return Err(SuitabilityError("Insufficient swapchain support."));
    }
    Ok(())
}

/// The extensions the logical device is created with: the required ones,
/// then the portability subset when the macOS portability setup is on.
pub fn logical_device_extensions(portability: bool) -> (names: Vec<Vec<u8>>)
    ensures
        !portability ==> names.len() == 1 && names@[0]@ == swapchain_extension_name(),
        portability ==> names.len() == 2 && names@[0]@ == swapchain_extension_name()
            && names@[1]@ == portability_subset_extension_name(),
{
    let mut names = device_extensions();
    if portability {
        names.push(portability_subset_extension());
    }
    names
}

} // verus!
