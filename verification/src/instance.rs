use vstd::prelude::*;
use crate::consts::{
    ApiVersion, is_version_at_least, physical_device_properties2_extension,
    physical_device_properties2_extension_name, portability_enumeration_extension,
    portability_enumeration_extension_name, portability_macos_version,
    portability_macos_version_value, validation_layer,
    validation_layer_name, version_at_least,
};
use crate::error::AppError;
use crate::names::{ascii_bytes, contains_name, name_bytes, names_contain};
use crate::platform::entry_version;

verus! {

/// `VK_INSTANCE_CREATE_ENUMERATE_PORTABILITY_BIT_KHR`.
pub const INSTANCE_CREATE_ENUMERATE_PORTABILITY: u32 = 0x1;

/// `VK_MAKE_VERSION(major, minor, patch)`.
pub open spec fn packed_version(major: u32, minor: u32, patch: u32) -> u32 {
    ((major << 22u32) | (minor << 12u32) | patch) as u32
}

/// Packs a version the way `vk::make_version` does: major in the top ten
/// bits, minor in the next ten, patch in the low twelve.
pub fn make_version(major: u32, minor: u32, patch: u32) -> (version: u32)
    ensures
        version == packed_version(major, minor, patch),
        major < 1024 && minor < 1024 && patch < 4096 ==> version == major * 4194304 + minor * 4096 + patch,
{
    let version = (major << 22u32) | (minor << 12u32) | patch;
    assert(major < 1024 && minor < 1024 && patch < 4096 ==> version == major * 4194304 + minor * 4096 + patch) by (bit_vector)
        requires
            version == (major << 22u32) | (minor << 12u32) | patch,
    ;
    version
}

/// The application description the instance is created with.
pub struct ApplicationInfo {
    /// Without the terminating NUL.
    pub application_name: Vec<u8>,
    pub application_version: u32,
    /// Without the terminating NUL.
    pub engine_name: Vec<u8>,
    pub engine_version: u32,
    pub api_version: u32,
}

impl ApplicationInfo {
    /// "Vulkan Tutorial (Rust)" 1.0.0, with no engine, for the Vulkan 1.0 API.
    pub fn new() -> (info: ApplicationInfo)
        ensures
            info.application_name@ == ascii_bytes("Vulkan Tutorial (Rust)"@),
            info.application_version == packed_version(1, 0, 0),
            info.engine_name@ == ascii_bytes("No Engine"@),
            info.engine_version == packed_version(1, 0, 0),
            info.api_version == packed_version(1, 0, 0),
    {
        proof {
            reveal_strlit("Vulkan Tutorial (Rust)");
            reveal_strlit("No Engine");
        }
        ApplicationInfo {
            application_name: name_bytes("Vulkan Tutorial (Rust)"),
            application_version: make_version(1, 0, 0),
            engine_name: name_bytes("No Engine"),
            engine_version: make_version(1, 0, 0),
            api_version: make_version(1, 0, 0),
        }
    }
}

/// Whether the macOS portability extensions are needed: only on macOS, and
/// only when the loader reports version 1.3.216 or later. The loader is asked
/// only on macOS; its error code comes back when asking fails.
pub fn portability_enabled(entry: &vulkanalia::Entry, macos: bool) -> (enabled: Result<bool, i32>)
    ensures
        !macos ==> enabled == Ok::<bool, i32>(false),
{
    if !macos {
        return Ok(false);
    }
    let version = entry_version(entry)?;
    Ok(portability_required(version))
}

/// A loader of this version needs the portability extensions on macOS.
pub fn portability_required(version: ApiVersion) -> (required: bool)
    ensures
        required == version_at_least(version, portability_macos_version()),
        required == (version.major > 1 || (version.major == 1 && (version.minor > 3
            || (version.minor == 3 && version.patch >= 216)))),
{
    is_version_at_least(version, portability_macos_version_value())
}

/// The layers, extensions and flags a Vulkan instance is created with.
pub struct InstanceSettings {
    pub extensions: Vec<Vec<u8>>,
    pub layers: Vec<Vec<u8>>,
    pub flags: u32,
}

/// The instance extensions: the window's, then, with portability, the two
/// portability ones.
pub open spec fn instance_extension_names(window_extensions: Seq<Seq<u8>>, portability: bool) -> Seq<Seq<u8>> {
    if portability {
        window_extensions + seq![physical_device_properties2_extension_name(), portability_enumeration_extension_name()]
    } else {
        window_extensions
    }
}

impl InstanceSettings {
    /// The instance settings from the window's extensions, whether the
    /// portability setup is on, the layers the loader offers and whether
    /// validation is wanted. Validation that the loader cannot provide is an
    /// error.
    pub fn from_parts(window_extensions: Vec<Vec<u8>>, portability: bool, available_layers: &Vec<Vec<u8>>, validation: bool)
        -> (settings: Result<InstanceSettings, AppError>)
        ensures
            settings is Err <==> validation && !names_contain(available_layers@, validation_layer_name()),
            settings is Err ==> settings->Err_0 == AppError::ValidationUnsupported,
            settings matches Ok(s) ==> {
                &&& s.extensions@.map_values(|n: Vec<u8>| n@) == instance_extension_names(window_extensions@.map_values(|n: Vec<u8>| n@), portability)
                &&& s.flags == if portability { INSTANCE_CREATE_ENUMERATE_PORTABILITY } else { 0 }
                &&& validation ==> s.layers.len() == 1 && s.layers@[0]@ == validation_layer_name()
                &&& !validation ==> s.layers.len() == 0
            },
    {
        let mut extensions = window_extensions;
        let ghost window = extensions@;
        let flags = if portability {
            extensions.push(physical_device_properties2_extension());
            extensions.push(portability_enumeration_extension());
            INSTANCE_CREATE_ENUMERATE_PORTABILITY
        } else {
            0
        };
        assert(extensions@.map_values(|n: Vec<u8>| n@) =~= instance_extension_names(window.map_values(|n: Vec<u8>| n@), portability));
        let layer = validation_layer();
        if validation && !contains_name(available_layers, &layer) {
            return Err(AppError::ValidationUnsupported);
        }
        let mut layers = Vec::new();
        if validation {
            layers.push(layer);
        }
        Ok(InstanceSettings { extensions, layers, flags })
    }
}

} // verus!
