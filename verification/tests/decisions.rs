//! Concrete cases of the library's decisions.

use vulkan_tutorial::consts::{is_version_at_least, ApiVersion};
use vulkan_tutorial::device::{check_physical_device_extensions, check_swapchain_support, logical_device_extensions};
use vulkan_tutorial::error::{AppError, SuitabilityError};
use vulkan_tutorial::events::{LoopAction, LoopEvent, LoopState};
use vulkan_tutorial::instance::{portability_required, ApplicationInfo, InstanceSettings};
use vulkan_tutorial::names::{contains_all_names, contains_name, same_name};
use vulkan_tutorial::pipeline::{
    shader_bytecode, shader_entry_point_name, FramebufferSettings, ImageViewSettings,
    PipelineSettings, RenderPassSettings,
};
use vulkan_tutorial::queues::{QueueFamilyIndices, SHARING_MODE_CONCURRENT, SHARING_MODE_EXCLUSIVE};
use vulkan_tutorial::search::Search;
use vulkan_tutorial::teardown::{teardown, Teardown};
use vulkan_tutorial::swapchain::{
    clamp_u32, get_swapchain_extent, get_swapchain_present_mode, get_swapchain_surface_format,
    swapchain_image_count, Extent2D, SurfaceCapabilities, SurfaceFormat, SwapchainSettings,
    SwapchainSupport, PRESENT_MODE_FIFO, PRESENT_MODE_MAILBOX,
};

const IMMEDIATE: i32 = 0;
const FIFO_RELAXED: i32 = 3;
const UNORM: SurfaceFormat = SurfaceFormat { format: 44, color_space: 0 };
const SRGB: SurfaceFormat = SurfaceFormat { format: 50, color_space: 0 };
const SRGB_OTHER_SPACE: SurfaceFormat = SurfaceFormat { format: 50, color_space: 1000104002 };

fn caps(min: u32, max: u32, current: (u32, u32), lo: (u32, u32), hi: (u32, u32)) -> SurfaceCapabilities {
    SurfaceCapabilities {
        min_image_count: min,
        max_image_count: max,
        current_extent: Extent2D { width: current.0, height: current.1 },
        min_image_extent: Extent2D { width: lo.0, height: lo.1 },
        max_image_extent: Extent2D { width: hi.0, height: hi.1 },
        current_transform: 1,
    }
}

fn name(s: &str) -> Vec<u8> {
    s.as_bytes().to_vec()
}

#[test]
fn surface_format_prefers_srgb() {
    assert_eq!(get_swapchain_surface_format(&vec![UNORM, SRGB]), SRGB);
    assert_eq!(get_swapchain_surface_format(&vec![SRGB, UNORM]), SRGB);
}

#[test]
fn surface_format_falls_back_to_first() {
    assert_eq!(get_swapchain_surface_format(&vec![UNORM, SRGB_OTHER_SPACE]), UNORM);
    assert_eq!(get_swapchain_surface_format(&vec![SRGB_OTHER_SPACE]), SRGB_OTHER_SPACE);
}

#[test]
fn present_mode_prefers_mailbox() {
    assert_eq!(get_swapchain_present_mode(&vec![FIFO_RELAXED, PRESENT_MODE_MAILBOX, IMMEDIATE]), PRESENT_MODE_MAILBOX);
    assert_eq!(get_swapchain_present_mode(&vec![IMMEDIATE, FIFO_RELAXED]), PRESENT_MODE_FIFO);
    assert_eq!(get_swapchain_present_mode(&vec![]), PRESENT_MODE_FIFO);
}

#[test]
fn fixed_extent_is_kept() {
    let c = caps(2, 8, (800, 600), (1, 1), (4096, 4096));
    assert_eq!(get_swapchain_extent(Extent2D { width: 1024, height: 768 }, &c), Extent2D { width: 800, height: 600 });
}

#[test]
fn open_extent_is_clamped() {
    let c = caps(2, 8, (u32::MAX, u32::MAX), (100, 200), (1000, 700));
    assert_eq!(get_swapchain_extent(Extent2D { width: 1024, height: 768 }, &c), Extent2D { width: 1000, height: 700 });
    assert_eq!(get_swapchain_extent(Extent2D { width: 50, height: 300 }, &c), Extent2D { width: 100, height: 300 });
    assert_eq!(clamp_u32(5, 1, 3), 3);
    assert_eq!(clamp_u32(0, 1, 3), 1);
    assert_eq!(clamp_u32(2, 1, 3), 2);
}

#[test]
fn image_count_is_one_above_minimum_within_maximum() {
    assert_eq!(swapchain_image_count(&caps(2, 8, (1, 1), (1, 1), (1, 1))), 3);
    assert_eq!(swapchain_image_count(&caps(3, 3, (1, 1), (1, 1), (1, 1))), 3);
    assert_eq!(swapchain_image_count(&caps(2, 0, (1, 1), (1, 1), (1, 1))), 3);
}

#[test]
fn graphics_family_is_first_with_graphics_bit() {
    assert_eq!(QueueFamilyIndices::graphics_family(&vec![0x4, 0x2, 0x7, 0x1]), Some(2));
    assert_eq!(QueueFamilyIndices::graphics_family(&vec![0x4, 0x2]), None);
    assert_eq!(QueueFamilyIndices::graphics_family(&vec![]), None);
}

#[test]
fn queue_families_need_both() {
    let ok = QueueFamilyIndices::from_families(Some(1), Search::Found(0)).unwrap();
    assert_eq!(ok, QueueFamilyIndices { graphics: 1, present: 0 });
    let missing_present = QueueFamilyIndices::from_families(Some(1), Search::Exhausted);
    assert_eq!(missing_present.unwrap_err().0, "Missing required queue families.");
    let missing_graphics = QueueFamilyIndices::from_families(None, Search::Found(0));
    assert_eq!(missing_graphics.unwrap_err().message(), "Missing Missing required queue families..");
}

#[test]
fn unique_families_and_sharing() {
    let same = QueueFamilyIndices { graphics: 2, present: 2 };
    assert_eq!(same.unique_families(), vec![2]);
    assert_eq!(same.image_sharing(), (SHARING_MODE_EXCLUSIVE, vec![]));
    let split = QueueFamilyIndices { graphics: 0, present: 3 };
    assert_eq!(split.unique_families(), vec![0, 3]);
    assert_eq!(split.image_sharing(), (SHARING_MODE_CONCURRENT, vec![0, 3]));
}

#[test]
fn search_stops_at_first_accepted() {
    let answers = [false, false, true, true];
    let count = answers.len() as u32;
    let mut search = Search::start(count);
    let mut asked = 0;
    while let Search::Ask(i) = search {
        asked += 1;
        search = Search::next(count, i, answers[i as usize]);
    }
    assert_eq!(search, Search::Found(2));
    assert_eq!(asked, 3);
    assert_eq!(Search::start(0), Search::Exhausted);
    assert_eq!(Search::next(2, 1, false), Search::Exhausted);
    assert_eq!(Search::next(2, 0, false), Search::Ask(1));
}

#[test]
fn device_extension_check() {
    let with = vec![name("VK_KHR_maintenance1"), name("VK_KHR_swapchain")];
    assert!(check_physical_device_extensions(&with).is_ok());
    let without = vec![name("VK_KHR_maintenance1"), name("VK_KHR_swapchain_mutable_format")];
    let err = check_physical_device_extensions(&without).unwrap_err();
    assert_eq!(err.0, "Missing required device extensions");
    assert!(check_physical_device_extensions(&vec![]).is_err());
}

#[test]
fn names_compare_by_bytes() {
    assert!(same_name(&name("abc"), &name("abc")));
    assert!(!same_name(&name("abc"), &name("abcd")));
    assert!(contains_name(&vec![name("x"), name("y")], &name("y")));
    assert!(!contains_name(&vec![name("x")], &name("y")));
    assert!(contains_all_names(&vec![name("x"), name("y")], &vec![name("y"), name("x")]));
    assert!(!contains_all_names(&vec![name("x")], &vec![name("y"), name("x")]));
    assert!(contains_all_names(&vec![], &vec![]));
}

#[test]
fn swapchain_support_check() {
    let good = SwapchainSupport { capabilities: caps(2, 8, (1, 1), (1, 1), (1, 1)), formats: vec![SRGB], present_modes: vec![PRESENT_MODE_FIFO] };
    assert!(check_swapchain_support(&good).is_ok());
    let no_modes = SwapchainSupport { capabilities: caps(2, 8, (1, 1), (1, 1), (1, 1)), formats: vec![SRGB], present_modes: vec![] };
    assert_eq!(check_swapchain_support(&no_modes).unwrap_err().0, "Insufficient swapchain support.");
    let no_formats = SwapchainSupport { capabilities: caps(2, 8, (1, 1), (1, 1), (1, 1)), formats: vec![], present_modes: vec![PRESENT_MODE_FIFO] };
    assert!(check_swapchain_support(&no_formats).is_err());
}

#[test]
fn swapchain_settings_collect_the_choices() {
    let support = SwapchainSupport {
        capabilities: caps(2, 0, (640, 480), (1, 1), (4096, 4096)),
        formats: vec![UNORM, SRGB],
        present_modes: vec![PRESENT_MODE_FIFO, PRESENT_MODE_MAILBOX],
    };
    let indices = QueueFamilyIndices { graphics: 0, present: 1 };
    let s = SwapchainSettings::for_window(Extent2D { width: 1024, height: 768 }, &indices, &support).unwrap();
    assert_eq!(s.surface_format, SRGB);
    assert_eq!(s.present_mode, PRESENT_MODE_MAILBOX);
    assert_eq!(s.min_image_count, 3);
    assert_eq!(s.extent, Extent2D { width: 640, height: 480 });
    assert_eq!(s.image_sharing_mode, SHARING_MODE_CONCURRENT);
    assert_eq!(s.queue_family_indices, vec![0, 1]);
    assert_eq!(s.pre_transform, 1);
    assert_eq!(s.image_array_layers, 1);
    assert!(s.clipped);
}

#[test]
fn open_extent_follows_the_window() {
    let support = SwapchainSupport {
        capabilities: caps(2, 3, (u32::MAX, u32::MAX), (100, 100), (800, 600)),
        formats: vec![UNORM],
        present_modes: vec![],
    };
    assert!(support.capabilities.needs_window_size());
    let indices = QueueFamilyIndices { graphics: 4, present: 4 };
    let s = SwapchainSettings::for_window(Extent2D { width: 1024, height: 50 }, &indices, &support).unwrap();
    assert_eq!(s.extent, Extent2D { width: 800, height: 100 });
    assert_eq!(s.surface_format, UNORM);
    assert_eq!(s.present_mode, PRESENT_MODE_FIFO);
    assert_eq!(s.min_image_count, 3);
    assert_eq!(s.image_sharing_mode, SHARING_MODE_EXCLUSIVE);
    assert!(s.queue_family_indices.is_empty());
    let bad = SwapchainSupport { capabilities: caps(2, 3, (1, 1), (1, 1), (1, 1)), formats: vec![], present_modes: vec![] };
    assert!(matches!(SwapchainSettings::for_window(Extent2D { width: 1, height: 1 }, &indices, &bad), Err(AppError::UnusableSurface)));
}

#[test]
fn unusable_surfaces_are_recognized() {
    let mut support = SwapchainSupport { capabilities: caps(2, 0, (1, 1), (1, 1), (1, 1)), formats: vec![SRGB], present_modes: vec![] };
    assert!(support.supports_swapchain());
    support.capabilities.min_image_count = u32::MAX;
    assert!(!support.supports_swapchain());
    support.capabilities = caps(2, 0, (u32::MAX, 5), (10, 10), (5, 20));
    assert!(!support.supports_swapchain());
    support.capabilities = caps(2, 0, (u32::MAX, 5), (1, 10), (5, 20));
    assert!(support.supports_swapchain());
    support.formats = vec![];
    assert!(!support.supports_swapchain());
}

#[test]
fn logical_device_extension_list() {
    assert_eq!(logical_device_extensions(false), vec![name("VK_KHR_swapchain")]);
    assert_eq!(logical_device_extensions(true), vec![name("VK_KHR_swapchain"), name("VK_KHR_portability_subset")]);
}

#[test]
fn portability_version_threshold() {
    assert!(portability_required(ApiVersion { major: 1, minor: 3, patch: 216 }));
    assert!(portability_required(ApiVersion { major: 1, minor: 4, patch: 0 }));
    assert!(!portability_required(ApiVersion { major: 1, minor: 3, patch: 215 }));
    assert!(!portability_required(ApiVersion { major: 1, minor: 2, patch: 999 }));
    assert!(is_version_at_least(ApiVersion { major: 2, minor: 0, patch: 0 }, ApiVersion { major: 1, minor: 9, patch: 9 }));
}

#[test]
fn instance_layers_and_extensions() {
    let window = vec![name("VK_KHR_surface"), name("VK_KHR_xlib_surface")];
    let layers = vec![name("VK_LAYER_KHRONOS_validation")];

    let s = InstanceSettings::from_parts(window.clone(), false, &layers, true).unwrap();
    assert_eq!(s.extensions, window);
    assert_eq!(s.layers, vec![name("VK_LAYER_KHRONOS_validation")]);
    assert_eq!(s.flags, 0);

    let s = InstanceSettings::from_parts(window.clone(), true, &vec![], false).unwrap();
    assert_eq!(
        s.extensions,
        vec![
            name("VK_KHR_surface"),
            name("VK_KHR_xlib_surface"),
            name("VK_KHR_get_physical_device_properties2"),
            name("VK_KHR_portability_enumeration"),
        ]
    );
    assert!(s.layers.is_empty());
    assert_eq!(s.flags, 1);

    let refused = InstanceSettings::from_parts(window, false, &vec![name("VK_LAYER_other")], true);
    assert!(matches!(refused, Err(AppError::ValidationUnsupported)));
}

#[test]
fn application_info_names() {
    let info = ApplicationInfo::new();
    assert_eq!(info.application_name, name("Vulkan Tutorial (Rust)"));
    assert_eq!(info.engine_name, name("No Engine"));
    assert_eq!(info.application_version, 1 << 22);
    assert_eq!(info.api_version, 1 << 22);
}

#[test]
fn fixed_state_settings() {
    let rp = RenderPassSettings::new(50);
    assert_eq!(rp.format, 50);
    assert_eq!(rp.color_attachment, 0);
    let p = PipelineSettings::new(Extent2D { width: 1024, height: 768 });
    assert_eq!(p.extent, Extent2D { width: 1024, height: 768 });
    assert_eq!(p.base_pipeline_index, -1);
    assert!(!p.blend);
    let v = ImageViewSettings::new(44);
    assert_eq!((v.format, v.level_count, v.layer_count), (44, 1, 1));
    assert_eq!(FramebufferSettings::new(Extent2D { width: 3, height: 4 }), FramebufferSettings { width: 3, height: 4, layers: 1 });
    assert_eq!(shader_entry_point_name(), "main");
}

#[test]
fn shader_bytecode_lengths() {
    assert!(matches!(shader_bytecode(&[]), Err(AppError::ShaderBytecodeLength(0))));
    assert!(matches!(shader_bytecode(&[1, 2, 3]), Err(AppError::ShaderBytecodeLength(3))));
    assert!(matches!(shader_bytecode(&[0; 10]), Err(AppError::ShaderBytecodeLength(10))));
    let code = shader_bytecode(&[3, 2, 35, 7, 0, 0, 1, 0]).unwrap();
    assert_eq!(code.code_size(), 8);
    assert_eq!(code.code().len(), 2);
    assert_eq!(code.code()[0], u32::from_ne_bytes([3, 2, 35, 7]));
    assert_eq!(code.code()[1], u32::from_ne_bytes([0, 0, 1, 0]));
}

#[test]
fn suitability_message() {
    assert_eq!(SuitabilityError("a GPU").message(), "Missing a GPU.");
}

#[test]
fn event_loop_renders_only_when_shown() {
    let mut state = LoopState::new();
    assert_eq!(state.handle(LoopEvent::AboutToWait, false), LoopAction::RequestRedraw);
    assert_eq!(state.handle(LoopEvent::RedrawRequested, false), LoopAction::Render);
    assert_eq!(state.handle(LoopEvent::RedrawRequested, true), LoopAction::Nothing);
    assert_eq!(state.handle(LoopEvent::Resized { width: 0, height: 600 }, false), LoopAction::Nothing);
    assert!(state.minimized);
    assert!(!state.resized);
    assert_eq!(state.handle(LoopEvent::RedrawRequested, false), LoopAction::Nothing);
    assert_eq!(state.handle(LoopEvent::Other, false), LoopAction::Nothing);
    assert_eq!(state.handle(LoopEvent::Resized { width: 800, height: 600 }, false), LoopAction::Nothing);
    assert_eq!(state, LoopState { minimized: false, resized: true });
    assert_eq!(state.handle(LoopEvent::RedrawRequested, false), LoopAction::Render);
    assert_eq!(state.handle(LoopEvent::CloseRequested, false), LoopAction::Exit);
    assert_eq!(LoopState::after_render(true), LoopAction::Nothing);
    assert_eq!(LoopState::after_render(false), LoopAction::Rebuild);
}

#[test]
fn teardown_goes_from_children_to_parents() {
    assert_eq!(
        teardown(2, 1),
        vec![
            Teardown::Pipeline,
            Teardown::PipelineLayout,
            Teardown::Framebuffer(0),
            Teardown::Framebuffer(1),
            Teardown::RenderPass,
            Teardown::ImageView(0),
            Teardown::Swapchain,
            Teardown::Device,
            Teardown::Surface,
            Teardown::Instance,
        ]
    );
    assert_eq!(teardown(0, 0).len(), 7);
    assert_eq!(teardown(0, 0).last(), Some(&Teardown::Instance));
}
