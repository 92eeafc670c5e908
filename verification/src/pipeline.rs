use vstd::prelude::*;
use crate::error::AppError;
use crate::platform::{bytecode_bytes, bytecode_new, bytecode_length_refused, BytecodeFailure};
use crate::swapchain::Extent2D;

verus! {

/// `VK_SAMPLE_COUNT_1_BIT`.
pub const SAMPLE_COUNT_1: u32 = 0x1;
/// `VK_ATTACHMENT_LOAD_OP_CLEAR`.
pub const ATTACHMENT_LOAD_OP_CLEAR: i32 = 1;
/// `VK_ATTACHMENT_LOAD_OP_DONT_CARE`.
pub const ATTACHMENT_LOAD_OP_DONT_CARE: i32 = 2;
/// `VK_ATTACHMENT_STORE_OP_STORE`.
pub const ATTACHMENT_STORE_OP_STORE: i32 = 0;
/// `VK_ATTACHMENT_STORE_OP_DONT_CARE`.
pub const ATTACHMENT_STORE_OP_DONT_CARE: i32 = 1;
/// `VK_IMAGE_LAYOUT_UNDEFINED`.
pub const IMAGE_LAYOUT_UNDEFINED: i32 = 0;
/// `VK_IMAGE_LAYOUT_COLOR_ATTACHMENT_OPTIMAL`.
pub const IMAGE_LAYOUT_COLOR_ATTACHMENT_OPTIMAL: i32 = 2;
/// `VK_IMAGE_LAYOUT_PRESENT_SRC_KHR`.
pub const IMAGE_LAYOUT_PRESENT_SRC: i32 = 1000001002;
/// `VK_PIPELINE_BIND_POINT_GRAPHICS`.
pub const PIPELINE_BIND_POINT_GRAPHICS: i32 = 0;
/// `VK_SHADER_STAGE_VERTEX_BIT`.
pub const SHADER_STAGE_VERTEX: u32 = 0x1;
/// `VK_SHADER_STAGE_FRAGMENT_BIT`.
pub const SHADER_STAGE_FRAGMENT: u32 = 0x10;
/// `VK_PRIMITIVE_TOPOLOGY_TRIANGLE_LIST`.
pub const PRIMITIVE_TOPOLOGY_TRIANGLE_LIST: i32 = 3;
/// `VK_POLYGON_MODE_FILL`.
pub const POLYGON_MODE_FILL: i32 = 0;
/// `VK_CULL_MODE_BACK_BIT`.
pub const CULL_MODE_BACK: u32 = 0x2;
/// `VK_FRONT_FACE_CLOCKWISE`.
pub const FRONT_FACE_CLOCKWISE: i32 = 1;
/// All four of `VK_COLOR_COMPONENT_{R,G,B,A}_BIT`.
pub const COLOR_COMPONENT_ALL: u32 = 0xF;
/// `VK_BLEND_FACTOR_ZERO`.
pub const BLEND_FACTOR_ZERO: i32 = 0;
/// `VK_BLEND_FACTOR_ONE`.
pub const BLEND_FACTOR_ONE: i32 = 1;
/// `VK_BLEND_OP_ADD`.
pub const BLEND_OP_ADD: i32 = 0;
/// `VK_LOGIC_OP_COPY`.
pub const LOGIC_OP_COPY: i32 = 3;
/// `VK_IMAGE_VIEW_TYPE_2D`.
pub const IMAGE_VIEW_TYPE_2D: i32 = 1;
/// `VK_COMPONENT_SWIZZLE_IDENTITY`.
pub const COMPONENT_SWIZZLE_IDENTITY: i32 = 0;
/// `VK_IMAGE_ASPECT_COLOR_BIT`.
pub const IMAGE_ASPECT_COLOR: u32 = 0x1;

/// The single color attachment and subpass of the render pass.
#[derive(Clone, Copy, Debug, PartialEq, Eq, Structural)]
pub struct RenderPassSettings {
    /// The swapchain's pixel format.
    pub format: i32,
    pub samples: u32,
    /// Cleared before rendering.
    pub load_op: i32,
    /// Kept after rendering so it can be shown.
    pub store_op: i32,
    pub stencil_load_op: i32,
    pub stencil_store_op: i32,
    pub initial_layout: i32,
    /// Ready for presentation once the pass ends.
    pub final_layout: i32,
    /// The attachment index the fragment shader writes to (`location = 0`).
    pub color_attachment: u32,
    pub color_attachment_layout: i32,
    pub pipeline_bind_point: i32,
}

impl RenderPassSettings {
    /// The render pass for swapchain images of the given format.
    pub fn new(format: i32) -> (settings: RenderPassSettings)
        ensures
            settings == (RenderPassSettings {
                format,
                samples: SAMPLE_COUNT_1,
                load_op: ATTACHMENT_LOAD_OP_CLEAR,
                store_op: ATTACHMENT_STORE_OP_STORE,
                stencil_load_op: ATTACHMENT_LOAD_OP_DONT_CARE,
                stencil_store_op: ATTACHMENT_STORE_OP_DONT_CARE,
                initial_layout: IMAGE_LAYOUT_UNDEFINED,
                final_layout: IMAGE_LAYOUT_PRESENT_SRC,
                color_attachment: 0,
                color_attachment_layout: IMAGE_LAYOUT_COLOR_ATTACHMENT_OPTIMAL,
                pipeline_bind_point: PIPELINE_BIND_POINT_GRAPHICS,
            }),
    {
        RenderPassSettings {
            format,
            samples: SAMPLE_COUNT_1,
            load_op: ATTACHMENT_LOAD_OP_CLEAR,
            store_op: ATTACHMENT_STORE_OP_STORE,
            stencil_load_op: ATTACHMENT_LOAD_OP_DONT_CARE,
            stencil_store_op: ATTACHMENT_STORE_OP_DONT_CARE,
            initial_layout: IMAGE_LAYOUT_UNDEFINED,
            final_layout: IMAGE_LAYOUT_PRESENT_SRC,
            color_attachment: 0,
            color_attachment_layout: IMAGE_LAYOUT_COLOR_ATTACHMENT_OPTIMAL,
            pipeline_bind_point: PIPELINE_BIND_POINT_GRAPHICS,
        }
    }
}

/// The fixed-function state of the graphics pipeline, in whole numbers.
/// Its floating-point parts (the viewport's origin, the depth range 0 to 1,
/// the line width 1 and zero blend constants) are fixed and added where the
/// Vulkan structures are filled in.
#[derive(Clone, Copy, Debug, PartialEq, Eq, Structural)]
pub struct PipelineSettings {
    pub vertex_stage: u32,
    pub fragment_stage: u32,
    pub topology: i32,
    pub primitive_restart: bool,
    /// Viewport and scissor both cover the whole swapchain extent.
    pub extent: Extent2D,
    pub scissor_offset_x: i32,
    pub scissor_offset_y: i32,
    pub depth_clamp: bool,
    pub rasterizer_discard: bool,
    pub polygon_mode: i32,
    pub cull_mode: u32,
    pub front_face: i32,
    pub depth_bias: bool,
    pub sample_shading: bool,
    pub rasterization_samples: u32,
    pub color_write_mask: u32,
    /// Blending is off: the fragment's color replaces what was there.
    pub blend: bool,
    pub src_color_blend_factor: i32,
    pub dst_color_blend_factor: i32,
    pub color_blend_op: i32,
    pub src_alpha_blend_factor: i32,
    pub dst_alpha_blend_factor: i32,
    pub alpha_blend_op: i32,
    pub logic_op_enable: bool,
    pub logic_op: i32,
    pub subpass: u32,
    /// No base pipeline to derive from.
    pub base_pipeline_index: i32,
}

impl PipelineSettings {
    /// The pipeline for drawing into images of the given extent.
    pub fn new(extent: Extent2D) -> (settings: PipelineSettings)
        ensures
            settings == (PipelineSettings {
                vertex_stage: SHADER_STAGE_VERTEX,
                fragment_stage: SHADER_STAGE_FRAGMENT,
                topology: PRIMITIVE_TOPOLOGY_TRIANGLE_LIST,
                primitive_restart: false,
                extent,
                scissor_offset_x: 0,
                scissor_offset_y: 0,
                depth_clamp: false,
                rasterizer_discard: false,
                polygon_mode: POLYGON_MODE_FILL,
                cull_mode: CULL_MODE_BACK,
                front_face: FRONT_FACE_CLOCKWISE,
                depth_bias: false,
                sample_shading: false,
                rasterization_samples: SAMPLE_COUNT_1,
                color_write_mask: COLOR_COMPONENT_ALL,
                blend: false,
                src_color_blend_factor: BLEND_FACTOR_ONE,
                dst_color_blend_factor: BLEND_FACTOR_ZERO,
                color_blend_op: BLEND_OP_ADD,
                src_alpha_blend_factor: BLEND_FACTOR_ONE,
                dst_alpha_blend_factor: BLEND_FACTOR_ZERO,
                alpha_blend_op: BLEND_OP_ADD,
                logic_op_enable: false,
                logic_op: LOGIC_OP_COPY,
                subpass: 0,
                base_pipeline_index: -1i32,
            }),
    {
        PipelineSettings {
            vertex_stage: SHADER_STAGE_VERTEX,
            fragment_stage: SHADER_STAGE_FRAGMENT,
            topology: PRIMITIVE_TOPOLOGY_TRIANGLE_LIST,
            primitive_restart: false,
            extent,
            scissor_offset_x: 0,
            scissor_offset_y: 0,
            depth_clamp: false,
            rasterizer_discard: false,
            polygon_mode: POLYGON_MODE_FILL,
            cull_mode: CULL_MODE_BACK,
            front_face: FRONT_FACE_CLOCKWISE,
            depth_bias: false,
            sample_shading: false,
            rasterization_samples: SAMPLE_COUNT_1,
            color_write_mask: COLOR_COMPONENT_ALL,
            blend: false,
            src_color_blend_factor: BLEND_FACTOR_ONE,
            dst_color_blend_factor: BLEND_FACTOR_ZERO,
            color_blend_op: BLEND_OP_ADD,
            src_alpha_blend_factor: BLEND_FACTOR_ONE,
            dst_alpha_blend_factor: BLEND_FACTOR_ZERO,
            alpha_blend_op: BLEND_OP_ADD,
            logic_op_enable: false,
            logic_op: LOGIC_OP_COPY,
            subpass: 0,
            base_pipeline_index: -1,
        }
    }
}

/// The name of the entry point both shaders start at.
pub open spec fn shader_entry_point() -> Seq<char> {
    "main"@
}

/// The entry point of both shader stages (without the terminating NUL).
pub fn shader_entry_point_name() -> (name: &'static str)
    ensures
        name@ == shader_entry_point(),
{
    "main"
}

/// How a swapchain image is seen: as a 2D color image of the swapchain's
/// format, channels as they are, one mip level and one layer.
#[derive(Clone, Copy, Debug, PartialEq, Eq, Structural)]
pub struct ImageViewSettings {
    pub view_type: i32,
    pub format: i32,
    pub swizzle_r: i32,
    pub swizzle_g: i32,
    pub swizzle_b: i32,
    pub swizzle_a: i32,
    pub aspect_mask: u32,
    pub base_mip_level: u32,
    pub level_count: u32,
    pub base_array_layer: u32,
    pub layer_count: u32,
}

impl ImageViewSettings {
    /// The view of a swapchain image of the given format.
    pub fn new(format: i32) -> (settings: ImageViewSettings)
        ensures
            settings == (ImageViewSettings {
                view_type: IMAGE_VIEW_TYPE_2D,
                format,
                swizzle_r: COMPONENT_SWIZZLE_IDENTITY,
                swizzle_g: COMPONENT_SWIZZLE_IDENTITY,
                swizzle_b: COMPONENT_SWIZZLE_IDENTITY,
                swizzle_a: COMPONENT_SWIZZLE_IDENTITY,
                aspect_mask: IMAGE_ASPECT_COLOR,
                base_mip_level: 0,
                level_count: 1,
                base_array_layer: 0,
                layer_count: 1,
            }),
    {
        ImageViewSettings {
            view_type: IMAGE_VIEW_TYPE_2D,
            format,
            swizzle_r: COMPONENT_SWIZZLE_IDENTITY,
            swizzle_g: COMPONENT_SWIZZLE_IDENTITY,
            swizzle_b: COMPONENT_SWIZZLE_IDENTITY,
            swizzle_a: COMPONENT_SWIZZLE_IDENTITY,
            aspect_mask: IMAGE_ASPECT_COLOR,
            base_mip_level: 0,
            level_count: 1,
            base_array_layer: 0,
            layer_count: 1,
        }
    }
}

/// A framebuffer around one image view: the swapchain's size, one layer.
#[derive(Clone, Copy, Debug, PartialEq, Eq, Structural)]
pub struct FramebufferSettings {
    pub width: u32,
    pub height: u32,
    pub layers: u32,
}

impl FramebufferSettings {
    /// The framebuffer for images of the given extent.
    pub fn new(extent: Extent2D) -> (settings: FramebufferSettings)
        ensures
            settings == (FramebufferSettings { width: extent.width, height: extent.height, layers: 1 }),
    {
        FramebufferSettings { width: extent.width, height: extent.height, layers: 1 }
    }
}

/// Copies SPIR-V code into an aligned buffer for a shader module. Code whose
/// length is zero or not a multiple of four bytes is refused with its length;
/// a buffer that comes back holds exactly the given bytes.
pub fn shader_bytecode(code: &[u8]) -> (bytecode: Result<vulkanalia::bytecode::Bytecode, AppError>)
    ensures
        bytecode_length_refused(code@.len()) ==> bytecode is Err && bytecode->Err_0 == AppError::ShaderBytecodeLength(code@.len() as usize),
        !bytecode_length_refused(code@.len()) ==> bytecode is Ok || bytecode->Err_0 == AppError::ShaderBytecodeAlloc,
        bytecode matches Ok(b) ==> bytecode_bytes(b) == code@,
{
    match bytecode_new(code) {
        Ok(bytecode) => Ok(bytecode),
        Err(BytecodeFailure::Length(n)) => Err(AppError::ShaderBytecodeLength(n)),
        Err(BytecodeFailure::Alloc) => Err(AppError::ShaderBytecodeAlloc),
    }
}

} // verus!
