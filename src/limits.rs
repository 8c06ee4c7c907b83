//! The limits and features the core requests from the graphics layer.
use vstd::prelude::*;
use wgpu_types::Limits;

verus! {

/// Relies on wgpu_types::Limits: a plain struct whose fields are all public
/// integers, read and written here as they are.
#[verifier::external_type_specification]
pub struct ExLimits(wgpu_types::Limits);

/// The limits of `Limits::downlevel_webgl2_defaults`: the downlevel defaults
/// with storage, compute and vertex stride limits of WebGL2.
pub open spec fn webgl2_baseline() -> Limits {
    Limits {
        max_texture_dimension_1d: 2048,
        max_texture_dimension_2d: 2048,
        max_texture_dimension_3d: 256,
        max_texture_array_layers: 256,
        max_bind_groups: 4,
        max_bindings_per_bind_group: 640,
        max_dynamic_uniform_buffers_per_pipeline_layout: 8,
        max_dynamic_storage_buffers_per_pipeline_layout: 0,
        max_sampled_textures_per_shader_stage: 16,
        max_samplers_per_shader_stage: 16,
        max_storage_buffers_per_shader_stage: 0,
        max_storage_textures_per_shader_stage: 0,
        max_uniform_buffers_per_shader_stage: 11,
        max_uniform_buffer_binding_size: 16384,
        max_storage_buffer_binding_size: 0,
        max_vertex_buffers: 8,
        max_buffer_size: 268435456,
        max_vertex_attributes: 16,
        max_vertex_buffer_array_stride: 255,
        min_uniform_buffer_offset_alignment: 256,
        min_storage_buffer_offset_alignment: 256,
        max_inter_stage_shader_components: 60,
        max_compute_workgroup_storage_size: 0,
        max_compute_invocations_per_workgroup: 0,
        max_compute_workgroup_size_x: 0,
        max_compute_workgroup_size_y: 0,
        max_compute_workgroup_size_z: 0,
        max_compute_workgroups_per_dimension: 0,
        max_push_constant_size: 0,
    }
}

/// Relies on wgpu_types::Limits::downlevel_webgl2_defaults: a constant set of
/// limits, written out in its source.
pub assume_specification[ wgpu_types::Limits::downlevel_webgl2_defaults ]() -> (r: Limits)
    ensures
        r == webgl2_baseline(),
;

/// Relies on wgpu_types::Limits::using_resolution: the texture dimension limits
/// of `other`, the rest of `base`.
pub assume_specification[ wgpu_types::Limits::using_resolution ](base: Limits, other: Limits) -> (r: Limits)
    ensures
        r == (Limits {
            max_texture_dimension_1d: other.max_texture_dimension_1d,
            max_texture_dimension_2d: other.max_texture_dimension_2d,
            max_texture_dimension_3d: other.max_texture_dimension_3d,
            ..base
        }),
;

/// Relies on wgpu_types::Limits::using_alignment: the buffer offset alignments
/// of `other`, the rest of `base`.
pub assume_specification[ wgpu_types::Limits::using_alignment ](base: Limits, other: Limits) -> (r: Limits)
    ensures
        r == (Limits {
            min_uniform_buffer_offset_alignment: other.min_uniform_buffer_offset_alignment,
            min_storage_buffer_offset_alignment: other.min_storage_buffer_offset_alignment,
            ..base
        }),
;

/// The bits of `wgpu_types::Features::DEPTH32FLOAT_STENCIL8`.
pub const FEATURE_DEPTH32FLOAT_STENCIL8: u64 = 4;
/// The bits of `wgpu_types::Features::PUSH_CONSTANTS`.
pub const FEATURE_PUSH_CONSTANTS: u64 = 33554432;
/// The bits of `wgpu_types::Features::TEXTURE_ADAPTER_SPECIFIC_FORMAT_FEATURES`.
pub const FEATURE_TEXTURE_ADAPTER_SPECIFIC_FORMAT_FEATURES: u64 = 536870912;

/// Whether push constants are requested: the adapter supports them and its
/// push constant space holds what the renderer pushes per draw.
pub open spec fn push_constants_usable(adapter_limits: Limits, adapter_features: u64, needed: u32) -> bool {
    adapter_features & FEATURE_PUSH_CONSTANTS != 0 && adapter_limits.max_push_constant_size >= needed
}

/// The limits requested from an adapter: the WebGL2 baseline, raised to the
/// adapter's texture dimensions, offset alignments, storage buffer count and
/// binding size and bind group count, with `needed` bytes of push constants
/// where they are usable.
pub open spec fn requested_limits(adapter_limits: Limits, adapter_features: u64, needed: u32) -> Limits {
    Limits {
        max_texture_dimension_1d: adapter_limits.max_texture_dimension_1d,
        max_texture_dimension_2d: adapter_limits.max_texture_dimension_2d,
        max_texture_dimension_3d: adapter_limits.max_texture_dimension_3d,
        min_uniform_buffer_offset_alignment: adapter_limits.min_uniform_buffer_offset_alignment,
        min_storage_buffer_offset_alignment: adapter_limits.min_storage_buffer_offset_alignment,
        max_storage_buffers_per_shader_stage: adapter_limits.max_storage_buffers_per_shader_stage,
        max_storage_buffer_binding_size: adapter_limits.max_storage_buffer_binding_size,
        max_bind_groups: adapter_limits.max_bind_groups,
        max_push_constant_size: if push_constants_usable(adapter_limits, adapter_features, needed) {
            needed
        } else {
            webgl2_baseline().max_push_constant_size
        },
        ..webgl2_baseline()
    }
}

/// The features requested from an adapter: combined depth and stencil always,
/// push constants where usable, adapter-specific texture format features where
/// the adapter has them.
pub open spec fn requested_features(adapter_limits: Limits, adapter_features: u64, needed: u32) -> u64 {
    FEATURE_DEPTH32FLOAT_STENCIL8 | (if push_constants_usable(adapter_limits, adapter_features, needed) {
        FEATURE_PUSH_CONSTANTS
    } else {
        0u64
    }) | (if adapter_features & FEATURE_TEXTURE_ADAPTER_SPECIFIC_FORMAT_FEATURES != 0 {
        FEATURE_TEXTURE_ADAPTER_SPECIFIC_FORMAT_FEATURES
    } else {
        0u64
    })
}

/// The limits and features to request from an adapter with these limits and
/// features (feature sets as the bits of `wgpu_types::Features`), where the
/// renderer pushes `needed_push_constant_size` bytes per draw.
pub fn required_limits(adapter_limits: Limits, adapter_features: u64, needed_push_constant_size: u32) -> (r: (Limits, u64))
    ensures
        r.0 == requested_limits(adapter_limits, adapter_features, needed_push_constant_size),
        r.1 == requested_features(adapter_limits, adapter_features, needed_push_constant_size),
{
    let resolution = Limits { ..adapter_limits };
    let alignment = Limits { ..adapter_limits };
    let mut limits = Limits::downlevel_webgl2_defaults();
    limits = limits.using_resolution(resolution);
    limits = limits.using_alignment(alignment);
    let push_constants = adapter_features & FEATURE_PUSH_CONSTANTS != 0
        && adapter_limits.max_push_constant_size >= needed_push_constant_size;
    let push_bits: u64 = if push_constants {
        limits.max_push_constant_size = needed_push_constant_size;
        FEATURE_PUSH_CONSTANTS
    } else {
        0
    };
    let format_bits: u64 = if adapter_features & FEATURE_TEXTURE_ADAPTER_SPECIFIC_FORMAT_FEATURES != 0 {
        FEATURE_TEXTURE_ADAPTER_SPECIFIC_FORMAT_FEATURES
    } else {
        0
    };
    let features = FEATURE_DEPTH32FLOAT_STENCIL8 | push_bits | format_bits;
    limits.max_storage_buffers_per_shader_stage = adapter_limits.max_storage_buffers_per_shader_stage;
    limits.max_storage_buffer_binding_size = adapter_limits.max_storage_buffer_binding_size;
    limits.max_bind_groups = adapter_limits.max_bind_groups;
    (limits, features)
}

} // verus!
