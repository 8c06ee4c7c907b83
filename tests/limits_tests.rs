use ruffle_libretro::limits::{
    required_limits, FEATURE_DEPTH32FLOAT_STENCIL8, FEATURE_PUSH_CONSTANTS,
    FEATURE_TEXTURE_ADAPTER_SPECIFIC_FORMAT_FEATURES,
};
use wgpu_types::{Features, Limits};

#[test]
fn feature_bits_match_wgpu_types() {
    assert_eq!(FEATURE_DEPTH32FLOAT_STENCIL8, Features::DEPTH32FLOAT_STENCIL8.bits());
    assert_eq!(FEATURE_PUSH_CONSTANTS, Features::PUSH_CONSTANTS.bits());
    assert_eq!(
        FEATURE_TEXTURE_ADAPTER_SPECIFIC_FORMAT_FEATURES,
        Features::TEXTURE_ADAPTER_SPECIFIC_FORMAT_FEATURES.bits()
    );
}

fn adapter() -> Limits {
    Limits {
        max_texture_dimension_1d: 16384,
        max_texture_dimension_2d: 16384,
        max_texture_dimension_3d: 4096,
        min_uniform_buffer_offset_alignment: 64,
        min_storage_buffer_offset_alignment: 32,
        max_storage_buffers_per_shader_stage: 1000,
        max_storage_buffer_binding_size: 1 << 30,
        max_bind_groups: 8,
        max_push_constant_size: 256,
        ..Limits::default()
    }
}

#[test]
fn limits_raise_baseline_to_adapter() {
    let (limits, features) = required_limits(adapter(), 0, 96);
    let baseline = Limits::downlevel_webgl2_defaults();
    assert_eq!(limits.max_texture_dimension_1d, 16384);
    assert_eq!(limits.max_texture_dimension_2d, 16384);
    assert_eq!(limits.max_texture_dimension_3d, 4096);
    assert_eq!(limits.min_uniform_buffer_offset_alignment, 64);
    assert_eq!(limits.min_storage_buffer_offset_alignment, 32);
    assert_eq!(limits.max_storage_buffers_per_shader_stage, 1000);
    assert_eq!(limits.max_storage_buffer_binding_size, 1 << 30);
    assert_eq!(limits.max_bind_groups, 8);
    assert_eq!(limits.max_push_constant_size, 0);
    assert_eq!(limits.max_uniform_buffers_per_shader_stage, baseline.max_uniform_buffers_per_shader_stage);
    assert_eq!(limits.max_vertex_buffer_array_stride, 255);
    assert_eq!(features, FEATURE_DEPTH32FLOAT_STENCIL8);
}

#[test]
fn limits_match_composed_wgpu_calls() {
    let a = adapter();
    let mut expected = Limits::downlevel_webgl2_defaults().using_resolution(a.clone()).using_alignment(a.clone());
    expected.max_storage_buffers_per_shader_stage = a.max_storage_buffers_per_shader_stage;
    expected.max_storage_buffer_binding_size = a.max_storage_buffer_binding_size;
    expected.max_bind_groups = a.max_bind_groups;
    expected.max_push_constant_size = 96;
    let features = Features::PUSH_CONSTANTS.bits() | Features::TEXTURE_ADAPTER_SPECIFIC_FORMAT_FEATURES.bits();
    let (limits, requested) = required_limits(a, features, 96);
    assert_eq!(limits, expected);
    assert_eq!(
        requested,
        (Features::DEPTH32FLOAT_STENCIL8 | Features::PUSH_CONSTANTS | Features::TEXTURE_ADAPTER_SPECIFIC_FORMAT_FEATURES)
            .bits()
    );
}

#[test]
fn push_constants_need_enough_space() {
    let a = Limits { max_push_constant_size: 64, ..adapter() };
    let (limits, features) = required_limits(a, FEATURE_PUSH_CONSTANTS, 96);
    assert_eq!(limits.max_push_constant_size, 0);
    assert_eq!(features, FEATURE_DEPTH32FLOAT_STENCIL8);
    let exact = Limits { max_push_constant_size: 96, ..adapter() };
    let (limits, features) = required_limits(exact, FEATURE_PUSH_CONSTANTS, 96);
    assert_eq!(limits.max_push_constant_size, 96);
    assert_eq!(features, FEATURE_DEPTH32FLOAT_STENCIL8 | FEATURE_PUSH_CONSTANTS);
}
