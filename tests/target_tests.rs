use ruffle_libretro::target::{
    image_view_info, validate_size, ImageLayout, RetroRenderTarget, RetroTextureTarget, RetroTextureTargetFrame,
    TargetError, ASPECT_COLOR, VIEW_FORMAT_R8G8B8A8_UNORM, VIEW_TYPE_2D,
};
use wgpu_types::TextureFormat;

fn target(w: u32, h: u32) -> RetroTextureTarget {
    let mut t = RetroTextureTarget::new(w, h, 8192, TextureFormat::Rgba8Unorm, ImageLayout::ShaderReadOnlyOptimal).unwrap();
    assert_eq!(t.get_image_view(), None);
    t.finish_resize(100, 200);
    t
}

#[test]
fn new_target_checks_bounds() {
    let f = TextureFormat::Rgba8Unorm;
    let l = ImageLayout::General;
    assert_eq!(
        RetroTextureTarget::new(0, 400, 8192, f, l).unwrap_err(),
        TargetError::InvalidSize { width: 0, height: 400, max_dimension: 8192 }
    );
    assert_eq!(
        RetroTextureTarget::new(550, 0, 8192, f, l).unwrap_err(),
        TargetError::InvalidSize { width: 550, height: 0, max_dimension: 8192 }
    );
    assert_eq!(
        RetroTextureTarget::new(8193, 400, 8192, f, l).unwrap_err(),
        TargetError::InvalidSize { width: 8193, height: 400, max_dimension: 8192 }
    );
    assert!(RetroTextureTarget::new(550, 8193, 8192, f, l).is_err());
    let t = RetroTextureTarget::new(8192, 8192, 8192, f, l).unwrap();
    assert_eq!((t.width(), t.height(), t.generation), (8192, 8192, 0));
    assert_eq!(t.get_image_view(), None);
}

#[test]
fn size_bounds() {
    assert_eq!(validate_size(1, 1, 8192), Ok(()));
    assert_eq!(validate_size(8192, 8192, 8192), Ok(()));
    assert_eq!(
        validate_size(0, 400, 8192),
        Err(TargetError::InvalidSize { width: 0, height: 400, max_dimension: 8192 })
    );
    assert_eq!(
        validate_size(550, 0, 8192),
        Err(TargetError::InvalidSize { width: 550, height: 0, max_dimension: 8192 })
    );
    assert_eq!(
        validate_size(8193, 10, 8192),
        Err(TargetError::InvalidSize { width: 8193, height: 10, max_dimension: 8192 })
    );
    assert!(validate_size(10, 8193, 8192).is_err());
}

#[test]
fn view_description() {
    let info = image_view_info(55);
    assert_eq!(info.image, 55);
    assert_eq!(info.view_type, VIEW_TYPE_2D);
    assert_eq!(info.format, VIEW_FORMAT_R8G8B8A8_UNORM);
    assert_eq!(info.aspect_mask, ASPECT_COLOR);
    assert_eq!((info.base_mip_level, info.level_count, info.base_array_layer, info.layer_count), (0, 1, 0, 1));
    assert_eq!(VIEW_FORMAT_R8G8B8A8_UNORM as i32, ash::vk::Format::R8G8B8A8_UNORM.as_raw());
    assert_eq!(VIEW_TYPE_2D as i32, ash::vk::ImageViewType::TYPE_2D.as_raw());
    assert_eq!(ASPECT_COLOR, ash::vk::ImageAspectFlags::COLOR.as_raw());
}

#[test]
fn new_target_describes_its_view() {
    let t = target(550, 400);
    assert_eq!((t.width(), t.height()), (550, 400));
    assert_eq!(t.format(), TextureFormat::Rgba8Unorm);
    let d = t.get_retro_image();
    assert_eq!(d.image_view, 200);
    assert_eq!(d.image_layout, ImageLayout::ShaderReadOnlyOptimal);
    assert_eq!(d.create_info.image, 100);
}

#[test]
fn same_size_resize_replaces_view() {
    let mut t = target(550, 400);
    let before = t.generation;
    let old = t.begin_resize(550, 400);
    assert_eq!(old, 200);
    assert_eq!(t.get_image_view(), None);
    t.finish_resize(101, 201);
    assert_eq!((t.width(), t.height()), (550, 400));
    assert_ne!(t.generation, before);
    let d = t.get_retro_image();
    assert_ne!(t.get_image_view(), Some(200));
    assert_eq!(t.get_image_view(), Some(201));
    assert_eq!(t.format(), TextureFormat::Rgba8Unorm);
    assert_eq!(d.image_view, 201);
    assert_eq!(d.create_info.image, 101);
}

#[test]
fn resize_changes_size() {
    let mut t = target(550, 400);
    t.begin_resize(800, 600);
    t.finish_resize(102, 202);
    assert_eq!((t.width(), t.height()), (800, 600));
    assert_eq!(t.get_retro_image().image_view, 202);
}

#[test]
fn release_hands_back_only_the_view() {
    let mut t = target(10, 10);
    assert_eq!(t.release_view(), Some(200));
    assert_eq!(t.release_view(), None);
    assert_eq!(t.image, 100);
}

#[test]
fn frames_and_unused_target() {
    let f = RetroTextureTargetFrame(7u32);
    assert_eq!(*f.view(), 7);
    assert_eq!(f.into_view(), 7);
    let _ = RetroRenderTarget::new();
}
