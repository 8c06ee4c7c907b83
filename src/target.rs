//! Offscreen render targets whose image is shown to the host each frame.
use vstd::prelude::*;
use wgpu_types::TextureFormat;

verus! {

/// Relies on wgpu_types::TextureFormat: carried through unread.
#[verifier::external_type_specification]
#[verifier::external_body]
pub struct ExTextureFormat(wgpu_types::TextureFormat);

/// The layout the foreign image is handed to the host in; hosts and protocol
/// versions differ, so it is chosen by the caller.
#[derive(Clone, Copy, Debug, PartialEq, Eq, Structural)]
pub enum ImageLayout {
    General,
    ShaderReadOnlyOptimal,
    TransferDstOptimal,
    ColorAttachmentOptimal,
}

/// `VK_FORMAT_R8G8B8A8_UNORM`.
pub const VIEW_FORMAT_R8G8B8A8_UNORM: u32 = 37;
/// `VK_IMAGE_VIEW_TYPE_2D`.
pub const VIEW_TYPE_2D: u32 = 1;
/// `VK_IMAGE_ASPECT_COLOR_BIT`.
pub const ASPECT_COLOR: u32 = 1;

/// The description of an image view (`VkImageViewCreateInfo`): a 2D colour
/// view with identity swizzle over one mip level and one layer.
#[derive(Clone, Copy, Debug, PartialEq, Eq, Structural)]
pub struct ImageViewCreateInfo {
    pub image: u64,
    pub view_type: u32,
    pub format: u32,
    pub aspect_mask: u32,
    pub base_mip_level: u32,
    pub level_count: u32,
    pub base_array_layer: u32,
    pub layer_count: u32,
}

/// The view description over an image.
pub open spec fn view_info_for(image: u64) -> ImageViewCreateInfo {
    ImageViewCreateInfo {
        image,
        view_type: VIEW_TYPE_2D,
        format: VIEW_FORMAT_R8G8B8A8_UNORM,
        aspect_mask: ASPECT_COLOR,
        base_mip_level: 0,
        level_count: 1,
        base_array_layer: 0,
        layer_count: 1,
    }
}

/// Describes the view to create over the image of a target's texture.
pub fn image_view_info(image: u64) -> (r: ImageViewCreateInfo)
    ensures
        r == view_info_for(image),
{
    ImageViewCreateInfo {
        image,
        view_type: VIEW_TYPE_2D,
        format: VIEW_FORMAT_R8G8B8A8_UNORM,
        aspect_mask: ASPECT_COLOR,
        base_mip_level: 0,
        level_count: 1,
        base_array_layer: 0,
        layer_count: 1,
    }
}

/// What the host is given each frame (`retro_vulkan_image`).
#[derive(Clone, Copy, Debug, PartialEq, Eq, Structural)]
pub struct ForeignImage {
    pub image_view: u64,
    pub image_layout: ImageLayout,
    pub create_info: ImageViewCreateInfo,
}

/// A requested target size is out of bounds: each side must be at least 1 and
/// at most the device's largest 2D texture dimension.
#[derive(Clone, Copy, Debug, PartialEq, Eq, Structural)]
pub enum TargetError {
    InvalidSize { width: u32, height: u32, max_dimension: u32 },
}

/// Whether a size fits a device whose largest 2D texture side is `max_dimension`.
pub open spec fn size_in_bounds(width: u32, height: u32, max_dimension: u32) -> bool {
    1 <= width <= max_dimension && 1 <= height <= max_dimension
}

/// Checks a requested size before any texture or view exists.
pub fn validate_size(width: u32, height: u32, max_dimension: u32) -> (r: Result<(), TargetError>)
    ensures
        r is Ok <==> size_in_bounds(width, height, max_dimension),
        r is Err ==> r == Err::<(), TargetError>(TargetError::InvalidSize { width, height, max_dimension }),
{
    if width > max_dimension || height > max_dimension || width < 1 || height < 1 {
        Err(TargetError::InvalidSize { width, height, max_dimension })
    } else {
        Ok(())
    }
}

/// An offscreen target backed by a texture of the graphics layer, whose image
/// is also shown to the host through a view that this target owns. The image
/// belongs to the texture and is never destroyed here; the view is.
///
/// A resize is two steps: `begin_resize` hands back the old view for the caller
/// to destroy, and `finish_resize` installs the new texture's image and view
/// in one step. In between, the target has no view and no descriptor.
#[derive(Debug)]
pub struct RetroTextureTarget {
    pub width: u32,
    pub height: u32,
    pub format: TextureFormat,
    pub layout: ImageLayout,
    /// The image of the current texture.
    pub image: u64,
    /// The view over it, while one exists.
    pub image_view: Option<u64>,
    /// How many views this target has had: each new view gets a new number.
    pub generation: u64,
    /// The descriptor of the current view.
    pub retro_image: ForeignImage,
}

impl RetroTextureTarget {
    /// The descriptor matches the current image and view.
    pub open spec fn wf(self) -> bool {
        match self.image_view {
            Some(v) => self.retro_image == (ForeignImage {
                image_view: v,
                image_layout: self.layout,
                create_info: view_info_for(self.image),
            }),
            None => true,
        }
    }

    /// The target after its resize has begun.
    pub open spec fn resize_begun(self, width: u32, height: u32) -> RetroTextureTarget {
        RetroTextureTarget { width, height, image_view: None, ..self }
    }

    /// The target after its resize has installed a new image and view.
    pub open spec fn resize_finished(self, image: u64, image_view: u64) -> RetroTextureTarget {
        RetroTextureTarget {
            image,
            image_view: Some(image_view),
            generation: (self.generation + 1) as u64,
            retro_image: ForeignImage {
                image_view,
                image_layout: self.layout,
                create_info: view_info_for(image),
            },
            ..self
        }
    }

    /// A target of the requested size on a device whose largest 2D texture
    /// side is `max_dimension`. A size out of bounds is refused before anything
    /// exists. The target starts without a texture: the caller creates the
    /// texture and the view from `image_view_info(image)` and installs them
    /// with `finish_resize`.
    pub fn new(width: u32, height: u32, max_dimension: u32, format: TextureFormat, layout: ImageLayout) -> (r: Result<RetroTextureTarget, TargetError>)
        ensures
            r is Err <==> !size_in_bounds(width, height, max_dimension),
            r is Err ==> r == Err::<RetroTextureTarget, TargetError>(TargetError::InvalidSize { width, height, max_dimension }),
            r is Ok ==> {
                let t = r.unwrap();
                &&& t.wf()
                &&& t.width == width
                &&& t.height == height
                &&& t.format == format
                &&& t.layout == layout
                &&& t.image_view is None
                &&& t.generation == 0
            },
    {
        match validate_size(width, height, max_dimension) {
            Err(e) => Err(e),
            Ok(()) => Ok(RetroTextureTarget {
                width,
                height,
                format,
                layout,
                image: 0,
                image_view: None,
                generation: 0,
                retro_image: ForeignImage { image_view: 0, image_layout: layout, create_info: image_view_info(0) },
            }),
        }
    }

    /// Starts a resize: records the new size and hands back the old view,
    /// which the caller destroys before it creates the new texture and view.
    pub fn begin_resize(&mut self, width: u32, height: u32) -> (old_view: u64)
        requires
            old(self).wf(),
            old(self).image_view is Some,
        ensures
            final(self).wf(),
            *final(self) == old(self).resize_begun(width, height),
            Some(old_view) == old(self).image_view,
    {
        let old_view = match self.image_view {
            Some(v) => v,
            None => 0,
        };
        self.width = width;
        self.height = height;
        self.image_view = None;
        old_view
    }

    /// Installs a texture's image and the view created from
    /// `image_view_info(image)`, descriptor included: after `new`, and to end
    /// a resize.
    pub fn finish_resize(&mut self, image: u64, image_view: u64)
        requires
            old(self).wf(),
            old(self).image_view is None,
            old(self).generation < u64::MAX,
        ensures
            final(self).wf(),
            *final(self) == old(self).resize_finished(image, image_view),
    {
        self.image = image;
        self.image_view = Some(image_view);
        self.generation = self.generation + 1;
        self.retro_image = ForeignImage { image_view, image_layout: self.layout, create_info: image_view_info(image) };
    }

    /// The descriptor handed to the host; only a target with a view has one.
    pub fn get_retro_image(&self) -> (r: ForeignImage)
        requires
            self.wf(),
            self.image_view is Some,
        ensures
            r == self.retro_image,
            Some(r.image_view) == self.image_view,
            r.create_info.image == self.image,
    {
        self.retro_image
    }

    /// The current view, if any.
    pub fn get_image_view(&self) -> (r: Option<u64>)
        ensures
            r == self.image_view,
    {
        self.image_view
    }

    /// Gives up the view for destruction; the image stays with its texture.
    pub fn release_view(&mut self) -> (r: Option<u64>)
        requires
            old(self).wf(),
        ensures
            final(self).wf(),
            r == old(self).image_view,
            *final(self) == (RetroTextureTarget { image_view: None, ..*old(self) }),
    {
        let r = self.image_view;
        self.image_view = None;
        r
    }

    pub fn format(&self) -> (r: TextureFormat)
        ensures
            r == self.format,
    {
        self.format
    }

    pub fn width(&self) -> (r: u32)
        ensures
            r == self.width,
    {
        self.width
    }

    pub fn height(&self) -> (r: u32)
        ensures
            r == self.height,
    {
        self.height
    }
}

/// Resizing to the current size still replaces the view: the size stays, the
/// view number changes, and the descriptor names the new view and image. The
/// view handle itself differs where the driver gave a handle other than the
/// destroyed one (a driver may hand out a destroyed view's value again).
pub proof fn lemma_same_size_resize_replaces_view(t: RetroTextureTarget, image: u64, image_view: u64)
    requires
        t.wf(),
        t.image_view is Some,
        t.generation < u64::MAX,
    ensures
        ({
            let r = t.resize_begun(t.width, t.height).resize_finished(image, image_view);
            &&& r.wf()
            &&& r.width == t.width
            &&& r.height == t.height
            &&& r.format == t.format
            &&& r.generation != t.generation
            &&& r.image_view == Some(image_view)
            &&& r.retro_image.image_view == image_view
            &&& r.retro_image.create_info == view_info_for(image)
            &&& (Some(image_view) != t.image_view ==> r.image_view != t.image_view)
        }),
{
}

/// A frame of a texture target: a view of the texture to render into.
pub struct RetroTextureTargetFrame<V>(pub V);

impl<V> RetroTextureTargetFrame<V> {
    pub fn view(&self) -> (r: &V)
        ensures
            *r == self.0,
    {
        &self.0
    }

    pub fn into_view(self) -> (r: V)
        ensures
            r == self.0,
    {
        self.0
    }
}

/// A target that renders into a host-provided framebuffer; not in use.
#[derive(Debug)]
pub struct RetroRenderTarget {}

/// A frame of a `RetroRenderTarget`.
#[derive(Debug)]
pub struct RetroRenderTargetFrame {}

impl RetroRenderTarget {
    pub fn new() -> (r: RetroRenderTarget)
        ensures
            r == (RetroRenderTarget {}),
    {
        RetroRenderTarget {}
    }
}

} // verus!
