//! Textures and samplers.

use crate::bind_group::{BindGroupEntry, BindingResource, BindingType, ShaderStages};
use crate::context::{Context, ContextView};
use crate::driver::{Handle, Request, RequestView, ResourceKind};
use vstd::prelude::*;

verus! {

/// The extent of a texture in texels.
#[derive(Clone, Copy, Debug, PartialEq, Eq, Structural)]
pub struct Extent3d {
    pub width: u32,
    pub height: u32,
    pub depth_or_array_layers: u32,
}

/// How many dimensions a texture has.
#[derive(Clone, Copy, Debug, PartialEq, Eq, Structural)]
pub enum TextureDimension {
    D2,
}

/// The texel format of the textures this layer creates.
#[derive(Clone, Copy, Debug, PartialEq, Eq, Structural)]
pub enum TextureFormat {
    /// Four 8-bit channels, red first, sRGB-encoded color.
    Rgba8UnormSrgb,
}

/// What a texture may be used for.
#[derive(Clone, Copy, Debug, PartialEq, Eq, Structural)]
pub struct TextureUsages {
    pub texture_binding: bool,
    pub copy_dst: bool,
    pub render_attachment: bool,
}

/// What the driver needs to know to create a texture.
#[derive(Clone, Copy, Debug, PartialEq, Eq, Structural)]
pub struct TextureDescriptor {
    pub size: Extent3d,
    pub mip_level_count: u32,
    pub sample_count: u32,
    pub dimension: TextureDimension,
    pub format: TextureFormat,
    pub usage: TextureUsages,
}

/// How the bytes of an image are laid out in the buffer that is uploaded.
#[derive(Clone, Copy, Debug, PartialEq, Eq, Structural)]
pub struct ImageDataLayout {
    pub offset: u64,
    pub bytes_per_row: Option<u32>,
    pub rows_per_image: Option<u32>,
}

/// What a sampler does with coordinates outside the texture.
#[derive(Clone, Copy, Debug, PartialEq, Eq, Structural)]
pub enum AddressMode {
    ClampToEdge,
    Repeat,
    MirrorRepeat,
}

/// How a sampler picks a value between texels or mip levels.
#[derive(Clone, Copy, Debug, PartialEq, Eq, Structural)]
pub enum FilterMode {
    Nearest,
    Linear,
}

/// What the driver needs to know to create a sampler.
#[derive(Clone, Copy, Debug, PartialEq, Eq, Structural)]
pub struct SamplerDescriptor {
    pub address_mode_u: AddressMode,
    pub address_mode_v: AddressMode,
    pub address_mode_w: AddressMode,
    pub mag_filter: FilterMode,
    pub min_filter: FilterMode,
    pub mipmap_filter: FilterMode,
}

/// A decoded image, whatever its format was.
#[verifier::external_type_specification]
#[verifier::external_body]
pub struct ExDynamicImage(image::DynamicImage);

/// Why an image could not be decoded.
#[verifier::external_type_specification]
#[verifier::external_body]
pub struct ExImageError(image::ImageError);

/// `image::load_from_memory` guesses the format of `buffer` and decodes it.
/// Which bytes decode depends on the formats the crate was built with and
/// on the decoders registered with it, so nothing is claimed of the result.
pub assume_specification[ image::load_from_memory ](buffer: &[u8]) -> (decoded: image::ImageResult<
    image::DynamicImage,
>)
;

/// `image::DynamicImage::to_rgba8` with the width, the height and the
/// buffer of what it returns: four bytes for each texel, row after row. The
/// buffer holds every texel; it may be longer than the texels take.
#[verifier::external_body]
fn to_rgba8(decoded: &image::DynamicImage) -> (image: RgbaImage)
    ensures
        image.pixels@.len() >= 4 * image.width * image.height,
{
    let rgba = decoded.to_rgba8();
    RgbaImage { width: rgba.width(), height: rgba.height(), pixels: rgba.to_vec() }
}

/// An image as rows of texels, each texel four bytes: red, green, blue and
/// alpha. The texels lie at the start of `pixels`, row after row.
#[derive(Debug, PartialEq, Eq)]
pub struct RgbaImage {
    pub width: u32,
    pub height: u32,
    pub pixels: Vec<u8>,
}

/// The descriptor of every texture this layer creates: two dimensions, one
/// layer, one mip level, one sample, RGBA with sRGB color, to be bound and
/// to be written to.
pub open spec fn image_texture(width: u32, height: u32) -> TextureDescriptor {
    TextureDescriptor {
        size: Extent3d { width, height, depth_or_array_layers: 1 },
        mip_level_count: 1,
        sample_count: 1,
        dimension: TextureDimension::D2,
        format: TextureFormat::Rgba8UnormSrgb,
        usage: TextureUsages { texture_binding: true, copy_dst: true, render_attachment: false },
    }
}

/// How the texels of an image `width` wide and `height` high lie in the
/// bytes that are uploaded: from the first byte on, four bytes a texel,
/// rows without padding.
pub open spec fn image_layout(width: u32, height: u32) -> ImageDataLayout {
    ImageDataLayout {
        offset: 0,
        bytes_per_row: Some((4 * width) as u32),
        rows_per_image: Some(height),
    }
}

/// The context `ctx` after a texture for an image of `width` by `height`
/// texels was asked of the driver: the texture, then the upload of
/// `pixels`, then a view of the texture.
pub open spec fn texture_requests(
    ctx: ContextView,
    width: u32,
    height: u32,
    pixels: Seq<u8>,
) -> ContextView {
    let texture = ctx.next_handle();
    let uploaded = ctx.issue(ResourceKind::Texture).enqueue(
        RequestView::CreateTexture { id: texture, descriptor: image_texture(width, height) },
    ).enqueue(
        RequestView::WriteTexture {
            texture,
            data: pixels,
            layout: image_layout(width, height),
            size: Extent3d { width, height, depth_or_array_layers: 1 },
        },
    );
    uploaded.issue(ResourceKind::TextureView).enqueue(
        RequestView::CreateTextureView { id: uploaded.next_handle(), texture },
    )
}

/// A two-dimensional texture that fragment shaders sample.
#[derive(Debug, PartialEq, Eq)]
pub struct Texture2D {
    view: Handle,
}

impl Texture2D {
    /// The handle of the view of the texture.
    pub closed spec fn handle(&self) -> Handle {
        self.view
    }

    /// Asks the driver for a texture that holds `image`. Returns `None`,
    /// and asks nothing, where a row of the image takes more bytes than 32
    /// bits count.
    pub fn from_image(ctx: &mut Context, image: RgbaImage) -> (texture: Option<Texture2D>)
        ensures
            texture is Some <==> 4 * image.width <= u32::MAX,
            texture is None ==> final(ctx)@ == old(ctx)@,
            texture matches Some(made) ==> {
                &&& made.handle() == old(ctx)@.issue(ResourceKind::Texture).next_handle()
                &&& final(ctx)@ == texture_requests(
                    old(ctx)@,
                    image.width,
                    image.height,
                    image.pixels@,
                )
            },
    {
        if image.width > u32::MAX / 4 {
            return None;
        }
        let size = Extent3d { width: image.width, height: image.height, depth_or_array_layers: 1 };
        let texture = ctx.issue(ResourceKind::Texture);
        ctx.enqueue(
            Request::CreateTexture {
                id: texture,
                descriptor: TextureDescriptor {
                    size,
                    mip_level_count: 1,
                    sample_count: 1,
                    dimension: TextureDimension::D2,
                    format: TextureFormat::Rgba8UnormSrgb,
                    usage: TextureUsages {
                        texture_binding: true,
                        copy_dst: true,
                        render_attachment: false,
                    },
                },
            },
        );
        ctx.enqueue(
            Request::WriteTexture {
                texture,
                data: image.pixels,
                layout: ImageDataLayout {
                    offset: 0,
                    bytes_per_row: Some(4 * image.width),
                    rows_per_image: Some(image.height),
                },
                size,
            },
        );
        let view = ctx.issue(ResourceKind::TextureView);
        ctx.enqueue(Request::CreateTextureView { id: view, texture });
        Some(Texture2D { view })
    }

    /// Decodes `data`, the bytes of an image file, and asks the driver for
    /// a texture that holds the image, as [`Texture2D::from_image`] does.
    /// Returns `None`, and asks nothing, where `data` does not decode or
    /// the image is refused there.
    pub fn new(ctx: &mut Context, data: &[u8]) -> (texture: Option<Texture2D>)
        ensures
            texture is None ==> final(ctx)@ == old(ctx)@,
            texture matches Some(made) ==> {
                &&& made.handle() == old(ctx)@.issue(ResourceKind::Texture).next_handle()
                &&& exists|width: u32, height: u32, pixels: Seq<u8>|
                    {
                        &&& 4 * width <= u32::MAX
                        &&& pixels.len() >= 4 * width * height
                        &&& final(ctx)@ == #[trigger] texture_requests(
                            old(ctx)@,
                            width,
                            height,
                            pixels,
                        )
                    }
            },
    {
        match image::load_from_memory(data) {
            Ok(decoded) => Texture2D::from_image(ctx, to_rgba8(&decoded)),
            Err(_) => None,
        }
    }

    /// The handle of the view of the texture.
    pub fn id(&self) -> (id: Handle)
        ensures
            id == self.handle(),
    {
        self.view
    }
}

impl BindGroupEntry for Texture2D {
    open spec fn stages(&self) -> ShaderStages {
        ShaderStages { vertex: false, fragment: true }
    }

    open spec fn kind(&self) -> BindingType {
        BindingType::SampledTexture { filterable: true, multisampled: false }
    }

    open spec fn bound(&self) -> BindingResource {
        BindingResource::TextureView(self.handle())
    }

    fn visibility(&self) -> (visibility: ShaderStages) {
        ShaderStages { vertex: false, fragment: true }
    }

    fn binding_type(&self) -> (ty: BindingType) {
        BindingType::SampledTexture { filterable: true, multisampled: false }
    }

    fn resource(&self) -> (resource: BindingResource) {
        BindingResource::TextureView(self.view)
    }
}

/// The descriptor of every sampler this layer creates: coordinates are
/// clamped to the edge, the nearest texel is taken, and mip levels are
/// blended.
pub open spec fn nearest_sampler() -> SamplerDescriptor {
    SamplerDescriptor {
        address_mode_u: AddressMode::ClampToEdge,
        address_mode_v: AddressMode::ClampToEdge,
        address_mode_w: AddressMode::ClampToEdge,
        mag_filter: FilterMode::Nearest,
        min_filter: FilterMode::Nearest,
        mipmap_filter: FilterMode::Linear,
    }
}

/// A sampler that fragment shaders read textures with.
#[derive(Debug, PartialEq, Eq)]
pub struct Sampler {
    id: Handle,
}

impl Sampler {
    /// The handle of the sampler.
    pub closed spec fn handle(&self) -> Handle {
        self.id
    }

    /// Asks the driver for a sampler.
    pub fn new(ctx: &mut Context) -> (sampler: Sampler)
        ensures
            sampler.handle() == old(ctx)@.next_handle(),
            final(ctx)@ == old(ctx)@.issue(ResourceKind::Sampler).enqueue(
                RequestView::CreateSampler { id: sampler.handle(), descriptor: nearest_sampler() },
            ),
    {
        let id = ctx.issue(ResourceKind::Sampler);
        ctx.enqueue(
            Request::CreateSampler {
                id,
                descriptor: SamplerDescriptor {
                    address_mode_u: AddressMode::ClampToEdge,
                    address_mode_v: AddressMode::ClampToEdge,
                    address_mode_w: AddressMode::ClampToEdge,
                    mag_filter: FilterMode::Nearest,
                    min_filter: FilterMode::Nearest,
                    mipmap_filter: FilterMode::Linear,
                },
            },
        );
        Sampler { id }
    }

    /// The handle of the sampler.
    pub fn id(&self) -> (id: Handle)
        ensures
            id == self.handle(),
    {
        self.id
    }
}

impl BindGroupEntry for Sampler {
    open spec fn stages(&self) -> ShaderStages {
        ShaderStages { vertex: false, fragment: true }
    }

    open spec fn kind(&self) -> BindingType {
        BindingType::FilteringSampler
    }

    open spec fn bound(&self) -> BindingResource {
        BindingResource::Sampler(self.handle())
    }

    fn visibility(&self) -> (visibility: ShaderStages) {
        ShaderStages { vertex: false, fragment: true }
    }

    fn binding_type(&self) -> (ty: BindingType) {
        BindingType::FilteringSampler
    }

    fn resource(&self) -> (resource: BindingResource) {
        BindingResource::Sampler(self.id)
    }
}

} // verus!
