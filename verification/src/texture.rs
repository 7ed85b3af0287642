//! Planning the upload of a decoded image into a GPU texture, and the settings
//! under which the overlay samples it.

use crate::surface::SurfaceConfiguration;
use vstd::prelude::*;
use vstd::string::*;

verus! {

/// Bytes per texel of an interleaved 8-bit RGBA image.
pub const BYTES_PER_TEXEL: u32 = 4;

/// Extent of a texture.
#[derive(Clone, Copy, Debug, PartialEq, Eq, Structural)]
pub struct Extent3d {
    pub width: u32,
    pub height: u32,
    pub depth_or_array_layers: u32,
}

/// Origin of a copy within a texture.
#[derive(Clone, Copy, Debug, PartialEq, Eq, Structural)]
pub struct Origin3d {
    pub x: u32,
    pub y: u32,
    pub z: u32,
}

/// Dimensionality of a texture.
#[derive(Clone, Copy, Debug, PartialEq, Eq, Structural)]
pub enum TextureDimension {
    D1,
    D2,
    D3,
}

/// Which aspects of a texture a copy touches.
#[derive(Clone, Copy, Debug, PartialEq, Eq, Structural)]
pub enum TextureAspect {
    All,
    StencilOnly,
    DepthOnly,
}

/// The ways in which a texture may be used.
#[derive(Clone, Copy, Debug, PartialEq, Eq, Structural)]
pub struct TextureUsages {
    pub copy_src: bool,
    pub copy_dst: bool,
    pub texture_binding: bool,
    pub storage_binding: bool,
    pub render_attachment: bool,
}

/// What a texture is created with.
#[derive(Debug, PartialEq, Eq)]
pub struct TextureDescriptor {
    pub label: String,
    pub size: Extent3d,
    pub mip_level_count: u32,
    pub sample_count: u32,
    pub dimension: TextureDimension,
    pub format: wgpu::TextureFormat,
    pub usage: TextureUsages,
    pub view_formats: Vec<wgpu::TextureFormat>,
}

/// Where the rows of an image lie in the buffer a copy reads from.
#[derive(Clone, Copy, Debug, PartialEq, Eq, Structural)]
pub struct TexelCopyBufferLayout {
    pub offset: u64,
    pub bytes_per_row: Option<u32>,
    pub rows_per_image: Option<u32>,
}

/// One copy of pixel data into a texture.
#[derive(Debug, PartialEq, Eq)]
pub struct TextureWrite {
    pub mip_level: u32,
    pub origin: Origin3d,
    pub aspect: TextureAspect,
    pub data: Vec<u8>,
    pub layout: TexelCopyBufferLayout,
    pub size: Extent3d,
}

/// A texture to create and the copy that fills it.
#[derive(Debug, PartialEq, Eq)]
pub struct TextureUpload {
    pub descriptor: TextureDescriptor,
    pub write: TextureWrite,
}

/// Why an upload could not be planned.
#[derive(Clone, Copy, Debug, PartialEq, Eq, Structural)]
pub enum UploadError {
    /// A row of the image is longer than a row pitch can express.
    RowPitchOverflow,
}

/// What an image holds: its size in pixels and its bytes, row after row, four
/// to a pixel.
pub struct ImageModel {
    pub width: u32,
    pub height: u32,
    pub pixels: Seq<u8>,
}

/// A decoded image: interleaved RGBA, 8 bits per channel, rows from the top,
/// with no padding between them.
#[derive(Debug)]
pub struct DecodedImage {
    width: u32,
    height: u32,
    pixels: Vec<u8>,
}

impl View for DecodedImage {
    type V = ImageModel;

    closed spec fn view(&self) -> ImageModel {
        ImageModel { width: self.width, height: self.height, pixels: self.pixels@ }
    }
}

/// Bytes that an image of the given size holds.
pub open spec fn image_bytes(width: u32, height: u32) -> int {
    BYTES_PER_TEXEL * width * height
}

impl DecodedImage {
    #[verifier::type_invariant]
    spec fn well_formed(self) -> bool {
        self.pixels@.len() == image_bytes(self.width, self.height)
    }

    /// Wraps decoded pixels. The buffer must hold exactly four bytes for each
    /// pixel of a `width` by `height` image; any other buffer is refused.
    pub fn new(width: u32, height: u32, pixels: Vec<u8>) -> (image: Option<DecodedImage>)
        ensures
            match image {
                Some(image) => {
                    &&& pixels@.len() == image_bytes(width, height)
                    &&& image@.width == width
                    &&& image@.height == height
                    &&& image@.pixels == pixels@
                },
                None => pixels@.len() != image_bytes(width, height),
            },
    {
        assert(width * height <= 0xFFFF_FFFF * 0xFFFF_FFFF) by (nonlinear_arith)
            requires
                width <= 0xFFFF_FFFF,
                height <= 0xFFFF_FFFF,
        ;
        let texels: u64 = (width as u64) * (height as u64);
        let len: usize = pixels.len();
        assert(image_bytes(width, height) == 4 * texels) by (nonlinear_arith)
            requires
                texels == width * height,
                image_bytes(width, height) == 4 * width * height,
        ;
        if len % 4 == 0 && (len / 4) as u64 == texels {
            Some(DecodedImage { width, height, pixels })
        } else {
            None
        }
    }

    /// Width in pixels.
    pub fn width(&self) -> (width: u32)
        ensures
            width == self@.width,
    {
        self.width
    }

    /// Height in pixels.
    pub fn height(&self) -> (height: u32)
        ensures
            height == self@.height,
    {
        self.height
    }

    /// The pixel bytes.
    pub fn pixels(&self) -> (pixels: &Vec<u8>)
        ensures
            pixels@ == self@.pixels,
            pixels@.len() == image_bytes(self@.width, self@.height),
    {
        proof {
            use_type_invariant(self);
        }
        &self.pixels
    }
}

/// The usage of a texture that shaders sample and copies fill, and nothing
/// else.
pub open spec fn sampled_copy_destination() -> TextureUsages {
    TextureUsages {
        copy_src: false,
        copy_dst: true,
        texture_binding: true,
        storage_binding: false,
        render_attachment: false,
    }
}

/// `upload` creates a texture for `image` and fills it in one copy.
///
/// The texture is two-dimensional, as large as the image, with one mip level
/// and one sample, usable for sampling and as a copy destination. Its format
/// is `surface_format`, the format of the surface it will be drawn to, not a
/// format read from the image. The copy starts at the texture's origin and
/// reads the image's rows back to back: four bytes for each pixel of a row,
/// and as many rows as the image is high.
pub open spec fn is_upload_of(
    upload: TextureUpload,
    surface_format: wgpu::TextureFormat,
    image: ImageModel,
    path: Seq<char>,
) -> bool {
    let extent = Extent3d { width: image.width, height: image.height, depth_or_array_layers: 1 };
    &&& upload.descriptor.label@ == path
    &&& upload.descriptor.size == extent
    &&& upload.descriptor.mip_level_count == 1
    &&& upload.descriptor.sample_count == 1
    &&& upload.descriptor.dimension == TextureDimension::D2
    &&& upload.descriptor.format == surface_format
    &&& upload.descriptor.usage == sampled_copy_destination()
    &&& upload.descriptor.view_formats@.len() == 0
    &&& upload.write.mip_level == 0
    &&& upload.write.origin == Origin3d { x: 0, y: 0, z: 0 }
    &&& upload.write.aspect == TextureAspect::All
    &&& upload.write.data@ == image.pixels
    &&& upload.write.layout.offset == 0
    &&& upload.write.layout.bytes_per_row matches Some(pitch) && pitch == BYTES_PER_TEXEL
        * image.width
    &&& upload.write.layout.rows_per_image == Some(image.height)
    &&& upload.write.size == extent
}

/// Plans the upload of a decoded image as a texture for the surface that
/// `surface_conf` configures. `path` names the image and labels the texture.
///
/// The plan is refused only where a row of the image is too long for a row
/// pitch, which is a 32-bit count of bytes.
pub fn write_image_from_path_msaa_off(
    surface_conf: &SurfaceConfiguration,
    image: DecodedImage,
    path: &str,
) -> (result: Result<TextureUpload, UploadError>)
    ensures
        BYTES_PER_TEXEL * image@.width > u32::MAX ==> result == Err::<TextureUpload, UploadError>(
            UploadError::RowPitchOverflow,
        ),
        BYTES_PER_TEXEL * image@.width <= u32::MAX ==> result is Ok && is_upload_of(
            result->Ok_0,
            surface_conf.format,
            image@,
            path@,
        ),
        result matches Ok(upload) ==> upload.write.data@.len() == image_bytes(
            image@.width,
            image@.height,
        ),
{
    proof {
        use_type_invariant(&image);
    }
    let bytes_per_row = match BYTES_PER_TEXEL.checked_mul(image.width) {
        Some(pitch) => pitch,
        None => {
            return Err(UploadError::RowPitchOverflow);
        },
    };
    let size = Extent3d { width: image.width, height: image.height, depth_or_array_layers: 1 };
    let descriptor = TextureDescriptor {
        label: String::from_str(path),
        size,
        mip_level_count: 1,
        sample_count: 1,
        dimension: TextureDimension::D2,
        format: surface_conf.format,
        usage: TextureUsages {
            copy_src: false,
            copy_dst: true,
            texture_binding: true,
            storage_binding: false,
            render_attachment: false,
        },
        view_formats: Vec::new(),
    };
    let write = TextureWrite {
        mip_level: 0,
        origin: Origin3d { x: 0, y: 0, z: 0 },
        aspect: TextureAspect::All,
        data: image.pixels,
        layout: TexelCopyBufferLayout {
            offset: 0,
            bytes_per_row: Some(bytes_per_row),
            rows_per_image: Some(image.height),
        },
        size,
    };
    Ok(TextureUpload { descriptor, write })
}

/// Where a copy with `layout` finds one channel of the texel in column `x` of
/// row `y`: rows lie one row pitch apart, texels four bytes apart.
pub open spec fn copy_source_index(layout: TexelCopyBufferLayout, x: int, y: int, channel: int) -> int {
    layout.offset + y * layout.bytes_per_row->0 + BYTES_PER_TEXEL * x + channel
}

/// Where an image of the given width holds one channel of the pixel in column
/// `x` of row `y`.
pub open spec fn pixel_index(width: u32, x: int, y: int, channel: int) -> int {
    BYTES_PER_TEXEL * (y * width + x) + channel
}

/// The copy of an upload reads, for every texel of the texture, the bytes of
/// the image's pixel at the same place: what the texture receives is the image.
pub proof fn lemma_upload_copies_each_pixel_in_place(
    upload: TextureUpload,
    surface_format: wgpu::TextureFormat,
    image: ImageModel,
    path: Seq<char>,
    x: int,
    y: int,
    channel: int,
)
    requires
        is_upload_of(upload, surface_format, image, path),
        image.pixels.len() == image_bytes(image.width, image.height),
        0 <= x < upload.write.size.width,
        0 <= y < upload.write.size.height,
        0 <= channel < BYTES_PER_TEXEL,
    ensures
        copy_source_index(upload.write.layout, x, y, channel) == pixel_index(
            image.width,
            x,
            y,
            channel,
        ),
        0 <= pixel_index(image.width, x, y, channel) < image.pixels.len(),
        upload.write.data@[copy_source_index(upload.write.layout, x, y, channel)]
            == image.pixels[pixel_index(image.width, x, y, channel)],
{
    let w = image.width as int;
    let h = image.height as int;
    assert(y * (4 * w) + 4 * x + channel == 4 * (y * w + x) + channel) by (nonlinear_arith);
    assert(0 <= 4 * (y * w + x) + channel < 4 * w * h) by (nonlinear_arith)
        requires
            0 <= x < w,
            0 <= y < h,
            0 <= channel < 4,
    ;
}

/// How texture coordinates outside the unit square are treated.
#[derive(Clone, Copy, Debug, PartialEq, Eq, Structural)]
pub enum AddressMode {
    ClampToEdge,
    Repeat,
    MirrorRepeat,
    ClampToBorder,
}

/// How texels are combined when a texture is sampled.
#[derive(Clone, Copy, Debug, PartialEq, Eq, Structural)]
pub enum FilterMode {
    Nearest,
    Linear,
}

/// How the overlay samples a texture.
#[derive(Debug, PartialEq, Eq)]
pub struct SamplerDescriptor {
    pub label: String,
    pub address_mode_u: AddressMode,
    pub address_mode_v: AddressMode,
    pub address_mode_w: AddressMode,
    pub mag_filter: FilterMode,
    pub min_filter: FilterMode,
    pub mipmap_filter: FilterMode,
}

/// What the overlay's renderer is told of a texture it is to draw.
#[derive(Debug, PartialEq, Eq)]
pub struct TextureConfig {
    pub size: Extent3d,
    pub label: String,
    pub format: wgpu::TextureFormat,
    pub usage: TextureUsages,
    pub mip_level_count: u32,
    pub sample_count: u32,
    pub dimension: TextureDimension,
    pub sampler_desc: SamplerDescriptor,
}

/// `config` registers a texture made from `descriptor` with the overlay: it
/// repeats the texture's own size, format, usage, mip levels, sample count and
/// dimension, and samples it clamped to the edge, with linear filtering
/// between texels and the nearest mip level.
pub open spec fn is_overlay_config_of(config: TextureConfig, descriptor: TextureDescriptor) -> bool {
    &&& config.size == descriptor.size
    &&& config.label@ == "ila"@
    &&& config.format == descriptor.format
    &&& config.usage == descriptor.usage
    &&& config.mip_level_count == descriptor.mip_level_count
    &&& config.sample_count == descriptor.sample_count
    &&& config.dimension == descriptor.dimension
    &&& config.sampler_desc.label@ == "Image Sampler"@
    &&& config.sampler_desc.address_mode_u == AddressMode::ClampToEdge
    &&& config.sampler_desc.address_mode_v == AddressMode::ClampToEdge
    &&& config.sampler_desc.address_mode_w == AddressMode::ClampToEdge
    &&& config.sampler_desc.mag_filter == FilterMode::Linear
    &&& config.sampler_desc.min_filter == FilterMode::Linear
    &&& config.sampler_desc.mipmap_filter == FilterMode::Nearest
}

/// The settings under which the overlay draws a texture that was created from
/// `descriptor`.
pub fn overlay_texture_config(descriptor: &TextureDescriptor) -> (config: TextureConfig)
    ensures
        is_overlay_config_of(config, *descriptor),
{
    TextureConfig {
        size: descriptor.size,
        label: String::from_str("ila"),
        format: descriptor.format,
        usage: descriptor.usage,
        mip_level_count: descriptor.mip_level_count,
        sample_count: descriptor.sample_count,
        dimension: descriptor.dimension,
        sampler_desc: SamplerDescriptor {
            label: String::from_str("Image Sampler"),
            address_mode_u: AddressMode::ClampToEdge,
            address_mode_v: AddressMode::ClampToEdge,
            address_mode_w: AddressMode::ClampToEdge,
            mag_filter: FilterMode::Linear,
            min_filter: FilterMode::Linear,
            mipmap_filter: FilterMode::Nearest,
        },
    }
}

} // verus!
