//! Pixel data by channel, and the descriptions of the textures, samplers and
//! uploads that the device is asked for.

use crate::error::{RenderError, RenderErrorKind};
use std::borrow::Cow;
use vstd::prelude::*;

verus! {

/// The texel formats that the renderer uses.
#[derive(Clone, Copy, Debug, PartialEq, Eq, Structural)]
pub enum TextureFormat {
    /// Four 8-bit channels, blue first, sRGB.
    Bgra8UnormSrgb,
    /// Four 8-bit channels, red first, sRGB.
    Rgba8UnormSrgb,
    /// One 8-bit channel.
    R8Unorm,
    /// One 32-bit floating-point depth channel.
    Depth32Float,
}

pub const COLOR_ATTACHMENT_FORMAT: TextureFormat = TextureFormat::Bgra8UnormSrgb;

pub const DEPTH_ATTACHMENT_FORMAT: TextureFormat = TextureFormat::Depth32Float;

pub const DIFFUSE_TEXTURE_FORMAT: TextureFormat = TextureFormat::Rgba8UnormSrgb;

pub const FULLBRIGHT_TEXTURE_FORMAT: TextureFormat = TextureFormat::R8Unorm;

pub const LIGHTMAP_TEXTURE_FORMAT: TextureFormat = TextureFormat::R8Unorm;

#[derive(Clone, Copy, Debug, PartialEq, Eq, Structural)]
pub enum TextureDimension {
    D1,
    D2,
    D3,
}

/// What a texture may be used for.
#[derive(Clone, Copy, Debug, PartialEq, Eq, Structural)]
pub struct TextureUsage {
    pub copy_src: bool,
    pub copy_dst: bool,
    pub sampled: bool,
    pub storage: bool,
    pub output_attachment: bool,
}

#[derive(Clone, Copy, Debug, PartialEq, Eq, Structural)]
pub struct Extent3d {
    pub width: u32,
    pub height: u32,
    pub depth: u32,
}

#[derive(Clone, Copy, Debug, PartialEq, Eq, Structural)]
pub struct Origin3d {
    pub x: u32,
    pub y: u32,
    pub z: u32,
}

/// The description of a texture, as the device takes it.
#[derive(Clone, Copy, Debug, PartialEq, Eq)]
pub struct TextureDescriptor<'a> {
    pub label: Option<&'a str>,
    pub size: Extent3d,
    pub mip_level_count: u32,
    pub sample_count: u32,
    pub dimension: TextureDimension,
    pub format: TextureFormat,
    pub usage: TextureUsage,
}

/// The description of a two-dimensional texture of one layer, one mip level
/// and one sample, that can be copied to and sampled from.
pub open spec fn spec_texture_descriptor<'a>(
    label: Option<&'a str>,
    width: u32,
    height: u32,
    format: TextureFormat,
) -> TextureDescriptor<'a> {
    TextureDescriptor {
        label,
        size: Extent3d { width, height, depth: 1 },
        mip_level_count: 1,
        sample_count: 1,
        dimension: TextureDimension::D2,
        format,
        usage: TextureUsage {
            copy_src: false,
            copy_dst: true,
            sampled: true,
            storage: false,
            output_attachment: false,
        },
    }
}

/// Create a `TextureDescriptor` appropriate for the provided texture data.
pub fn texture_descriptor<'a>(
    label: Option<&'a str>,
    width: u32,
    height: u32,
    format: TextureFormat,
) -> (descriptor: TextureDescriptor<'a>)
    ensures
        descriptor == spec_texture_descriptor(label, width, height, format),
{
    TextureDescriptor {
        label,
        size: Extent3d { width, height, depth: 1 },
        mip_level_count: 1,
        sample_count: 1,
        dimension: TextureDimension::D2,
        format,
        usage: TextureUsage {
            copy_src: false,
            copy_dst: true,
            sampled: true,
            storage: false,
            output_attachment: false,
        },
    }
}

pub struct DiffuseData<'a> {
    pub rgba: Cow<'a, [u8]>,
}

pub struct FullbrightData<'a> {
    pub fullbright: Cow<'a, [u8]>,
}

pub struct LightmapData<'a> {
    pub lightmap: Cow<'a, [u8]>,
}

pub enum TextureData<'a> {
    Diffuse(DiffuseData<'a>),
    Fullbright(FullbrightData<'a>),
    Lightmap(LightmapData<'a>),
}

/// The bytes behind a `Cow`, borrowed or owned.
fn cow_bytes<'b, 'a>(bytes: &'b Cow<'a, [u8]>) -> (slice: &'b [u8])
    ensures
        slice@ == bytes@,
{
    match bytes {
        Cow::Borrowed(borrowed) => borrowed,
        Cow::Owned(owned) => owned.as_slice(),
    }
}

impl<'a> TextureData<'a> {
    /// The bytes of the pixels, row by row.
    pub open spec fn spec_data(&self) -> Seq<u8> {
        match self {
            TextureData::Diffuse(d) => d.rgba@,
            TextureData::Fullbright(d) => d.fullbright@,
            TextureData::Lightmap(d) => d.lightmap@,
        }
    }

    pub open spec fn spec_format(&self) -> TextureFormat {
        match self {
            TextureData::Diffuse(_) => TextureFormat::Rgba8UnormSrgb,
            TextureData::Fullbright(_) => TextureFormat::R8Unorm,
            TextureData::Lightmap(_) => TextureFormat::R8Unorm,
        }
    }

    /// The number of bytes in one pixel.
    pub open spec fn spec_stride(&self) -> u32 {
        match self {
            TextureData::Diffuse(_) => 4,
            TextureData::Fullbright(_) => 1,
            TextureData::Lightmap(_) => 1,
        }
    }

    #[verifier::when_used_as_spec(spec_format)]
    pub fn format(&self) -> (format: TextureFormat)
        ensures
            format == self.spec_format(),
    {
        match self {
            TextureData::Diffuse(_) => DIFFUSE_TEXTURE_FORMAT,
            TextureData::Fullbright(_) => FULLBRIGHT_TEXTURE_FORMAT,
            TextureData::Lightmap(_) => LIGHTMAP_TEXTURE_FORMAT,
        }
    }

    pub fn data(&self) -> (data: &[u8])
        ensures
            data@ == self.spec_data(),
    {
        match self {
            TextureData::Diffuse(d) => cow_bytes(&d.rgba),
            TextureData::Fullbright(d) => cow_bytes(&d.fullbright),
            TextureData::Lightmap(d) => cow_bytes(&d.lightmap),
        }
    }

    #[verifier::when_used_as_spec(spec_stride)]
    pub fn stride(&self) -> (stride: u32)
        ensures
            stride == self.spec_stride(),
    {
        match self {
            TextureData::Diffuse(_) => 4,
            TextureData::Fullbright(_) => 1,
            TextureData::Lightmap(_) => 1,
        }
    }

    /// The number of bytes of pixel data.
    pub fn size(&self) -> (size: u64)
        ensures
            size == self.spec_data().len(),
    {
        self.data().len() as u64
    }
}

/// How the bytes handed over with an upload are laid out.
#[derive(Clone, Copy, Debug, PartialEq, Eq, Structural)]
pub struct TextureDataLayout {
    pub offset: u64,
    pub bytes_per_row: u32,
    pub rows_per_image: u32,
}

/// A texture to make and the pixels to fill it with: the whole of mip
/// level zero, from the origin, row after row without padding.
#[derive(Clone, Copy, Debug, PartialEq, Eq)]
pub struct TextureUpload<'a> {
    pub descriptor: TextureDescriptor<'a>,
    pub mip_level: u32,
    pub origin: Origin3d,
    pub data: &'a [u8],
    pub layout: TextureDataLayout,
    pub extent: Extent3d,
}

/// Why a texture of `width` by `height` pixels cannot be made from `data`,
/// if it cannot.
pub open spec fn spec_texture_fault(width: u32, height: u32, data: TextureData) -> Option<
    RenderErrorKind,
> {
    if width == 0 || height == 0 {
        Some(RenderErrorKind::EmptyExtent)
    } else if width * data.spec_stride() > u32::MAX {
        Some(RenderErrorKind::RowTooWide)
    } else if data.spec_data().len() < width * data.spec_stride() * height {
        Some(RenderErrorKind::DataTooShort)
    } else {
        None
    }
}

/// The upload that fills a texture of `width` by `height` pixels with `data`.
pub open spec fn spec_texture_upload<'a>(
    label: Option<&'a str>,
    width: u32,
    height: u32,
    data: TextureData,
    bytes: &'a [u8],
) -> TextureUpload<'a> {
    TextureUpload {
        descriptor: spec_texture_descriptor(label, width, height, data.spec_format()),
        mip_level: 0,
        origin: Origin3d { x: 0, y: 0, z: 0 },
        data: bytes,
        layout: TextureDataLayout {
            offset: 0,
            bytes_per_row: (width * data.spec_stride()) as u32,
            rows_per_image: 0,
        },
        extent: Extent3d { width, height, depth: 1 },
    }
}

/// Describes the texture that holds `data` and the upload that fills it.
/// The format and the row pitch follow from the channel of the data.
/// Refuses a texture without pixels, a row wider than a row pitch can say,
/// and data that do not fill the texture.
pub fn create_texture<'a>(
    label: Option<&'a str>,
    width: u32,
    height: u32,
    data: &'a TextureData<'a>,
) -> (result: Result<TextureUpload<'a>, RenderError>)
    ensures
        match result {
            Ok(upload) => {
                &&& spec_texture_fault(width, height, *data) is None
                &&& upload.data@ == data.spec_data()
                &&& upload == spec_texture_upload(label, width, height, *data, upload.data)
            },
            Err(error) => spec_texture_fault(width, height, *data) == Some(error.kind),
        },
{
    if width == 0 || height == 0 {
        return Err(RenderError::new(RenderErrorKind::EmptyExtent));
    }
    let stride: u64 = data.stride() as u64;
    assert(width * stride <= u64::MAX) by (nonlinear_arith)
        requires
            width <= u32::MAX,
            stride <= 4,
    ;
    let bytes_per_row: u64 = (width as u64) * stride;
    if bytes_per_row > u32::MAX as u64 {
        return Err(RenderError::new(RenderErrorKind::RowTooWide));
    }
    assert(bytes_per_row * height <= u64::MAX) by (nonlinear_arith)
        requires
            bytes_per_row <= u32::MAX,
            height <= u32::MAX,
    ;
    let needed: u64 = bytes_per_row * (height as u64);
    let bytes: &[u8] = data.data();
    if (bytes.len() as u64) < needed {
        return Err(RenderError::new(RenderErrorKind::DataTooShort));
    }
    Ok(
        TextureUpload {
            descriptor: texture_descriptor(label, width, height, data.format()),
            mip_level: 0,
            origin: Origin3d { x: 0, y: 0, z: 0 },
            data: bytes,
            layout: TextureDataLayout {
                offset: 0,
                bytes_per_row: bytes_per_row as u32,
                rows_per_image: 0,
            },
            extent: Extent3d { width, height, depth: 1 },
        },
    )
}

/// A texture that stands in where a model lacks a channel.
pub struct DefaultTexture {
    pub width: u32,
    pub height: u32,
    pub data: TextureData<'static>,
}

/// The pixels of the fallback diffuse texture: a checkerboard of two by
/// two, magenta and black, opaque.
pub open spec fn spec_default_diffuse_rgba() -> Seq<u8> {
    seq![
        0xFFu8, 0x00u8, 0xFFu8, 0xFFu8,
        0x00u8, 0x00u8, 0x00u8, 0xFFu8,
        0x00u8, 0x00u8, 0x00u8, 0xFFu8,
        0xFFu8, 0x00u8, 0xFFu8, 0xFFu8,
    ]
}

/// The fallback diffuse texture.
pub fn default_diffuse() -> (texture: DefaultTexture)
    ensures
        texture.width == 2,
        texture.height == 2,
        texture.data is Diffuse,
        texture.data.spec_data() == spec_default_diffuse_rgba(),
        spec_texture_fault(texture.width, texture.height, texture.data) is None,
{
    let rgba: Vec<u8> = vec![
        0xFFu8, 0x00u8, 0xFFu8, 0xFFu8,
        0x00u8, 0x00u8, 0x00u8, 0xFFu8,
        0x00u8, 0x00u8, 0x00u8, 0xFFu8,
        0xFFu8, 0x00u8, 0xFFu8, 0xFFu8,
    ];
    assert(rgba@ =~= spec_default_diffuse_rgba());
    DefaultTexture {
        width: 2,
        height: 2,
        data: TextureData::Diffuse(DiffuseData { rgba: Cow::Owned(rgba) }),
    }
}

/// The fallback fullbright texture: one pixel, all white.
pub fn default_fullbright() -> (texture: DefaultTexture)
    ensures
        texture.width == 1,
        texture.height == 1,
        texture.data is Fullbright,
        texture.data.spec_data() == seq![0xFFu8],
        spec_texture_fault(texture.width, texture.height, texture.data) is None,
{
    let fullbright: Vec<u8> = vec![0xFFu8];
    assert(fullbright@ =~= seq![0xFFu8]);
    DefaultTexture {
        width: 1,
        height: 1,
        data: TextureData::Fullbright(FullbrightData { fullbright: Cow::Owned(fullbright) }),
    }
}

/// The fallback lightmap: one pixel, all white.
pub fn default_lightmap() -> (texture: DefaultTexture)
    ensures
        texture.width == 1,
        texture.height == 1,
        texture.data is Lightmap,
        texture.data.spec_data() == seq![0xFFu8],
        spec_texture_fault(texture.width, texture.height, texture.data) is None,
{
    let lightmap: Vec<u8> = vec![0xFFu8];
    assert(lightmap@ =~= seq![0xFFu8]);
    DefaultTexture {
        width: 1,
        height: 1,
        data: TextureData::Lightmap(LightmapData { lightmap: Cow::Owned(lightmap) }),
    }
}

/// How a sampler treats coordinates beyond the edge of a texture.
#[derive(Clone, Copy, Debug, PartialEq, Eq, Structural)]
pub enum AddressMode {
    ClampToEdge,
    Repeat,
    MirrorRepeat,
}

#[derive(Clone, Copy, Debug, PartialEq, Eq, Structural)]
pub enum FilterMode {
    Nearest,
    Linear,
}

/// The description of a sampler. The level-of-detail clamps are whole
/// numbers here.
#[derive(Clone, Copy, Debug, PartialEq, Eq, Structural)]
pub struct SamplerDescriptor {
    pub address_mode_u: AddressMode,
    pub address_mode_v: AddressMode,
    pub address_mode_w: AddressMode,
    pub mag_filter: FilterMode,
    pub min_filter: FilterMode,
    pub mipmap_filter: FilterMode,
    pub lod_min_clamp: i32,
    pub lod_max_clamp: i32,
}

pub open spec fn spec_diffuse_sampler() -> SamplerDescriptor {
    SamplerDescriptor {
        address_mode_u: AddressMode::Repeat,
        address_mode_v: AddressMode::Repeat,
        address_mode_w: AddressMode::Repeat,
        mag_filter: FilterMode::Nearest,
        min_filter: FilterMode::Linear,
        mipmap_filter: FilterMode::Nearest,
        lod_min_clamp: -1000i32,
        lod_max_clamp: 1000i32,
    }
}

pub open spec fn spec_lightmap_sampler() -> SamplerDescriptor {
    SamplerDescriptor {
        address_mode_u: AddressMode::ClampToEdge,
        address_mode_v: AddressMode::ClampToEdge,
        address_mode_w: AddressMode::ClampToEdge,
        mag_filter: FilterMode::Linear,
        min_filter: FilterMode::Linear,
        mipmap_filter: FilterMode::Nearest,
        lod_min_clamp: -1000i32,
        lod_max_clamp: 1000i32,
    }
}

/// The sampler for diffuse and fullbright textures: it wraps around.
pub fn diffuse_sampler_descriptor() -> (descriptor: SamplerDescriptor)
    ensures
        descriptor == spec_diffuse_sampler(),
{
    SamplerDescriptor {
        address_mode_u: AddressMode::Repeat,
        address_mode_v: AddressMode::Repeat,
        address_mode_w: AddressMode::Repeat,
        mag_filter: FilterMode::Nearest,
        min_filter: FilterMode::Linear,
        mipmap_filter: FilterMode::Nearest,
        lod_min_clamp: -1000i32,
        lod_max_clamp: 1000i32,
    }
}

/// The sampler for lightmaps: it clamps to the edge.
pub fn lightmap_sampler_descriptor() -> (descriptor: SamplerDescriptor)
    ensures
        descriptor == spec_lightmap_sampler(),
{
    SamplerDescriptor {
        address_mode_u: AddressMode::ClampToEdge,
        address_mode_v: AddressMode::ClampToEdge,
        address_mode_w: AddressMode::ClampToEdge,
        mag_filter: FilterMode::Linear,
        min_filter: FilterMode::Linear,
        mipmap_filter: FilterMode::Nearest,
        lod_min_clamp: -1000i32,
        lod_max_clamp: 1000i32,
    }
}

} // verus!
