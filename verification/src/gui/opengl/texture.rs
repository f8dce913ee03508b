//! Texture formats, pixel data types and filters.
use vstd::prelude::*;

verus! {

/// `glow::UNSIGNED_BYTE`, which the `glow` source defines as `0x1401`.
#[verifier::external_body]
fn gl_unsigned_byte() -> (v: u32)
    ensures v == 0x1401,
{
    glow::UNSIGNED_BYTE
}

/// `glow::FLOAT`, which the `glow` source defines as `0x1406`.
#[verifier::external_body]
fn gl_float() -> (v: u32)
    ensures v == 0x1406,
{
    glow::FLOAT
}

/// `glow::RGBA`, which the `glow` source defines as `0x1908`.
#[verifier::external_body]
fn gl_rgba() -> (v: u32)
    ensures v == 0x1908,
{
    glow::RGBA
}

/// `glow::RGB`, which the `glow` source defines as `0x1907`.
#[verifier::external_body]
fn gl_rgb() -> (v: u32)
    ensures v == 0x1907,
{
    glow::RGB
}

/// `glow::RGBA32F`, which the `glow` source defines as `0x8814`.
#[verifier::external_body]
fn gl_rgba32f() -> (v: u32)
    ensures v == 0x8814,
{
    glow::RGBA32F
}

/// `glow::R32F`, which the `glow` source defines as `0x822E`.
#[verifier::external_body]
fn gl_r32f() -> (v: u32)
    ensures v == 0x822E,
{
    glow::R32F
}

/// `glow::DEPTH24_STENCIL8`, which the `glow` source defines as `0x88F0`.
#[verifier::external_body]
fn gl_depth24_stencil8() -> (v: u32)
    ensures v == 0x88F0,
{
    glow::DEPTH24_STENCIL8
}

/// `glow::RED`, which the `glow` source defines as `0x1903`.
#[verifier::external_body]
fn gl_red() -> (v: u32)
    ensures v == 0x1903,
{
    glow::RED
}

/// `glow::DEPTH_STENCIL`, which the `glow` source defines as `0x84F9`.
#[verifier::external_body]
fn gl_depth_stencil() -> (v: u32)
    ensures v == 0x84F9,
{
    glow::DEPTH_STENCIL
}

/// `glow::NEAREST`, which the `glow` source defines as `0x2600`.
#[verifier::external_body]
fn gl_nearest() -> (v: u32)
    ensures v == 0x2600,
{
    glow::NEAREST
}

/// `glow::LINEAR`, which the `glow` source defines as `0x2601`.
#[verifier::external_body]
fn gl_linear() -> (v: u32)
    ensures v == 0x2601,
{
    glow::LINEAR
}

/// `glow::NEAREST_MIPMAP_NEAREST`, which the `glow` source defines as `0x2700`.
#[verifier::external_body]
fn gl_nearest_mipmap_nearest() -> (v: u32)
    ensures v == 0x2700,
{
    glow::NEAREST_MIPMAP_NEAREST
}

/// `glow::LINEAR_MIPMAP_NEAREST`, which the `glow` source defines as `0x2701`.
#[verifier::external_body]
fn gl_linear_mipmap_nearest() -> (v: u32)
    ensures v == 0x2701,
{
    glow::LINEAR_MIPMAP_NEAREST
}

/// `glow::NEAREST_MIPMAP_LINEAR`, which the `glow` source defines as `0x2702`.
#[verifier::external_body]
fn gl_nearest_mipmap_linear() -> (v: u32)
    ensures v == 0x2702,
{
    glow::NEAREST_MIPMAP_LINEAR
}

/// `glow::LINEAR_MIPMAP_LINEAR`, which the `glow` source defines as `0x2703`.
#[verifier::external_body]
fn gl_linear_mipmap_linear() -> (v: u32)
    ensures v == 0x2703,
{
    glow::LINEAR_MIPMAP_LINEAR
}

/// The data type of each channel of uploaded pixels.
#[derive(Debug, Clone, Copy, PartialEq, Eq, Structural, Hash)]
pub enum TextureDataType {
    /// 8-bit unsigned.
    UnsignedByte,
    /// 32-bit float.
    Float32,
}

impl TextureDataType {
    /// The OpenGL constant of the type.
    pub open spec fn spec_glow_type(self) -> u32 {
        match self {
            TextureDataType::UnsignedByte => 0x1401,
            TextureDataType::Float32 => 0x1406,
        }
    }

    /// The `glow` constant of the type.
    pub fn glow_type(self) -> (v: u32)
        ensures v == self.spec_glow_type(),
    {
        match self {
            TextureDataType::UnsignedByte => gl_unsigned_byte(),
            TextureDataType::Float32 => gl_float(),
        }
    }
}

/// How texels are stored.
#[derive(Debug, Clone, Copy, PartialEq, Eq, Structural, Hash)]
pub enum TextureFormat {
    /// 8-bit RGBA.
    Rgba8,
    /// 8-bit RGB.
    Rgb8,
    /// 32-bit float RGBA.
    Rgba32F,
    /// One 32-bit float channel.
    R32F,
    /// Depth and stencil.
    Depth24Stencil8,
}

impl TextureFormat {
    /// The OpenGL internal-format constant.
    pub open spec fn spec_glow_internal(self) -> i32 {
        match self {
            TextureFormat::Rgba8 => 0x1908,
            TextureFormat::Rgb8 => 0x1907,
            TextureFormat::Rgba32F => 0x8814,
            TextureFormat::R32F => 0x822E,
            TextureFormat::Depth24Stencil8 => 0x88F0,
        }
    }

    /// The OpenGL pixel-format constant (the channel layout).
    pub open spec fn spec_glow_format(self) -> u32 {
        match self {
            TextureFormat::Rgba8 | TextureFormat::Rgba32F => 0x1908,
            TextureFormat::Rgb8 => 0x1907,
            TextureFormat::R32F => 0x1903,
            TextureFormat::Depth24Stencil8 => 0x84F9,
        }
    }

    /// The default data type of the format.
    pub open spec fn spec_default_data_type(self) -> TextureDataType {
        match self {
            TextureFormat::Rgba8 | TextureFormat::Rgb8 | TextureFormat::Depth24Stencil8 => TextureDataType::UnsignedByte,
            TextureFormat::Rgba32F | TextureFormat::R32F => TextureDataType::Float32,
        }
    }

    /// The bytes of one pixel.
    pub open spec fn spec_bytes_per_pixel(self) -> usize {
        match self {
            TextureFormat::Rgba8 => 4,
            TextureFormat::Rgb8 => 3,
            TextureFormat::Rgba32F => 16,
            TextureFormat::R32F => 4,
            TextureFormat::Depth24Stencil8 => 4,
        }
    }

    /// The `glow` internal-format constant.
    pub fn glow_internal(self) -> (v: i32)
        ensures v == self.spec_glow_internal(),
    {
        let c = match self {
            TextureFormat::Rgba8 => gl_rgba(),
            TextureFormat::Rgb8 => gl_rgb(),
            TextureFormat::Rgba32F => gl_rgba32f(),
            TextureFormat::R32F => gl_r32f(),
            TextureFormat::Depth24Stencil8 => gl_depth24_stencil8(),
        };
        c as i32
    }

    /// The `glow` pixel-format constant.
    pub fn glow_format(self) -> (v: u32)
        ensures v == self.spec_glow_format(),
    {
        match self {
            TextureFormat::Rgba8 | TextureFormat::Rgba32F => gl_rgba(),
            TextureFormat::Rgb8 => gl_rgb(),
            TextureFormat::R32F => gl_red(),
            TextureFormat::Depth24Stencil8 => gl_depth_stencil(),
        }
    }

    /// The default data type: bytes for the 8-bit and depth formats, floats
    /// for the float formats.
    pub fn default_data_type(self) -> (t: TextureDataType)
        ensures t == self.spec_default_data_type(),
    {
        match self {
            TextureFormat::Rgba8 | TextureFormat::Rgb8 | TextureFormat::Depth24Stencil8 => TextureDataType::UnsignedByte,
            TextureFormat::Rgba32F | TextureFormat::R32F => TextureDataType::Float32,
        }
    }

    /// The bytes of one pixel, for row strides.
    pub fn bytes_per_pixel(self) -> (n: usize)
        ensures n == self.spec_bytes_per_pixel(),
    {
        match self {
            TextureFormat::Rgba8 => 4,
            TextureFormat::Rgb8 => 3,
            TextureFormat::Rgba32F => 16,
            TextureFormat::R32F => 4,
            TextureFormat::Depth24Stencil8 => 4,
        }
    }
}

/// How a texture is sampled when minified or magnified.
#[derive(Debug, Clone, Copy, PartialEq, Eq, Structural, Hash)]
pub enum TextureMinFilter {
    /// The nearest texel.
    Nearest,
    /// Bilinear.
    Linear,
    /// Nearest texel of the nearest mipmap.
    NearestMipmapNearest,
    /// Bilinear in the nearest mipmap.
    LinearMipmapNearest,
    /// Nearest texel, blended between mipmaps.
    NearestMipmapLinear,
    /// Bilinear, blended between mipmaps.
    LinearMipmapLinear,
}

impl TextureMinFilter {
    /// The OpenGL constant of the filter.
    pub open spec fn spec_glow_filter(self) -> i32 {
        match self {
            TextureMinFilter::Nearest => 0x2600,
            TextureMinFilter::Linear => 0x2601,
            TextureMinFilter::NearestMipmapNearest => 0x2700,
            TextureMinFilter::LinearMipmapNearest => 0x2701,
            TextureMinFilter::NearestMipmapLinear => 0x2702,
            TextureMinFilter::LinearMipmapLinear => 0x2703,
        }
    }

    /// The `glow` constant of the filter.
    pub fn glow_filter(self) -> (v: i32)
        ensures v == self.spec_glow_filter(),
    {
        let c = match self {
            TextureMinFilter::Nearest => gl_nearest(),
            TextureMinFilter::Linear => gl_linear(),
            TextureMinFilter::NearestMipmapNearest => gl_nearest_mipmap_nearest(),
            TextureMinFilter::LinearMipmapNearest => gl_linear_mipmap_nearest(),
            TextureMinFilter::NearestMipmapLinear => gl_nearest_mipmap_linear(),
            TextureMinFilter::LinearMipmapLinear => gl_linear_mipmap_linear(),
        };
        c as i32
    }
}

} // verus!
