//! The colormap texture: its 8-bit sRGB RGBA image, the layout of its upload,
//! and the sampler that reads it.

use crate::color::Rgba8;
use vstd::prelude::*;

verus! {

/// Bytes per pixel of an RGBA texture with 8 bits per channel.
pub const BYTES_PER_PIXEL: u64 = 4;

/// Pixel formats of a texture.
#[derive(Clone, Copy, Debug, PartialEq, Eq, Structural)]
pub enum TextureFormat {
    /// Four 8-bit channels, red, green, blue, alpha, in the sRGB color space.
    Rgba8UnormSrgb,
}

/// How texture coordinates outside `[0, 1]` are handled.
#[derive(Clone, Copy, Debug, PartialEq, Eq, Structural)]
pub enum AddressMode {
    ClampToEdge,
    Repeat,
    MirrorRepeat,
}

/// How texels are combined when a texture is sampled.
#[derive(Clone, Copy, Debug, PartialEq, Eq, Structural)]
pub enum FilterMode {
    Nearest,
    Linear,
}

/// The settings of a texture sampler.
#[derive(Clone, Copy, Debug, PartialEq, Eq, Structural)]
pub struct SamplerConfig {
    pub address_mode_u: AddressMode,
    pub address_mode_v: AddressMode,
    pub address_mode_w: AddressMode,
    pub mag_filter: FilterMode,
    pub min_filter: FilterMode,
    pub mipmap_filter: FilterMode,
}

/// The sampler of a colormap: bilinear filtering, clamped to the edge on
/// every axis.
pub open spec fn colormap_sampler_spec() -> SamplerConfig {
    SamplerConfig {
        address_mode_u: AddressMode::ClampToEdge,
        address_mode_v: AddressMode::ClampToEdge,
        address_mode_w: AddressMode::ClampToEdge,
        mag_filter: FilterMode::Linear,
        min_filter: FilterMode::Linear,
        mipmap_filter: FilterMode::Linear,
    }
}

/// The sampler of a colormap texture.
pub fn colormap_sampler() -> (s: SamplerConfig)
    ensures
        s == colormap_sampler_spec(),
{
    SamplerConfig {
        address_mode_u: AddressMode::ClampToEdge,
        address_mode_v: AddressMode::ClampToEdge,
        address_mode_w: AddressMode::ClampToEdge,
        mag_filter: FilterMode::Linear,
        min_filter: FilterMode::Linear,
        mipmap_filter: FilterMode::Linear,
    }
}

/// The four bytes of a color, red first.
pub open spec fn color_bytes(c: Rgba8) -> Seq<u8> {
    seq![c.r, c.g, c.b, c.a]
}

/// The bytes of an image whose pixels are `colors`, four per pixel, in order.
pub open spec fn texel_bytes_spec(colors: Seq<Rgba8>) -> Seq<u8>
    decreases colors.len(),
{
    if colors.len() == 0 {
        Seq::empty()
    } else {
        texel_bytes_spec(colors.drop_last()) + color_bytes(colors.last())
    }
}

/// Byte `4 * i + k` of an image is channel `k` of pixel `i`.
pub proof fn lemma_texel_byte(colors: Seq<Rgba8>, i: int, k: int)
    requires
        0 <= i < colors.len(),
        0 <= k < 4,
    ensures
        texel_bytes_spec(colors).len() == 4 * colors.len(),
        texel_bytes_spec(colors)[4 * i + k] == color_bytes(colors[i])[k],
    decreases colors.len(),
{
    let t = colors.drop_last();
    let c = colors.last();
    assert(color_bytes(c).len() == 4);
    lemma_texel_len(t);
    assert(texel_bytes_spec(colors) == texel_bytes_spec(t) + color_bytes(c));
    if i < colors.len() - 1 {
        lemma_texel_byte(t, i, k);
        assert(t[i] == colors[i]);
    } else {
        assert(colors[i] == c);
    }
}

/// An image has four bytes per pixel.
pub proof fn lemma_texel_len(colors: Seq<Rgba8>)
    ensures
        texel_bytes_spec(colors).len() == 4 * colors.len(),
    decreases colors.len(),
{
    if colors.len() > 0 {
        lemma_texel_len(colors.drop_last());
        assert(color_bytes(colors.last()).len() == 4);
    }
}

/// The bytes of an image whose pixels are `colors`, four per pixel, in order.
pub fn texel_bytes(colors: &[Rgba8]) -> (bytes: Vec<u8>)
    requires
        colors@.len() * 4 <= usize::MAX,
    ensures
        bytes@ == texel_bytes_spec(colors@),
{
    let mut bytes: Vec<u8> = Vec::with_capacity(colors.len() * 4);
    let mut i: usize = 0;
    assert(colors@.take(0) =~= Seq::<Rgba8>::empty());
    while i < colors.len()
        invariant
            i <= colors@.len(),
            bytes@ == texel_bytes_spec(colors@.take(i as int)),
        decreases colors@.len() - i,
    {
        let c = colors[i];
        bytes.push(c.r);
        bytes.push(c.g);
        bytes.push(c.b);
        bytes.push(c.a);
        assert(colors@.take(i + 1).drop_last() =~= colors@.take(i as int));
        assert(bytes@ =~= texel_bytes_spec(colors@.take(i + 1)));
        i = i + 1;
    }
    assert(colors@.take(i as int) =~= colors@);
    bytes
}

/// A 2D colormap texture ready for upload: its extent, format, the layout of
/// the bytes handed over in one transfer, and the bytes themselves.
pub struct ColormapTexture {
    pub width: u32,
    pub height: u32,
    pub format: TextureFormat,
    /// Shaders may sample the texture.
    pub sampled: bool,
    /// The texture may be written by a copy, as its upload is.
    pub copy_destination: bool,
    /// Bytes from one row of pixels to the next in `texels`.
    pub bytes_per_row: u64,
    /// Rows of pixels in `texels`.
    pub rows_per_image: u32,
    /// The pixels, row-major, four bytes each.
    pub texels: Vec<u8>,
}

impl ColormapTexture {
    /// The texture's extent and upload layout agree with its bytes.
    pub open spec fn wf(&self) -> bool {
        &&& self.bytes_per_row == BYTES_PER_PIXEL * self.width
        &&& self.rows_per_image == self.height
        &&& self.texels@.len() == self.bytes_per_row * self.height
    }

    /// A `width` by `height` texture whose pixels, row-major, are `colors`.
    pub fn from_colors(colors: &[Rgba8], width: u32, height: u32) -> (t: ColormapTexture)
        requires
            colors@.len() == width * height,
            colors@.len() * 4 <= usize::MAX,
        ensures
            t.wf(),
            t.width == width,
            t.height == height,
            t.format == TextureFormat::Rgba8UnormSrgb,
            t.sampled,
            t.copy_destination,
            t.texels@ == texel_bytes_spec(colors@),
    {
        let texels = texel_bytes(colors);
        proof {
            lemma_texel_len(colors@);
            assert(4 * (width * height) == (4 * width) * height) by (nonlinear_arith);
        }
        ColormapTexture {
            width,
            height,
            format: TextureFormat::Rgba8UnormSrgb,
            sampled: true,
            copy_destination: true,
            bytes_per_row: BYTES_PER_PIXEL * width as u64,
            rows_per_image: height,
            texels,
        }
    }
}

} // verus!
