//! Texture descriptors for the engine's software-rasteriser output path.
//!
//! The renderer talks to a fixed-function rasteriser whose API encodes
//! texture shapes as small integer codes: a level-of-detail code naming
//! the largest square side, an aspect-ratio code, and a pixel-format
//! code. The arithmetic here — mapping pixel dimensions to those codes —
//! is verified; the calls that hand the descriptors to the rasteriser
//! itself live outside this crate.

use vstd::prelude::*;

verus! {

/// Level of detail: the side of the (square) mip level, from 256 down
/// to 1. The rasteriser's code for a level is its index in this order.
#[derive(Clone, Copy, PartialEq, Eq, Structural, Debug)]
pub enum Lod {
    L256x256,
    L128x128,
    L64x64,
    L32x32,
    L16x16,
    L8x8,
    L4x4,
    L2x2,
    L1x1,
}

/// The rasteriser's integer code for a level of detail.
pub open spec fn lod_code(l: Lod) -> int {
    match l {
        Lod::L256x256 => 0,
        Lod::L128x128 => 1,
        Lod::L64x64 => 2,
        Lod::L32x32 => 3,
        Lod::L16x16 => 4,
        Lod::L8x8 => 5,
        Lod::L4x4 => 6,
        Lod::L2x2 => 7,
        Lod::L1x1 => 8,
    }
}

/// The pixel side length a level of detail stands for: 256 halved once
/// per code step.
pub open spec fn lod_side(l: Lod) -> int {
    match l {
        Lod::L256x256 => 256,
        Lod::L128x128 => 128,
        Lod::L64x64 => 64,
        Lod::L32x32 => 32,
        Lod::L16x16 => 16,
        Lod::L8x8 => 8,
        Lod::L4x4 => 4,
        Lod::L2x2 => 2,
        Lod::L1x1 => 1,
    }
}

impl Lod {
    /// The integer code the rasteriser's API gives this level.
    pub fn code(self) -> (r: u32)
        ensures
            r == lod_code(self),
    {
        match self {
            Lod::L256x256 => 0,
            Lod::L128x128 => 1,
            Lod::L64x64 => 2,
            Lod::L32x32 => 3,
            Lod::L16x16 => 4,
            Lod::L8x8 => 5,
            Lod::L4x4 => 6,
            Lod::L2x2 => 7,
            Lod::L1x1 => 8,
        }
    }

    /// The side length of this level in pixels.
    pub fn side(self) -> (r: u32)
        ensures
            r == lod_side(self),
    {
        match self {
            Lod::L256x256 => 256,
            Lod::L128x128 => 128,
            Lod::L64x64 => 64,
            Lod::L32x32 => 32,
            Lod::L16x16 => 16,
            Lod::L8x8 => 8,
            Lod::L4x4 => 4,
            Lod::L2x2 => 2,
            Lod::L1x1 => 1,
        }
    }
}

/// Width-to-height aspect of a texture, from 8:1 down to 1:8.
#[derive(Clone, Copy, PartialEq, Eq, Structural, Debug)]
pub enum AspectRatio {
    A8x1,
    A4x1,
    A2x1,
    A1x1,
    A1x2,
    A1x4,
    A1x8,
}

/// The rasteriser's integer code for an aspect ratio.
pub open spec fn aspect_code(a: AspectRatio) -> int {
    match a {
        AspectRatio::A8x1 => 0,
        AspectRatio::A4x1 => 1,
        AspectRatio::A2x1 => 2,
        AspectRatio::A1x1 => 3,
        AspectRatio::A1x2 => 4,
        AspectRatio::A1x4 => 5,
        AspectRatio::A1x8 => 6,
    }
}

impl AspectRatio {
    /// The integer code the rasteriser's API gives this aspect.
    pub fn code(self) -> (r: u32)
        ensures
            r == aspect_code(self),
    {
        match self {
            AspectRatio::A8x1 => 0,
            AspectRatio::A4x1 => 1,
            AspectRatio::A2x1 => 2,
            AspectRatio::A1x1 => 3,
            AspectRatio::A1x2 => 4,
            AspectRatio::A1x4 => 5,
            AspectRatio::A1x8 => 6,
        }
    }
}

/// Pixel formats the rasteriser accepts. The codes are not contiguous:
/// the palette formats end at 5 and the alpha-carrying formats start
/// at 8.
#[derive(Clone, Copy, PartialEq, Eq, Structural, Debug)]
pub enum TextureFormat {
    Rgb332,
    Yiq422,
    Alpha8,
    Intensity8,
    AlphaIntensity44,
    P8,
    Argb8332,
    Ayiq8422,
    Rgb565,
    Argb1555,
    Argb4444,
    AlphaIntensity88,
    Ap88,
}

/// The rasteriser's integer code for a pixel format.
pub open spec fn format_code(f: TextureFormat) -> int {
    match f {
        TextureFormat::Rgb332 => 0,
        TextureFormat::Yiq422 => 1,
        TextureFormat::Alpha8 => 2,
        TextureFormat::Intensity8 => 3,
        TextureFormat::AlphaIntensity44 => 4,
        TextureFormat::P8 => 5,
        TextureFormat::Argb8332 => 8,
        TextureFormat::Ayiq8422 => 9,
        TextureFormat::Rgb565 => 10,
        TextureFormat::Argb1555 => 11,
        TextureFormat::Argb4444 => 12,
        TextureFormat::AlphaIntensity88 => 13,
        TextureFormat::Ap88 => 14,
    }
}

/// Bytes one pixel occupies in this format: one for the 8-bit formats
/// (codes up to 5), two for the wide formats.
pub open spec fn format_bytes_per_pixel(f: TextureFormat) -> int {
    if format_code(f) <= 5 {
        1
    } else {
        2
    }
}

impl TextureFormat {
    /// The integer code the rasteriser's API gives this format.
    pub fn code(self) -> (r: u32)
        ensures
            r == format_code(self),
    {
        match self {
            TextureFormat::Rgb332 => 0,
            TextureFormat::Yiq422 => 1,
            TextureFormat::Alpha8 => 2,
            TextureFormat::Intensity8 => 3,
            TextureFormat::AlphaIntensity44 => 4,
            TextureFormat::P8 => 5,
            TextureFormat::Argb8332 => 8,
            TextureFormat::Ayiq8422 => 9,
            TextureFormat::Rgb565 => 10,
            TextureFormat::Argb1555 => 11,
            TextureFormat::Argb4444 => 12,
            TextureFormat::AlphaIntensity88 => 13,
            TextureFormat::Ap88 => 14,
        }
    }

    /// Bytes one pixel occupies in this format.
    pub fn bytes_per_pixel(self) -> (r: u32)
        ensures
            r == format_bytes_per_pixel(self),
    {
        if self.code() <= 5 {
            1
        } else {
            2
        }
    }
}

/// Whether a width and height are a texture shape the engine produces:
/// square, a power of two, at most 256 on a side. Non-square and larger
/// shapes exist in the rasteriser's API but not in this engine's assets,
/// so the mapping below is only stated for these.
pub open spec fn square_pot_dims(dimensions: (u32, u32)) -> bool {
    dimensions.0 == dimensions.1 && (dimensions.0 == 256 || dimensions.0 == 128 || dimensions.0
        == 64 || dimensions.0 == 32 || dimensions.0 == 16 || dimensions.0 == 8 || dimensions.0
        == 4 || dimensions.0 == 2 || dimensions.0 == 1)
}

/// The level of detail and aspect a square power-of-two texture uses.
pub open spec fn lod_aspect_spec(dimensions: (u32, u32)) -> (Lod, AspectRatio) {
    let l = if dimensions.0 == 256 {
        Lod::L256x256
    } else if dimensions.0 == 128 {
        Lod::L128x128
    } else if dimensions.0 == 64 {
        Lod::L64x64
    } else if dimensions.0 == 32 {
        Lod::L32x32
    } else if dimensions.0 == 16 {
        Lod::L16x16
    } else if dimensions.0 == 8 {
        Lod::L8x8
    } else if dimensions.0 == 4 {
        Lod::L4x4
    } else if dimensions.0 == 2 {
        Lod::L2x2
    } else {
        Lod::L1x1
    };
    (l, AspectRatio::A1x1)
}

/// The level-of-detail and aspect codes for a square power-of-two
/// texture: the level whose side is exactly the given side, and the 1:1
/// aspect.
pub fn lod_aspect_from_dimensions(dimensions: (u32, u32)) -> (r: (Lod, AspectRatio))
    requires
        square_pot_dims(dimensions),
    ensures
        r == lod_aspect_spec(dimensions),
        lod_side(r.0) == dimensions.0,
        r.1 == AspectRatio::A1x1,
{
    let side: u32 = dimensions.0;
    let l: Lod = if side == 256 {
        Lod::L256x256
    } else if side == 128 {
        Lod::L128x128
    } else if side == 64 {
        Lod::L64x64
    } else if side == 32 {
        Lod::L32x32
    } else if side == 16 {
        Lod::L16x16
    } else if side == 8 {
        Lod::L8x8
    } else if side == 4 {
        Lod::L4x4
    } else if side == 2 {
        Lod::L2x2
    } else {
        Lod::L1x1
    };
    (l, AspectRatio::A1x1)
}

/// A texture descriptor: the mip range, aspect and format the rasteriser
/// is told, together with the texel bytes (empty until filled in).
#[derive(Clone, Debug)]
pub struct TexInfo {
    pub small_lod: Lod,
    pub large_lod: Lod,
    pub aspect: AspectRatio,
    pub format: TextureFormat,
    /// The texel bytes, owned here; empty for a descriptor created
    /// without data.
    pub data: Vec<u8>,
}

impl TexInfo {
    /// A descriptor for a square power-of-two texture with no texel data
    /// attached yet.
    pub fn new(width: u32, height: u32, format: TextureFormat) -> (r: TexInfo)
        requires
            square_pot_dims((width, height)),
        ensures
            r.small_lod == r.large_lod,
            lod_side(r.small_lod) == width,
            r.aspect == AspectRatio::A1x1,
            r.format == format,
            r.data@.len() == 0,
    {
        let la: (Lod, AspectRatio) = lod_aspect_from_dimensions((width, height));
        TexInfo {
            small_lod: la.0,
            large_lod: la.0,
            aspect: la.1,
            format,
            data: Vec::new(),
        }
    }

    /// A descriptor carrying its texel bytes.
    pub fn with_data(width: u32, height: u32, format: TextureFormat, data: &[u8]) -> (r: TexInfo)
        requires
            square_pot_dims((width, height)),
        ensures
            r.small_lod == r.large_lod,
            lod_side(r.small_lod) == width,
            r.aspect == AspectRatio::A1x1,
            r.format == format,
            r.data@ == data@,
    {
        let la: (Lod, AspectRatio) = lod_aspect_from_dimensions((width, height));
        let mut owned: Vec<u8> = Vec::new();
        let mut i: usize = 0;
        while i < data.len()
            invariant
                i <= data@.len(),
                owned@ == data@.subrange(0, i as int),
            decreases data@.len() - i,
        {
            owned.push(data[i]);
            proof {
                assert(owned@ =~= data@.subrange(0, i + 1 as int));
            }
            i = i + 1;
        }
        proof {
            assert(owned@ =~= data@);
        }
        TexInfo {
            small_lod: la.0,
            large_lod: la.0,
            aspect: la.1,
            format,
            data: owned,
        }
    }

    /// Bytes this descriptor's largest level occupies: side squared times
    /// the format's pixel width.
    pub fn level_bytes(&self) -> (r: u32)
        ensures
            r == lod_side(self.large_lod) * lod_side(self.large_lod) * format_bytes_per_pixel(
                self.format,
            ),
    {
        let side: u32 = self.large_lod.side();
        side * side * self.format.bytes_per_pixel()
    }
}

/// Which halves of the mip chain a download addresses.
#[derive(Clone, Copy, PartialEq, Eq, Structural, Debug)]
pub enum EvenOdd {
    Even,
    Odd,
    Both,
}

/// Source and destination factors of the rasteriser's alpha blend.
#[derive(Clone, Copy, PartialEq, Eq, Structural, Debug)]
pub enum Blend {
    Zero,
    SrcAlpha,
    SrcColor,
    DstAlpha,
    One,
    OneMinusSrcAlpha,
    OneMinusSrcColor,
    OneMinusDstAlpha,
    AlphaSaturate,
}

/// Where the rasteriser draws its alpha values from.
#[derive(Clone, Copy, PartialEq, Eq, Structural, Debug)]
pub enum AlphaSource {
    CcAlpha,
    IteratedAlpha,
    TextureAlpha,
    TextureAlphaTimesIteratedAlpha,
}

/// The rasteriser's colour-combine functions.
#[derive(Clone, Copy, PartialEq, Eq, Structural, Debug)]
pub enum ColorCombineFnc {
    Zero,
    Ccrgb,
    Itrgb,
    ItrgbDelta0,
    DecalTexture,
    TextureTimesCcrgb,
    TextureTimesItrgb,
    TextureTimesItrgbDelta0,
    TextureTimesItrgbAddAlpha,
    TextureTimesAlpha,
    TextureTimesAlphaAddItrgb,
    TextureAddItrgb,
    TextureSubItrgb,
    CcrgbBlendItrgbOnTexalpha,
    DiffSpecA,
    DiffSpecB,
    One,
}

/// The rasteriser's texture-combine functions.
#[derive(Clone, Copy, PartialEq, Eq, Structural, Debug)]
pub enum TextureCombineFnc {
    Zero,
    Decal,
    Other,
    Add,
    Multiply,
    Subtract,
    Detail,
    DetailOther,
    TrilinearOdd,
    TrilinearEven,
    One,
}

} // verus!
