//! The texture-descriptor arithmetic.

use touhou_ecl::gr::{AspectRatio, Lod, TexInfo, TextureFormat};

#[test]
fn lod_codes_and_sides() {
    assert_eq!(Lod::L256x256.code(), 0);
    assert_eq!(Lod::L1x1.code(), 8);
    assert_eq!(Lod::L256x256.side(), 256);
    assert_eq!(Lod::L32x32.side(), 32);
    assert_eq!(AspectRatio::A1x1.code(), 3);
}

#[test]
fn format_codes_skip_the_gap() {
    assert_eq!(TextureFormat::P8.code(), 5);
    assert_eq!(TextureFormat::Argb8332.code(), 8);
    assert_eq!(TextureFormat::Argb4444.code(), 12);
    assert_eq!(TextureFormat::Rgb332.bytes_per_pixel(), 1);
    assert_eq!(TextureFormat::Rgb565.bytes_per_pixel(), 2);
}

#[test]
fn descriptor_from_dimensions() {
    let t = TexInfo::new(256, 256, TextureFormat::Argb4444);
    assert_eq!(t.small_lod, Lod::L256x256);
    assert_eq!(t.large_lod, Lod::L256x256);
    assert_eq!(t.aspect, AspectRatio::A1x1);
    assert_eq!(t.format, TextureFormat::Argb4444);
    assert!(t.data.is_empty());
    assert_eq!(t.level_bytes(), 256 * 256 * 2);

    let small = TexInfo::new(16, 16, TextureFormat::P8);
    assert_eq!(small.small_lod, Lod::L16x16);
    assert_eq!(small.level_bytes(), 16 * 16);
}

#[test]
fn descriptor_owns_its_data() {
    let texels: Vec<u8> = (0u8..=255).collect();
    let t = TexInfo::with_data(8, 8, TextureFormat::Rgb332, &texels);
    assert_eq!(t.small_lod, Lod::L8x8);
    assert_eq!(t.data, texels);
}
