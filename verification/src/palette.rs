//! Colour values of the Material palette the interface is themed with.

use vstd::prelude::*;

verus! {

/// A Material Design 3 colour scheme: one RGB colour per role.
#[derive(Debug, Clone, Copy, PartialEq, Eq)]
pub struct M3Palette {
    pub primary: [u8; 3],
    pub on_primary: [u8; 3],
    pub primary_container: [u8; 3],
    pub on_primary_container: [u8; 3],
    pub secondary: [u8; 3],
    pub on_secondary: [u8; 3],
    pub secondary_container: [u8; 3],
    pub on_secondary_container: [u8; 3],
    pub tertiary: [u8; 3],
    pub on_tertiary: [u8; 3],
    pub tertiary_container: [u8; 3],
    pub on_tertiary_container: [u8; 3],
    pub error: [u8; 3],
    pub on_error: [u8; 3],
    pub error_container: [u8; 3],
    pub on_error_container: [u8; 3],
    pub surface: [u8; 3],
    pub on_surface: [u8; 3],
    pub surface_variant: [u8; 3],
    pub on_surface_variant: [u8; 3],
    pub outline: [u8; 3],
    pub outline_variant: [u8; 3],
    pub background: [u8; 3],
    pub on_background: [u8; 3],
}

/// The red, green and blue bytes of an `0xAARRGGBB` colour.
pub open spec fn argb_to_rgb_spec(argb: u32) -> Seq<u8> {
    seq![((argb / 0x10000) % 0x100) as u8, ((argb / 0x100) % 0x100) as u8, (argb % 0x100) as u8]
}

/// Drops the alpha channel of an `0xAARRGGBB` colour.
pub fn argb_to_rgb(argb: u32) -> (rgb: [u8; 3])
    ensures
        rgb@ == argb_to_rgb_spec(argb),
{
    let r = ((argb >> 16) & 0xFF) as u8;
    let g = ((argb >> 8) & 0xFF) as u8;
    let b = (argb & 0xFF) as u8;
    assert(((argb >> 16) & 0xFF) == (argb / 0x10000) % 0x100) by (bit_vector);
    assert(((argb >> 8) & 0xFF) == (argb / 0x100) % 0x100) by (bit_vector);
    assert((argb & 0xFF) == argb % 0x100) by (bit_vector);
    let rgb = [r, g, b];
    assert(rgb@ =~= argb_to_rgb_spec(argb));
    rgb
}

/// One step of the palette hash: multiply by 31 and add the byte, modulo
/// 2^64.
pub open spec fn mix_spec(h: u64, b: u8) -> u64 {
    vstd::wrapping::u64_specs::wrapping_add(vstd::wrapping::u64_specs::wrapping_mul(h, 31), b as u64)
}

/// Mixing in the three bytes of a colour.
pub open spec fn mix3_spec(h: u64, c: [u8; 3]) -> u64 {
    mix_spec(mix_spec(mix_spec(h, c[0]), c[1]), c[2])
}

/// The hash of the colours a change of theme is detected by: primary,
/// secondary, tertiary, surface, on-surface, surface variant, background
/// and outline, mixed in that order starting from zero.
pub open spec fn palette_hash_spec(p: M3Palette) -> u64 {
    mix3_spec(
        mix3_spec(
            mix3_spec(
                mix3_spec(
                    mix3_spec(
                        mix3_spec(mix3_spec(mix3_spec(0, p.primary), p.secondary), p.tertiary),
                        p.surface,
                    ),
                    p.on_surface,
                ),
                p.surface_variant,
            ),
            p.background,
        ),
        p.outline,
    )
}

fn mix3(h: u64, c: [u8; 3]) -> (r: u64)
    ensures
        r == mix3_spec(h, c),
{
    let h = h.wrapping_mul(31).wrapping_add(c[0] as u64);
    let h = h.wrapping_mul(31).wrapping_add(c[1] as u64);
    h.wrapping_mul(31).wrapping_add(c[2] as u64)
}

/// A cheap fingerprint of a palette, used to notice when the theme changed.
pub fn hash_palette(palette: &M3Palette) -> (h: u64)
    ensures
        h == palette_hash_spec(*palette),
{
    let mut h: u64 = 0;
    h = mix3(h, palette.primary);
    h = mix3(h, palette.secondary);
    h = mix3(h, palette.tertiary);
    h = mix3(h, palette.surface);
    h = mix3(h, palette.on_surface);
    h = mix3(h, palette.surface_variant);
    h = mix3(h, palette.background);
    h = mix3(h, palette.outline);
    h
}

} // verus!
