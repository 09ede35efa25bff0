//! Colour arithmetic on 8-bit channels.

use vstd::prelude::*;

verus! {

/// The fixed-point product of a colour channel and an alpha value, both on
/// the scale 0..=255.
pub open spec fn premul_spec(x: u8, a: u8) -> int {
    let y = (x as int) * (a as int);
    (y + y / 256 + 128) / 256
}

/// Scales the channel `x` by the alpha `a`.
pub fn premul(x: u8, a: u8) -> (r: u8)
    ensures
        r as int == premul_spec(x, a),
{
    let xw: u32 = x as u32;
    let aw: u32 = a as u32;
    assert(xw * aw <= 65025) by (nonlinear_arith)
        requires
            xw <= 255,
            aw <= 255,
    ;
    let y: u32 = xw * aw;
    assert(y >> 8 == y / 256) by (bit_vector);
    let s: u32 = y + (y >> 8) + 0x80;
    assert(s >> 8 == s / 256) by (bit_vector);
    let t: u32 = s >> 8;
    t as u8
}

/// A premultiplied channel, with the product spelled out over 32-bit words.
proof fn lemma_premul_as_words(x: u8, a: u8) -> (r: u32)
    ensures
        r as int == premul_spec(x, a),
        r == ((x as u32) * (a as u32) + ((x as u32) * (a as u32)) / 256 + 128) / 256,
        r <= 255,
{
    let xw: u32 = x as u32;
    let aw: u32 = a as u32;
    assert(xw * aw <= 65025) by (nonlinear_arith)
        requires
            xw <= 255,
            aw <= 255,
    ;
    let r: u32 = ((xw * aw + (xw * aw) / 256 + 128) / 256) as u32;
    r
}

/// A channel of zero stays zero under every alpha.
pub proof fn lemma_premul_of_zero_channel(a: u8)
    ensures
        premul_spec(0, a) == 0,
{
}

/// Under an alpha of zero every channel becomes zero.
pub proof fn lemma_premul_by_zero_alpha(x: u8)
    ensures
        premul_spec(x, 0) == 0,
{
}

/// Under full alpha a channel keeps its value, and a full channel takes the
/// value of the alpha.
pub proof fn lemma_premul_by_full(v: u8)
    ensures
        premul_spec(v, 255) == v,
        premul_spec(255, v) == v,
{
}

/// A premultiplied channel exceeds neither the channel nor the alpha.
pub proof fn lemma_premul_is_bounded(x: u8, a: u8)
    ensures
        0 <= premul_spec(x, a) <= x,
        premul_spec(x, a) <= a,
{
    let r = lemma_premul_as_words(x, a);
    let xw: u32 = x as u32;
    let aw: u32 = a as u32;
    assert(r <= xw && r <= aw) by (bit_vector)
        requires
            xw <= 255,
            aw <= 255,
            r == (xw * aw + (xw * aw) / 256 + 128) / 256,
    ;
}

/// A premultiplied channel is the product of channel and alpha divided by
/// 255, to within half a step and one part in 255 of a step.
pub proof fn lemma_premul_is_near_exact(x: u8, a: u8)
    ensures
        255 * premul_spec(x, a) <= x * a + 128,
        x * a <= 255 * premul_spec(x, a) + 128,
{
    let r = lemma_premul_as_words(x, a);
    let xw: u32 = x as u32;
    let aw: u32 = a as u32;
    assert(255 * r <= xw * aw + 128 && xw * aw <= 255 * r + 128) by (bit_vector)
        requires
            xw <= 255,
            aw <= 255,
            r == (xw * aw + (xw * aw) / 256 + 128) / 256,
    ;
}

/// The four channels of a colour, eight bits each.
#[derive(Clone, Copy, Debug, PartialEq, Eq, Structural)]
pub struct Rgba8 {
    pub r: u8,
    pub g: u8,
    pub b: u8,
    pub a: u8,
}

/// The 32-bit word that packs the four channels, red in the highest byte
/// and alpha in the lowest.
pub open spec fn packed(c: Rgba8) -> int {
    c.r * 0x100_0000 + c.g * 0x1_0000 + c.b * 0x100 + c.a
}

/// The four channels of a packed colour.
pub open spec fn unpacked(rgba: u32) -> Rgba8 {
    Rgba8 {
        r: (rgba / 0x100_0000) as u8,
        g: ((rgba / 0x1_0000) % 0x100) as u8,
        b: ((rgba / 0x100) % 0x100) as u8,
        a: (rgba % 0x100) as u8,
    }
}

/// Takes a packed colour apart into its four channels.
pub fn unpack_rgba(rgba: u32) -> (c: Rgba8)
    ensures
        c == unpacked(rgba),
        packed(c) == rgba,
{
    let r: u32 = (rgba >> 24) & 255;
    let g: u32 = (rgba >> 16) & 255;
    let b: u32 = (rgba >> 8) & 255;
    let a: u32 = rgba & 255;
    assert(r == rgba / 0x100_0000 && g == (rgba / 0x1_0000) % 0x100 && b == (rgba / 0x100) % 0x100
        && a == rgba % 0x100) by (bit_vector)
        requires
            r == (rgba >> 24) & 255,
            g == (rgba >> 16) & 255,
            b == (rgba >> 8) & 255,
            a == rgba & 255,
    ;
    Rgba8 { r: r as u8, g: g as u8, b: b as u8, a: a as u8 }
}

/// Packing the channels of a word gives the word back.
pub proof fn lemma_unpacked_packs_back(rgba: u32)
    ensures
        packed(unpacked(rgba)) == rgba,
{
}

/// Two colours that pack to the same word are the same colour, so the word
/// fixes each channel.
pub proof fn lemma_packed_is_injective(c: Rgba8, d: Rgba8)
    requires
        packed(c) == packed(d),
    ensures
        c == d,
{
}

} // verus!
