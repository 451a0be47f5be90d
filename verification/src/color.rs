use vstd::prelude::*;

verus! {

/// An RGBA color with 8-bit channels, the form in which Gecko stores a color.
#[derive(Clone, Copy, Debug, PartialEq, Eq, Structural)]
pub struct Rgba {
    pub red: u8,
    pub green: u8,
    pub blue: u8,
    pub alpha: u8,
}

/// A computed color: either `currentColor` or an explicit RGBA value.
#[derive(Clone, Copy, Debug, PartialEq, Eq, Structural)]
pub enum Color {
    CurrentColor,
    Rgba(Rgba),
}

/// Gecko's `nscolor` packs a color as `0xAABBGGRR`.
pub open spec fn spec_nscolor(c: Rgba) -> u32 {
    (c.red as int + c.green as int * 0x100 + c.blue as int * 0x10000 + c.alpha as int * 0x1000000) as u32
}

/// The channels packed in an `nscolor`.
pub open spec fn spec_rgba_of(color: u32) -> Rgba {
    Rgba {
        red: (color % 0x100) as u8,
        green: ((color / 0x100) % 0x100) as u8,
        blue: ((color / 0x10000) % 0x100) as u8,
        alpha: (color / 0x1000000) as u8,
    }
}

proof fn lemma_pack(r: u8, g: u8, b: u8, a: u8)
    by (bit_vector)
    ensures
        ((a as u32) << 24u32) | ((b as u32) << 16u32) | ((g as u32) << 8u32) | (r as u32)
            == r as u32 + g as u32 * 0x100 + b as u32 * 0x10000 + a as u32 * 0x1000000,
        r as u32 + g as u32 * 0x100 + b as u32 * 0x10000 + a as u32 * 0x1000000 < 0x100000000,
{
}

proof fn lemma_unpack(c: u32)
    by (bit_vector)
    ensures
        c & 0xff == c % 0x100,
        (c >> 8u32) & 0xff == (c / 0x100) % 0x100,
        (c >> 16u32) & 0xff == (c / 0x10000) % 0x100,
        c >> 24u32 == c / 0x1000000,
        c / 0x1000000 < 0x100,
{
}

/// Packs a color into Gecko's `nscolor` representation.
pub fn convert_rgba_to_nscolor(rgba: &Rgba) -> (r: u32)
    ensures
        r == spec_nscolor(*rgba),
{
    proof {
        lemma_pack(rgba.red, rgba.green, rgba.blue, rgba.alpha);
    }
    ((rgba.alpha as u32) << 24u32) | ((rgba.blue as u32) << 16u32) | ((rgba.green as u32) << 8u32)
        | (rgba.red as u32)
}

/// Unpacks Gecko's `nscolor` representation.
pub fn convert_nscolor_to_rgba(color: u32) -> (r: Rgba)
    ensures
        r == spec_rgba_of(color),
{
    proof {
        lemma_unpack(color);
    }
    Rgba {
        red: (color & 0xff) as u8,
        green: ((color >> 8u32) & 0xff) as u8,
        blue: ((color >> 16u32) & 0xff) as u8,
        alpha: (color >> 24u32) as u8,
    }
}

/// Packing a color and unpacking it again gives the same color back.
pub proof fn lemma_rgba_nscolor_roundtrip(c: Rgba)
    ensures
        spec_rgba_of(spec_nscolor(c)) == c,
{
    let n = c.red as int + c.green as int * 0x100 + c.blue as int * 0x10000 + c.alpha as int * 0x1000000;
    assert(n < 0x100000000);
    assert(spec_nscolor(c) as int == n);
    assert(n % 0x100 == c.red) by (nonlinear_arith)
        requires n == c.red as int + c.green as int * 0x100 + c.blue as int * 0x10000 + c.alpha as int * 0x1000000, 0 <= c.red < 0x100;
    assert(n / 0x100 == c.green as int + c.blue as int * 0x100 + c.alpha as int * 0x10000) by (nonlinear_arith)
        requires n == c.red as int + c.green as int * 0x100 + c.blue as int * 0x10000 + c.alpha as int * 0x1000000, 0 <= c.red < 0x100;
    assert(n / 0x10000 == c.blue as int + c.alpha as int * 0x100) by (nonlinear_arith)
        requires n == c.red as int + c.green as int * 0x100 + c.blue as int * 0x10000 + c.alpha as int * 0x1000000, 0 <= c.red < 0x100, 0 <= c.green < 0x100;
    assert(n / 0x1000000 == c.alpha as int) by (nonlinear_arith)
        requires n == c.red as int + c.green as int * 0x100 + c.blue as int * 0x10000 + c.alpha as int * 0x1000000, 0 <= c.red < 0x100, 0 <= c.green < 0x100, 0 <= c.blue < 0x100;
    assert((c.green as int + c.blue as int * 0x100 + c.alpha as int * 0x10000) % 0x100 == c.green) by (nonlinear_arith)
        requires 0 <= c.green < 0x100;
    assert((c.blue as int + c.alpha as int * 0x100) % 0x100 == c.blue) by (nonlinear_arith)
        requires 0 <= c.blue < 0x100;
}

/// Unpacking an `nscolor` and packing it again gives the same value back.
pub proof fn lemma_nscolor_rgba_roundtrip(n: u32)
    ensures
        spec_nscolor(spec_rgba_of(n)) == n,
{
    let c = spec_rgba_of(n);
    assert(n as int == n % 0x100 + ((n / 0x100) % 0x100) * 0x100 + ((n / 0x10000) % 0x100) * 0x10000
        + (n / 0x1000000) * 0x1000000) by (nonlinear_arith)
        requires 0 <= n;
}

/// The byte layout of an `nscolor`: red in the lowest byte, then green, then
/// blue, and alpha in the highest byte.
pub proof fn lemma_nscolor_layout(c: Rgba, n: u32)
    ensures
        spec_nscolor(c) & 0xff == c.red as u32,
        (spec_nscolor(c) >> 8u32) & 0xff == c.green as u32,
        (spec_nscolor(c) >> 16u32) & 0xff == c.blue as u32,
        spec_nscolor(c) >> 24u32 == c.alpha as u32,
        spec_rgba_of(n).red as u32 == n & 0xff,
        spec_rgba_of(n).green as u32 == (n >> 8u32) & 0xff,
        spec_rgba_of(n).blue as u32 == (n >> 16u32) & 0xff,
        spec_rgba_of(n).alpha as u32 == n >> 24u32,
{
    let r = c.red;
    let g = c.green;
    let b = c.blue;
    let a = c.alpha;
    lemma_pack(r, g, b, a);
    let v: u32 = ((a as u32) << 24u32) | ((b as u32) << 16u32) | ((g as u32) << 8u32) | (r as u32);
    assert(spec_nscolor(c) == v);
    assert(v & 0xff == r as u32 && (v >> 8u32) & 0xff == g as u32 && (v >> 16u32) & 0xff == b as u32
        && v >> 24u32 == a as u32) by (bit_vector)
        requires
            v == ((a as u32) << 24u32) | ((b as u32) << 16u32) | ((g as u32) << 8u32) | (r as u32),
    ;
    lemma_unpack(n);
}

} // verus!
