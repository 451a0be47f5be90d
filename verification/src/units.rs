use vstd::prelude::*;

verus! {

/// A length in app units (1/60 of a CSS pixel).
#[derive(Clone, Copy, Debug, PartialEq, Eq, Structural)]
pub struct Au(pub i32);

/// Integer division rounding toward zero, as Rust's `/` on integers does.
pub open spec fn spec_trunc_div(a: int, b: int) -> int {
    if a >= 0 {
        if b > 0 { a / b } else { -(a / (-b)) }
    } else {
        if b > 0 { -((-a) / b) } else { (-a) / (-b) }
    }
}

/// Spec of `round_border_to_device_pixels`: zero stays zero; any other width
/// is rounded toward zero to a whole number of device pixels, and is never
/// less than one device pixel.
pub open spec fn spec_round_border(width: int, px: int) -> int {
    if width == 0 {
        0
    } else {
        let rounded = spec_trunc_div(width, px) * px;
        if px <= rounded { rounded } else { px }
    }
}

/// Whether a width can be rounded: a non-zero width is divided by the device
/// pixel size, which must then be non-zero and must not make the division
/// overflow.
pub open spec fn can_round_border(width: int, px: int) -> bool {
    width == 0 || (px != 0 && !(px == -1 && width == i32::MIN))
}

/// A whole number of `b` no further from zero than `a`.
proof fn lemma_trunc_div_bound(a: int, b: int)
    requires
        b != 0,
    ensures
        a >= 0 ==> 0 <= spec_trunc_div(a, b) * b <= a,
        a < 0 ==> a <= spec_trunc_div(a, b) * b <= 0,
{
    let na = if a >= 0 { a } else { -a };
    let nb = if b > 0 { b } else { -b };
    vstd::arithmetic::div_mod::lemma_fundamental_div_mod(na, nb);
    vstd::arithmetic::div_mod::lemma_mod_bound(na, nb);
    let q = na / nb;
    assert(0 <= q * nb <= na) by (nonlinear_arith)
        requires q == na / nb, nb > 0, na >= 0, na == nb * q + na % nb, 0 <= na % nb < nb;
    if a >= 0 {
        if b > 0 {
            assert(spec_trunc_div(a, b) * b == q * nb);
        } else {
            assert(spec_trunc_div(a, b) * b == q * nb) by (nonlinear_arith)
                requires spec_trunc_div(a, b) == -q, b == -nb;
        }
    } else {
        if b > 0 {
            assert(spec_trunc_div(a, b) * b == -(q * nb)) by (nonlinear_arith)
                requires spec_trunc_div(a, b) == -q, b == nb;
        } else {
            assert(spec_trunc_div(a, b) * b == -(q * nb)) by (nonlinear_arith)
                requires spec_trunc_div(a, b) == q, b == -nb;
        }
    }
}

/// Rounds a border width toward zero to a whole number of device pixels,
/// but any non-zero width that would round to less than one device pixel
/// becomes one device pixel.
pub fn round_border_to_device_pixels(width: Au, au_per_device_px: Au) -> (r: Au)
    requires
        can_round_border(width.0 as int, au_per_device_px.0 as int),
    ensures
        r.0 == spec_round_border(width.0 as int, au_per_device_px.0 as int),
{
    if width.0 == 0 {
        Au(0)
    } else {
        let px = au_per_device_px.0;
        // Rust's division rounds toward zero: divide the magnitudes, then
        // give the quotient the sign of the operands' product.
        let w = width.0 as i64;
        let b = px as i64;
        let nw: i64 = if w < 0 { -w } else { w };
        let nb: i64 = if b < 0 { -b } else { b };
        let m = nw / nb;
        let q: i64 = if (w < 0) == (b < 0) { m } else { -m };
        proof {
            assert(q == spec_trunc_div(width.0 as int, px as int));
            lemma_trunc_div_bound(width.0 as int, px as int);
            assert(q * b == spec_trunc_div(width.0 as int, px as int) * px);
        }
        let rounded = (q * b) as i32;
        if px <= rounded { Au(rounded) } else { Au(px) }
    }
}

/// A rounded border width is zero exactly when the width is zero; otherwise
/// it is a whole, non-zero number of device pixels, and a width of at least
/// one device pixel loses less than one device pixel.
pub proof fn lemma_round_border_properties(width: int, px: int)
    requires
        px > 0,
    ensures
        (spec_round_border(width, px) == 0) == (width == 0),
        width != 0 ==> spec_round_border(width, px) >= px && spec_round_border(width, px) % px == 0,
        width >= px ==> spec_round_border(width, px) <= width && width - spec_round_border(width, px) < px,
{
    if width >= px {
        let q = width / px;
        vstd::arithmetic::div_mod::lemma_fundamental_div_mod(width, px);
        vstd::arithmetic::div_mod::lemma_mod_bound(width, px);
        assert(q >= 1) by (nonlinear_arith)
            requires q == width / px, width >= px, px > 0;
        assert(q * px >= px) by (nonlinear_arith)
            requires q >= 1, px > 0;
        vstd::arithmetic::div_mod::lemma_mod_multiples_basic(q, px);
        assert((q * px) % px == 0);
    } else if width != 0 {
        lemma_trunc_div_bound(width, px);
        vstd::arithmetic::div_mod::lemma_mod_self_0(px);
    }
}

/// Rounding an app-unit width gives an app-unit width again; with a positive
/// device pixel size it is zero exactly when the width is zero.
pub proof fn lemma_round_border_in_range(width: i32, px: i32)
    requires
        can_round_border(width as int, px as int),
    ensures
        i32::MIN <= spec_round_border(width as int, px as int) <= i32::MAX,
        px > 0 ==> (spec_round_border(width as int, px as int) == 0) == (width == 0),
{
    if width != 0 {
        lemma_trunc_div_bound(width as int, px as int);
        if px > 0 {
            lemma_round_border_properties(width as int, px as int);
        }
    }
}

} // verus!
