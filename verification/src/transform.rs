//! Exact rational view-transform math for fitting content into a surface.
//!
//! Given a content size `(cw, ch)` and a surface size `(sw, sh)`, the view
//! transform scales the content uniformly by `s = min(sw/cw, sh/ch)` and
//! centers it, with offsets `((sw - cw*s)/2, (sh - ch*s)/2)`. Transforms are
//! kept as six integer coefficients over one positive denominator, so the
//! math is exact and the inverse transform undoes the forward one precisely.

use vstd::prelude::*;

verus! {

/// A 2-D affine map `[a, b, c, d, tx, ty]` over the common denominator
/// `den`: a point `(x, y)` is sent to
/// `((a*x + c*y + tx) / den, (b*x + d*y + ty) / den)`.
#[derive(Clone, Copy, Debug, PartialEq, Eq, Structural)]
pub struct Affine {
    pub a: i128,
    pub b: i128,
    pub c: i128,
    pub d: i128,
    pub tx: i128,
    pub ty: i128,
    pub den: i128,
}

/// The same affine map with mathematical-integer coefficients; contracts
/// and proofs speak of this model.
pub struct AffineModel {
    pub a: int,
    pub b: int,
    pub c: int,
    pub d: int,
    pub tx: int,
    pub ty: int,
    pub den: int,
}

/// A point with rational coordinates `(x/den, y/den)`.
pub struct RationalPoint {
    pub x: int,
    pub y: int,
    pub den: int,
}

pub open spec fn affine_model(t: Affine) -> AffineModel {
    AffineModel {
        a: t.a as int,
        b: t.b as int,
        c: t.c as int,
        d: t.d as int,
        tx: t.tx as int,
        ty: t.ty as int,
        den: t.den as int,
    }
}

/// Applying an affine map to a rational point, exactly.
pub open spec fn apply_affine(t: AffineModel, p: RationalPoint) -> RationalPoint {
    RationalPoint {
        x: t.a * p.x + t.c * p.y + t.tx * p.den,
        y: t.b * p.x + t.d * p.y + t.ty * p.den,
        den: t.den * p.den,
    }
}

/// Two rational points denote the same location exactly when their
/// coordinates agree after clearing denominators.
pub open spec fn same_point(p: RationalPoint, q: RationalPoint) -> bool {
    &&& p.x * q.den == q.x * p.den
    &&& p.y * q.den == q.y * p.den
}

/// Numerator of the uniform fit scale `min(sw/cw, sh/ch)`, over the
/// denominator `cw * ch`.
pub open spec fn fit_scale_num(cw: u32, ch: u32, sw: u32, sh: u32) -> int {
    if sw * ch <= sh * cw {
        sw * ch
    } else {
        sh * cw
    }
}

/// The forward (content-to-surface) transform: scale by `k/(cw*ch)` and
/// translate to center, all over the denominator `2*cw*ch`.
pub open spec fn forward_model(cw: u32, ch: u32, sw: u32, sh: u32) -> AffineModel {
    let k = fit_scale_num(cw, ch, sw, sh);
    let d = cw * ch;
    AffineModel {
        a: 2 * k,
        b: 0,
        c: 0,
        d: 2 * k,
        tx: sw * d - cw * k,
        ty: sh * d - ch * k,
        den: 2 * d,
    }
}

/// The inverse (surface-to-content) transform, over the denominator `2*k`;
/// meaningful only when the scale numerator `k` is positive.
pub open spec fn inverse_model(cw: u32, ch: u32, sw: u32, sh: u32) -> AffineModel {
    let k = fit_scale_num(cw, ch, sw, sh);
    let d = cw * ch;
    AffineModel {
        a: 2 * d,
        b: 0,
        c: 0,
        d: 2 * d,
        tx: cw * k - sw * d,
        ty: ch * k - sh * d,
        den: 2 * k,
    }
}

/// The forward view transform as the exec-level coefficient struct; the
/// model's values all fit in `i128`.
pub open spec fn forward_affine(cw: u32, ch: u32, sw: u32, sh: u32) -> Affine {
    let m = forward_model(cw, ch, sw, sh);
    Affine {
        a: m.a as i128,
        b: m.b as i128,
        c: m.c as i128,
        d: m.d as i128,
        tx: m.tx as i128,
        ty: m.ty as i128,
        den: m.den as i128,
    }
}

/// The inverse view transform as the exec-level coefficient struct.
pub open spec fn inverse_affine(cw: u32, ch: u32, sw: u32, sh: u32) -> Affine {
    let m = inverse_model(cw, ch, sw, sh);
    Affine {
        a: m.a as i128,
        b: m.b as i128,
        c: m.c as i128,
        d: m.d as i128,
        tx: m.tx as i128,
        ty: m.ty as i128,
        den: m.den as i128,
    }
}

/// Coefficient bounds that hold of every transform this library constructs
/// from 32-bit sizes; they keep exec arithmetic on transforms inside `i128`.
pub open spec fn affine_bounded(t: Affine) -> bool {
    &&& 1 <= t.den <= 0x2_0000_0000_0000_0000
    &&& -0x2_0000_0000_0000_0000 <= t.a <= 0x2_0000_0000_0000_0000
    &&& -0x2_0000_0000_0000_0000 <= t.b <= 0x2_0000_0000_0000_0000
    &&& -0x2_0000_0000_0000_0000 <= t.c <= 0x2_0000_0000_0000_0000
    &&& -0x2_0000_0000_0000_0000 <= t.d <= 0x2_0000_0000_0000_0000
    &&& -0x2_0000_0000_0000_0000_0000_0000 <= t.tx <= 0x2_0000_0000_0000_0000_0000_0000
    &&& -0x2_0000_0000_0000_0000_0000_0000 <= t.ty <= 0x2_0000_0000_0000_0000_0000_0000
}

proof fn lemma_mul_le(a: int, b: int, am: int, bm: int) by (nonlinear_arith)
    requires
        0 <= a <= am,
        0 <= b <= bm,
    ensures
        a * b <= am * bm,
{
}

/// Computes the forward view transform and, when the surface has positive
/// area, its exact inverse. A degenerate surface (a zero dimension) has no
/// usable inverse, so none is produced for it.
pub fn view_transforms(cw: u32, ch: u32, sw: u32, sh: u32) -> (r: (Affine, Option<Affine>))
    requires
        cw >= 1,
        ch >= 1,
    ensures
        r.0 == forward_affine(cw, ch, sw, sh),
        affine_bounded(r.0),
        sw >= 1 && sh >= 1 ==> r.1 == Some(inverse_affine(cw, ch, sw, sh)) && affine_bounded(
            inverse_affine(cw, ch, sw, sh),
        ),
        sw == 0 || sh == 0 ==> r.1 is None,
{
    proof {
        lemma_mul_le(sw as int, ch as int, 0xffff_ffff, 0xffff_ffff);
        lemma_mul_le(sh as int, cw as int, 0xffff_ffff, 0xffff_ffff);
        lemma_mul_le(cw as int, ch as int, 0xffff_ffff, 0xffff_ffff);
        lemma_mul_le(1, 1, cw as int, ch as int);
    }
    let swch: u64 = (sw as u64) * (ch as u64);
    let shcw: u64 = (sh as u64) * (cw as u64);
    let k: u64 = if swch <= shcw {
        swch
    } else {
        shcw
    };
    let d: u64 = (cw as u64) * (ch as u64);
    proof {
        lemma_mul_le(sw as int, d as int, 0xffff_ffff, 0xffff_ffff_ffff_ffff);
        lemma_mul_le(sh as int, d as int, 0xffff_ffff, 0xffff_ffff_ffff_ffff);
        lemma_mul_le(cw as int, k as int, 0xffff_ffff, 0xffff_ffff_ffff_ffff);
        lemma_mul_le(ch as int, k as int, 0xffff_ffff, 0xffff_ffff_ffff_ffff);
    }
    let swd: i128 = (sw as i128) * (d as i128);
    let shd: i128 = (sh as i128) * (d as i128);
    let cwk: i128 = (cw as i128) * (k as i128);
    let chk: i128 = (ch as i128) * (k as i128);
    let forward = Affine {
        a: 2 * (k as i128),
        b: 0,
        c: 0,
        d: 2 * (k as i128),
        tx: swd - cwk,
        ty: shd - chk,
        den: 2 * (d as i128),
    };
    let inverse = if sw >= 1 && sh >= 1 {
        proof {
            lemma_mul_le(1, 1, sw as int, ch as int);
            lemma_mul_le(1, 1, sh as int, cw as int);
        }
        Some(
            Affine {
                a: 2 * (d as i128),
                b: 0,
                c: 0,
                d: 2 * (d as i128),
                tx: cwk - swd,
                ty: chk - shd,
                den: 2 * (k as i128),
            },
        )
    } else {
        None
    };
    (forward, inverse)
}

/// Applies a bounded affine map to a pixel position, returning the exact
/// rational image of the point `(x, y)`.
pub fn apply_to_pixel(t: &Affine, x: u32, y: u32) -> (r: (i128, i128, i128))
    requires
        affine_bounded(*t),
    ensures
        ((RationalPoint { x: r.0 as int, y: r.1 as int, den: r.2 as int }) == apply_affine(
            affine_model(*t),
            (RationalPoint { x: x as int, y: y as int, den: 1 }),
        )),
        r.2 >= 1,
{
    proof {
        lemma_abs_mul_le(t.a as int, x as int, 0x2_0000_0000_0000_0000, 0xffff_ffff);
        lemma_abs_mul_le(t.c as int, y as int, 0x2_0000_0000_0000_0000, 0xffff_ffff);
        lemma_abs_mul_le(t.b as int, x as int, 0x2_0000_0000_0000_0000, 0xffff_ffff);
        lemma_abs_mul_le(t.d as int, y as int, 0x2_0000_0000_0000_0000, 0xffff_ffff);
    }
    let xn: i128 = t.a * (x as i128) + t.c * (y as i128) + t.tx;
    let yn: i128 = t.b * (x as i128) + t.d * (y as i128) + t.ty;
    (xn, yn, t.den)
}

proof fn lemma_abs_mul_le(a: int, b: int, am: int, bm: int) by (nonlinear_arith)
    requires
        -am <= a <= am,
        0 <= b <= bm,
        0 <= am,
    ensures
        -(am * bm) <= a * b <= am * bm,
{
}

/// The transform round trip is exact: for positive content and surface
/// sizes, mapping any rational point through the forward view transform and
/// then through the inverse one yields the original point again.
pub proof fn lemma_view_transform_round_trip(cw: u32, ch: u32, sw: u32, sh: u32, p: RationalPoint)
    requires
        cw >= 1,
        ch >= 1,
        sw >= 1,
        sh >= 1,
        p.den >= 1,
    ensures
        same_point(
            apply_affine(
                inverse_model(cw, ch, sw, sh),
                apply_affine(forward_model(cw, ch, sw, sh), p),
            ),
            p,
        ),
{
    let k = fit_scale_num(cw, ch, sw, sh);
    let d = (cw * ch) as int;
    let f = forward_model(cw, ch, sw, sh);
    let i = inverse_model(cw, ch, sw, sh);
    let q = apply_affine(f, p);
    let r = apply_affine(i, q);
    let off_x = sw * d - cw * k;
    let off_y = sh * d - ch * k;
    assert(q.x == 2 * k * p.x + off_x * p.den && q.y == 2 * k * p.y + off_y * p.den && q.den == 2
        * d * p.den) by (nonlinear_arith)
        requires
            q.x == f.a * p.x + f.c * p.y + f.tx * p.den,
            q.y == f.b * p.x + f.d * p.y + f.ty * p.den,
            q.den == f.den * p.den,
            f.a == 2 * k,
            f.b == 0,
            f.c == 0,
            f.d == 2 * k,
            f.tx == off_x,
            f.ty == off_y,
            f.den == 2 * d,
    ;
    assert(r.x == 2 * d * q.x + (-off_x) * q.den && r.y == 2 * d * q.y + (-off_y) * q.den && r.den
        == 2 * k * q.den) by (nonlinear_arith)
        requires
            r.x == i.a * q.x + i.c * q.y + i.tx * q.den,
            r.y == i.b * q.x + i.d * q.y + i.ty * q.den,
            r.den == i.den * q.den,
            i.a == 2 * d,
            i.b == 0,
            i.c == 0,
            i.d == 2 * d,
            i.tx == -off_x,
            i.ty == -off_y,
            i.den == 2 * k,
    ;
    lemma_coordinate_round_trip(k, d, off_x, p.x, p.den, q.x, q.den, r.x, r.den);
    lemma_coordinate_round_trip(k, d, off_y, p.y, p.den, q.y, q.den, r.y, r.den);
}

proof fn lemma_coordinate_round_trip(
    k: int,
    d: int,
    off: int,
    px: int,
    pd: int,
    qx: int,
    qden: int,
    rx: int,
    rden: int,
) by (nonlinear_arith)
    requires
        qx == 2 * k * px + off * pd,
        qden == 2 * d * pd,
        rx == 2 * d * qx + (-off) * qden,
        rden == 2 * k * qden,
    ensures
        rx * pd == px * rden,
{
}


} // verus!
