use vstd::prelude::*;
use crate::geometry::Viewport;
use crate::scalar::{
    lemma_prod_bound, lemma_prod_pos, lemma_rat_eq_add_right, lemma_rat_eq_mul,
    lemma_rat_eq_sub_right, lemma_rat_eq_trans, rat, rat_add, rat_eq, rat_mul, rat_neg, rat_sub,
    scalar_half_of_u32, scalar_of_u32, spec_divided_by, spec_minus, spec_negated, spec_plus,
    spec_times, Rat, Scalar, COORD_BOUND,
};

verus! {

/// An affine transform `(a, b, c, d, e, f)`: a logical point `(x, y)` maps to
/// the pixel `(a·x + c·y + e, b·x + d·y + f)`.
#[derive(Clone, Copy, Debug, PartialEq, Eq, Structural)]
pub struct Transform {
    pub a: Scalar,
    pub b: Scalar,
    pub c: Scalar,
    pub d: Scalar,
    pub e: Scalar,
    pub f: Scalar,
}

impl Transform {
    pub open spec fn wf(self) -> bool {
        &&& self.a.wf()
        &&& self.b.wf()
        &&& self.c.wf()
        &&& self.d.wf()
        &&& self.e.wf()
        &&& self.f.wf()
    }
}

/// The pixel x coordinate that a transform assigns to the logical point
/// `(x, y)`, as a rational.
pub open spec fn apply_x(t: Transform, x: Rat, y: Rat) -> Rat {
    rat_add(rat_add(rat_mul(t.a.to_rat(), x), rat_mul(t.c.to_rat(), y)), t.e.to_rat())
}

/// The pixel y coordinate that a transform assigns to the logical point
/// `(x, y)`, as a rational.
pub open spec fn apply_y(t: Transform, x: Rat, y: Rat) -> Rat {
    rat_add(rat_add(rat_mul(t.b.to_rat(), x), rat_mul(t.d.to_rat(), y)), t.f.to_rat())
}

/// The world-pass scale: the surface pixel height divided by the viewport
/// height `s`.  Neither the surface width nor the viewport width enters.
pub open spec fn world_scale(h: int, s: Rat) -> Rat {
    Rat { n: h * s.d, d: s.n }
}

/// The zero scalar.
pub open spec fn scalar_zero() -> Scalar {
    Scalar { num: 0, den: 1 }
}

/// The world-pass transform, exactly as [`viewport_transform`] computes it.
pub open spec fn spec_viewport_transform(width: u32, height: u32, vp: Viewport) -> Transform {
    let k = spec_divided_by(scalar_of_u32(height), vp.size.y);
    Transform {
        a: k,
        b: scalar_zero(),
        c: scalar_zero(),
        d: spec_negated(k),
        e: spec_minus(scalar_half_of_u32(width), spec_times(vp.position.x, k)),
        f: spec_plus(scalar_half_of_u32(height), spec_times(vp.position.y, k)),
    }
}

/// The UI-pass transform, exactly as [`unit_transform`] computes it.
pub open spec fn spec_unit_transform(width: u32, height: u32) -> Transform {
    Transform {
        a: Scalar { num: height as i128, den: 1 },
        b: scalar_zero(),
        c: scalar_zero(),
        d: Scalar { num: (-(height as int)) as i128, den: 1 },
        e: Scalar { num: width as i128, den: 2 },
        f: Scalar { num: height as i128, den: 2 },
    }
}

/// What the world-pass transform means, rationally: the scale is `H / s.y`,
/// the y axis is inverted, and the origin offset places the viewport position
/// at the surface center.
pub proof fn lemma_viewport_transform_values(width: u32, height: u32, vp: Viewport)
    requires
        vp.valid(),
    ensures
        ({
            let t = spec_viewport_transform(width, height, vp);
            let scale = world_scale(height as int, vp.size.y.to_rat());
            &&& t.wf()
            &&& rat_eq(t.a.to_rat(), scale)
            &&& t.b == scalar_zero()
            &&& t.c == scalar_zero()
            &&& rat_eq(t.d.to_rat(), rat_neg(scale))
            &&& rat_eq(
                t.e.to_rat(),
                rat_sub(rat(width as int, 2), rat_mul(vp.position.x.to_rat(), scale)),
            )
            &&& rat_eq(
                t.f.to_rat(),
                rat_add(rat(height as int, 2), rat_mul(vp.position.y.to_rat(), scale)),
            )
        }),
{
    let t = spec_viewport_transform(width, height, vp);
    let sy = vp.size.y;
    let px = vp.position.x;
    let py = vp.position.y;
    let scale = world_scale(height as int, sy.to_rat());
    let k = t.a;
    lemma_prod_bound(height as int, sy.den as int, 0x1_0000_0000, COORD_BOUND as int);
    assert(-(0x1_0000_0000 * COORD_BOUND as int) <= k.num <= 0x1_0000_0000 * COORD_BOUND as int);
    assert(0 < k.den <= COORD_BOUND);
    if sy.num > 0 {
        assert(rat_eq(k.to_rat(), scale));
    } else {
        assert(rat_eq(k.to_rat(), scale)) by (nonlinear_arith)
            requires
                k.num == -(height as int * sy.den as int),
                k.den == -(sy.num as int),
                scale == (Rat { n: height as int * sy.den as int, d: sy.num as int }),
        ;
    }
    assert(rat_eq(t.d.to_rat(), rat_neg(scale))) by (nonlinear_arith)
        requires
            t.d.num == -k.num,
            t.d.den == k.den,
            rat_eq(k.to_rat(), scale),
    ;
    lemma_prod_bound(px.num as int, k.num as int, COORD_BOUND as int,
        0x1_0000_0000 * COORD_BOUND as int);
    lemma_prod_bound(py.num as int, k.num as int, COORD_BOUND as int,
        0x1_0000_0000 * COORD_BOUND as int);
    lemma_prod_bound(px.den as int, k.den as int, COORD_BOUND as int, COORD_BOUND as int);
    lemma_prod_bound(py.den as int, k.den as int, COORD_BOUND as int, COORD_BOUND as int);
    lemma_prod_pos(px.den as int, k.den as int);
    lemma_prod_pos(py.den as int, k.den as int);
    let tx = spec_times(px, k);
    let ty = spec_times(py, k);
    lemma_prod_bound(width as int, tx.den as int, 0x1_0000_0000,
        COORD_BOUND as int * COORD_BOUND as int);
    lemma_prod_bound(height as int, ty.den as int, 0x1_0000_0000,
        COORD_BOUND as int * COORD_BOUND as int);
    assert(rat_eq(tx.to_rat(), rat_mul(px.to_rat(), k.to_rat())));
    assert(rat_eq(ty.to_rat(), rat_mul(py.to_rat(), k.to_rat())));
    lemma_rat_eq_mul(px.to_rat(), px.to_rat(), k.to_rat(), scale);
    lemma_rat_eq_trans(tx.to_rat(), rat_mul(px.to_rat(), k.to_rat()),
        rat_mul(px.to_rat(), scale));
    lemma_rat_eq_mul(py.to_rat(), py.to_rat(), k.to_rat(), scale);
    lemma_rat_eq_trans(ty.to_rat(), rat_mul(py.to_rat(), k.to_rat()),
        rat_mul(py.to_rat(), scale));
    assert(rat_eq(t.e.to_rat(), rat_sub(rat(width as int, 2), tx.to_rat())));
    lemma_rat_eq_sub_right(rat(width as int, 2), tx.to_rat(), rat_mul(px.to_rat(), scale));
    lemma_rat_eq_trans(t.e.to_rat(), rat_sub(rat(width as int, 2), tx.to_rat()),
        rat_sub(rat(width as int, 2), rat_mul(px.to_rat(), scale)));
    assert(rat_eq(t.f.to_rat(), rat_add(rat(height as int, 2), ty.to_rat())));
    lemma_rat_eq_add_right(rat(height as int, 2), ty.to_rat(), rat_mul(py.to_rat(), scale));
    lemma_rat_eq_trans(t.f.to_rat(), rat_add(rat(height as int, 2), ty.to_rat()),
        rat_add(rat(height as int, 2), rat_mul(py.to_rat(), scale)));
}

/// Builds the world-pass transform from the surface pixel dimensions and the
/// frame's viewport: uniform scale `H / size.y` (height-driven; the width
/// never enters the scale), y axis inverted, origin offset so that the
/// viewport position lands on the surface center.
pub fn viewport_transform(width: u32, height: u32, vp: &Viewport) -> (t: Transform)
    requires
        vp.valid(),
    ensures
        t == spec_viewport_transform(width, height, *vp),
        t.wf(),
        rat_eq(t.a.to_rat(), world_scale(height as int, vp.size.y.to_rat())),
        t.b == scalar_zero(),
        t.c == scalar_zero(),
        rat_eq(t.d.to_rat(), rat_neg(world_scale(height as int, vp.size.y.to_rat()))),
        rat_eq(
            t.e.to_rat(),
            rat_sub(
                rat(width as int, 2),
                rat_mul(vp.position.x.to_rat(), world_scale(height as int, vp.size.y.to_rat())),
            ),
        ),
        rat_eq(
            t.f.to_rat(),
            rat_add(
                rat(height as int, 2),
                rat_mul(vp.position.y.to_rat(), world_scale(height as int, vp.size.y.to_rat())),
            ),
        ),
{
    proof {
        lemma_viewport_transform_values(width, height, *vp);
        lemma_prod_bound(height as int, vp.size.y.den as int, 0x1_0000_0000, COORD_BOUND as int);
    }
    let k = Scalar::from_u32(height).divided_by(vp.size.y);
    proof {
        lemma_prod_bound(vp.position.x.num as int, k.num as int, COORD_BOUND as int,
            0x1_0000_0000 * COORD_BOUND as int);
        lemma_prod_bound(vp.position.y.num as int, k.num as int, COORD_BOUND as int,
            0x1_0000_0000 * COORD_BOUND as int);
        lemma_prod_bound(vp.position.x.den as int, k.den as int, COORD_BOUND as int,
            COORD_BOUND as int);
        lemma_prod_bound(vp.position.y.den as int, k.den as int, COORD_BOUND as int,
            COORD_BOUND as int);
    }
    let tx = vp.position.x.times(k);
    let ty = vp.position.y.times(k);
    proof {
        lemma_prod_bound(width as int, tx.den as int, 0x1_0000_0000,
            COORD_BOUND as int * COORD_BOUND as int);
        lemma_prod_bound(height as int, ty.den as int, 0x1_0000_0000,
            COORD_BOUND as int * COORD_BOUND as int);
    }
    let e = Scalar::half_of_u32(width).minus(tx);
    let f = Scalar::half_of_u32(height).plus(ty);
    let zero = Scalar { num: 0, den: 1 };
    Transform { a: k, b: zero, c: zero, d: k.negated(), e, f }
}

/// Builds the UI-pass transform from the surface pixel dimensions alone:
/// scale equal to the surface height, y axis inverted, origin at the surface
/// center.
pub fn unit_transform(width: u32, height: u32) -> (t: Transform)
    ensures
        t == spec_unit_transform(width, height),
        t.wf(),
        t.a.num == height && t.a.den == 1,
        t.b == scalar_zero(),
        t.c == scalar_zero(),
        t.d.num == -(height as int) && t.d.den == 1,
        t.e.num == width && t.e.den == 2,
        t.f.num == height && t.f.den == 2,
{
    let zero = Scalar { num: 0, den: 1 };
    let h = height as i128;
    Transform {
        a: Scalar { num: h, den: 1 },
        b: zero,
        c: zero,
        d: Scalar { num: -h, den: 1 },
        e: Scalar { num: width as i128, den: 2 },
        f: Scalar { num: h, den: 2 },
    }
}

/// The world-pass scale equals `H / size.y` and is independent of the surface
/// width and of the viewport width: two surfaces sharing a pixel height, with
/// two viewports sharing a height, get the same scale whatever the widths.
pub proof fn lemma_world_scale_width_free(
    w1: u32,
    w2: u32,
    h: u32,
    vp1: Viewport,
    vp2: Viewport,
)
    requires
        vp1.valid(),
        vp2.valid(),
        vp1.size.y == vp2.size.y,
    ensures
        rat_eq(
            spec_viewport_transform(w1, h, vp1).a.to_rat(),
            world_scale(h as int, vp1.size.y.to_rat()),
        ),
        spec_viewport_transform(w1, h, vp1).a == spec_viewport_transform(w2, h, vp2).a,
{
    lemma_viewport_transform_values(w1, h, vp1);
    lemma_viewport_transform_values(w2, h, vp2);
}

/// The UI-pass transform sends the logical origin to the surface center
/// `(W/2, H/2)`, for every surface size.
pub proof fn lemma_unit_maps_origin_to_center(width: u32, height: u32)
    ensures
        rat_eq(
            apply_x(spec_unit_transform(width, height), rat(0, 1), rat(0, 1)),
            rat(width as int, 2),
        ),
        rat_eq(
            apply_y(spec_unit_transform(width, height), rat(0, 1), rat(0, 1)),
            rat(height as int, 2),
        ),
{
    let t = spec_unit_transform(width, height);
    let zero = rat(0, 1);
    assert(rat_mul(t.a.to_rat(), zero) == rat(0, 1));
    assert(rat_mul(t.b.to_rat(), zero) == rat(0, 1));
    assert(rat_mul(t.c.to_rat(), zero) == rat(0, 1));
    assert(rat_mul(t.d.to_rat(), zero) == rat(0, 1));
    assert(rat_add(rat(0, 1), rat(0, 1)) == rat(0, 1));
    assert(rat_add(rat(0, 1), t.e.to_rat()) == rat(width as int, 2));
    assert(rat_add(rat(0, 1), t.f.to_rat()) == rat(height as int, 2));
}

/// Under the UI-pass transform the y axis points up and one logical unit
/// spans the surface height: the logical point `(0, 1)` lands a full surface
/// height above the center, at pixel `(W/2, -H/2)`.
pub proof fn lemma_unit_maps_unit_up(width: u32, height: u32)
    ensures
        rat_eq(
            apply_x(spec_unit_transform(width, height), rat(0, 1), rat(1, 1)),
            rat(width as int, 2),
        ),
        rat_eq(
            apply_y(spec_unit_transform(width, height), rat(0, 1), rat(1, 1)),
            rat(-(height as int), 2),
        ),
{
    let t = spec_unit_transform(width, height);
    let zero = rat(0, 1);
    let one = rat(1, 1);
    assert(rat_mul(t.a.to_rat(), zero) == rat(0, 1));
    assert(rat_mul(t.b.to_rat(), zero) == rat(0, 1));
    assert(rat_mul(t.c.to_rat(), one) == rat(0, 1));
    assert(rat_mul(t.d.to_rat(), one) == rat(-(height as int), 1));
    assert(rat_add(rat(0, 1), rat(0, 1)) == rat(0, 1));
    assert(rat_add(rat(0, 1), rat(-(height as int), 1)) == rat(-(height as int), 1));
    assert(rat_add(rat(0, 1), t.e.to_rat()) == rat(width as int, 2));
    assert(rat_add(rat(-(height as int), 1), t.f.to_rat()) == rat(-(height as int), 2));
}

} // verus!
