use vstd::prelude::*;

verus! {

/// Largest magnitude admitted for the numerator and the denominator of a
/// host-supplied coordinate.  Keeping host coordinates inside this bound keeps
/// every product formed by the transform engine inside `i128`.
pub const COORD_BOUND: i128 = 0x4000_0000;

/// An exact rational scalar `num / den` with `den > 0`.
///
/// Host coordinates and transform coefficients are carried as rationals so
/// that the transform arithmetic of the render passes is exact; the embedding
/// shell divides `num` by `den` only at the drawing boundary.  Values are not
/// reduced, so each operation states its result exactly.
#[derive(Clone, Copy, Debug, PartialEq, Eq, Structural)]
pub struct Scalar {
    pub num: i128,
    pub den: i128,
}

/// A rational value at the specification level: `n / d` over mathematical
/// integers.  Contracts compare these by cross-multiplication, so two
/// differently represented fractions of the same value are related by
/// [`rat_eq`].
pub struct Rat {
    pub n: int,
    pub d: int,
}

/// The rational `n / d`.
pub open spec fn rat(n: int, d: int) -> Rat {
    Rat { n, d }
}

/// Value equality of two rationals by cross-multiplication.  For nonzero
/// denominators this holds exactly when the two quotients are equal, whatever
/// the signs of the denominators.
pub open spec fn rat_eq(a: Rat, b: Rat) -> bool {
    a.n * b.d == b.n * a.d
}

pub open spec fn rat_mul(a: Rat, b: Rat) -> Rat {
    Rat { n: a.n * b.n, d: a.d * b.d }
}

pub open spec fn rat_div(a: Rat, b: Rat) -> Rat {
    Rat { n: a.n * b.d, d: a.d * b.n }
}

pub open spec fn rat_add(a: Rat, b: Rat) -> Rat {
    Rat { n: a.n * b.d + b.n * a.d, d: a.d * b.d }
}

pub open spec fn rat_sub(a: Rat, b: Rat) -> Rat {
    Rat { n: a.n * b.d - b.n * a.d, d: a.d * b.d }
}

pub open spec fn rat_neg(a: Rat) -> Rat {
    Rat { n: -a.n, d: a.d }
}

pub open spec fn rat_half(a: Rat) -> Rat {
    Rat { n: a.n, d: 2 * a.d }
}

/// Rational equality is transitive across a middle value with a nonzero
/// denominator.
pub proof fn lemma_rat_eq_trans(a: Rat, b: Rat, c: Rat)
    by (nonlinear_arith)
    requires
        rat_eq(a, b),
        rat_eq(b, c),
        b.d != 0,
    ensures
        rat_eq(a, c),
{
}

/// Multiplication respects rational value equality.
pub proof fn lemma_rat_eq_mul(a: Rat, a2: Rat, b: Rat, b2: Rat)
    requires
        rat_eq(a, a2),
        rat_eq(b, b2),
    ensures
        rat_eq(rat_mul(a, b), rat_mul(a2, b2)),
{
    assert((a.n * a2.d) * (b.n * b2.d) == (a2.n * a.d) * (b2.n * b.d));
    assert((a.n * b.n) * (a2.d * b2.d) == (a.n * a2.d) * (b.n * b2.d)) by (nonlinear_arith);
    assert((a2.n * b2.n) * (a.d * b.d) == (a2.n * a.d) * (b2.n * b.d)) by (nonlinear_arith);
}

/// Subtraction from a fixed left operand respects rational value equality.
pub proof fn lemma_rat_eq_sub_right(c: Rat, b: Rat, b2: Rat)
    requires
        rat_eq(b, b2),
    ensures
        rat_eq(rat_sub(c, b), rat_sub(c, b2)),
{
    assert((c.n * b.d - b.n * c.d) * (c.d * b2.d) == (c.n * b.d) * (c.d * b2.d) - (b.n * b2.d)
        * (c.d * c.d)) by (nonlinear_arith);
    assert((c.n * b2.d - b2.n * c.d) * (c.d * b.d) == (c.n * b2.d) * (c.d * b.d) - (b2.n * b.d)
        * (c.d * c.d)) by (nonlinear_arith);
    assert((c.n * b.d) * (c.d * b2.d) == (c.n * b2.d) * (c.d * b.d)) by (nonlinear_arith);
    assert((b.n * b2.d) * (c.d * c.d) == (b2.n * b.d) * (c.d * c.d));
}

/// Addition to a fixed left operand respects rational value equality.
pub proof fn lemma_rat_eq_add_right(c: Rat, b: Rat, b2: Rat)
    requires
        rat_eq(b, b2),
    ensures
        rat_eq(rat_add(c, b), rat_add(c, b2)),
{
    assert((c.n * b.d + b.n * c.d) * (c.d * b2.d) == (c.n * b.d) * (c.d * b2.d) + (b.n * b2.d)
        * (c.d * c.d)) by (nonlinear_arith);
    assert((c.n * b2.d + b2.n * c.d) * (c.d * b.d) == (c.n * b2.d) * (c.d * b.d) + (b2.n * b.d)
        * (c.d * c.d)) by (nonlinear_arith);
    assert((c.n * b.d) * (c.d * b2.d) == (c.n * b2.d) * (c.d * b.d)) by (nonlinear_arith);
    assert((b.n * b2.d) * (c.d * c.d) == (b2.n * b.d) * (c.d * c.d));
}

/// A product of values bounded in magnitude is bounded by the product of the
/// bounds.
pub proof fn lemma_prod_bound(a: int, b: int, aa: int, bb: int)
    by (nonlinear_arith)
    requires
        -aa <= a <= aa,
        -bb <= b <= bb,
        0 <= aa,
        0 <= bb,
    ensures
        -(aa * bb) <= a * b <= aa * bb,
{
}

/// A product of two positive values is positive.
pub proof fn lemma_prod_pos(a: int, b: int)
    by (nonlinear_arith)
    requires
        0 < a,
        0 < b,
    ensures
        0 < a * b,
{
}

/// Specification mirror of [`Scalar::times`].
pub open spec fn spec_times(a: Scalar, b: Scalar) -> Scalar {
    Scalar { num: (a.num * b.num) as i128, den: (a.den * b.den) as i128 }
}

/// Specification mirror of [`Scalar::divided_by`].
pub open spec fn spec_divided_by(a: Scalar, b: Scalar) -> Scalar {
    if b.num > 0 {
        Scalar { num: (a.num * b.den) as i128, den: (a.den * b.num) as i128 }
    } else {
        Scalar { num: (-(a.num * b.den)) as i128, den: (-(a.den * b.num)) as i128 }
    }
}

/// Specification mirror of [`Scalar::plus`].
pub open spec fn spec_plus(a: Scalar, b: Scalar) -> Scalar {
    Scalar { num: (a.num * b.den + b.num * a.den) as i128, den: (a.den * b.den) as i128 }
}

/// Specification mirror of [`Scalar::minus`].
pub open spec fn spec_minus(a: Scalar, b: Scalar) -> Scalar {
    Scalar { num: (a.num * b.den - b.num * a.den) as i128, den: (a.den * b.den) as i128 }
}

/// Specification mirror of [`Scalar::negated`].
pub open spec fn spec_negated(a: Scalar) -> Scalar {
    Scalar { num: (-a.num) as i128, den: a.den }
}

/// Specification mirror of [`Scalar::halved`].
pub open spec fn spec_halved(a: Scalar) -> Scalar {
    Scalar { num: a.num, den: (2 * a.den) as i128 }
}

/// The scalar holding the whole number `v`.
pub open spec fn scalar_of_u32(v: u32) -> Scalar {
    Scalar { num: v as i128, den: 1 }
}

/// The scalar holding half the whole number `v`.
pub open spec fn scalar_half_of_u32(v: u32) -> Scalar {
    Scalar { num: v as i128, den: 2 }
}

impl Scalar {
    /// A denominator of zero or below never arises: every constructor and
    /// operation keeps the denominator positive.
    pub open spec fn wf(self) -> bool {
        0 < self.den
    }

    /// A host-supplied coordinate: well formed and small enough that the
    /// transform engine's products fit in `i128`.
    pub open spec fn bounded(self) -> bool {
        &&& 0 < self.den <= COORD_BOUND
        &&& -COORD_BOUND <= self.num <= COORD_BOUND
    }

    /// The rational value this scalar holds.
    pub open spec fn to_rat(self) -> Rat {
        Rat { n: self.num as int, d: self.den as int }
    }

    /// The whole number `v` as a scalar.
    pub fn from_u32(v: u32) -> (r: Scalar)
        ensures
            r == scalar_of_u32(v),
            r.num == v,
            r.den == 1,
            r.wf(),
    {
        Scalar { num: v as i128, den: 1 }
    }

    /// Half the whole number `v` as a scalar.
    pub fn half_of_u32(v: u32) -> (r: Scalar)
        ensures
            r == scalar_half_of_u32(v),
            r.num == v,
            r.den == 2,
            r.wf(),
    {
        Scalar { num: v as i128, den: 2 }
    }

    /// The signed whole number `v` as a scalar.
    pub fn from_i64(v: i64) -> (r: Scalar)
        ensures
            r.num == v,
            r.den == 1,
            r.wf(),
    {
        Scalar { num: v as i128, den: 1 }
    }

    /// Exact product.
    pub fn times(self, o: Scalar) -> (r: Scalar)
        requires
            self.wf(),
            o.wf(),
            -i128::MAX <= self.num * o.num <= i128::MAX,
            self.den * o.den <= i128::MAX,
        ensures
            r == spec_times(self, o),
            r.num == self.num * o.num,
            r.den == self.den * o.den,
            r.wf(),
            rat_eq(r.to_rat(), rat_mul(self.to_rat(), o.to_rat())),
    {
        proof {
            lemma_prod_pos(self.den as int, o.den as int);
        }
        Scalar { num: self.num * o.num, den: self.den * o.den }
    }

    /// Exact quotient; the divisor must be nonzero.  The result's denominator
    /// is kept positive by moving the divisor's sign into the numerator.
    pub fn divided_by(self, o: Scalar) -> (r: Scalar)
        requires
            self.wf(),
            o.wf(),
            o.num != 0,
            -i128::MAX <= self.num * o.den <= i128::MAX,
            -i128::MAX <= self.den * o.num <= i128::MAX,
        ensures
            r == spec_divided_by(self, o),
            r.wf(),
            rat_eq(r.to_rat(), rat_div(self.to_rat(), o.to_rat())),
    {
        proof {
            if o.num > 0 {
                lemma_prod_pos(self.den as int, o.num as int);
            } else {
                lemma_prod_pos(self.den as int, -o.num as int);
                assert(self.den * -o.num == -(self.den * o.num)) by (nonlinear_arith);
            }
            let an = self.num as int;
            let ad = self.den as int;
            let bn = o.num as int;
            let bd = o.den as int;
            assert(-(an * bd) * (ad * bn) == (an * bd) * -(ad * bn)) by (nonlinear_arith);
        }
        if o.num > 0 {
            Scalar { num: self.num * o.den, den: self.den * o.num }
        } else {
            Scalar { num: -(self.num * o.den), den: -(self.den * o.num) }
        }
    }

    /// Exact sum.
    pub fn plus(self, o: Scalar) -> (r: Scalar)
        requires
            self.wf(),
            o.wf(),
            -i128::MAX <= self.num * o.den <= i128::MAX,
            -i128::MAX <= o.num * self.den <= i128::MAX,
            self.den * o.den <= i128::MAX,
            -i128::MAX <= self.num * o.den + o.num * self.den <= i128::MAX,
        ensures
            r == spec_plus(self, o),
            r.num == self.num * o.den + o.num * self.den,
            r.den == self.den * o.den,
            r.wf(),
            rat_eq(r.to_rat(), rat_add(self.to_rat(), o.to_rat())),
    {
        proof {
            lemma_prod_pos(self.den as int, o.den as int);
        }
        Scalar { num: self.num * o.den + o.num * self.den, den: self.den * o.den }
    }

    /// Exact difference.
    pub fn minus(self, o: Scalar) -> (r: Scalar)
        requires
            self.wf(),
            o.wf(),
            -i128::MAX <= self.num * o.den <= i128::MAX,
            -i128::MAX <= o.num * self.den <= i128::MAX,
            self.den * o.den <= i128::MAX,
            -i128::MAX <= self.num * o.den - o.num * self.den <= i128::MAX,
        ensures
            r == spec_minus(self, o),
            r.num == self.num * o.den - o.num * self.den,
            r.den == self.den * o.den,
            r.wf(),
            rat_eq(r.to_rat(), rat_sub(self.to_rat(), o.to_rat())),
    {
        proof {
            lemma_prod_pos(self.den as int, o.den as int);
        }
        Scalar { num: self.num * o.den - o.num * self.den, den: self.den * o.den }
    }

    /// Exact negation.
    pub fn negated(self) -> (r: Scalar)
        requires
            -i128::MAX <= self.num,
        ensures
            r == spec_negated(self),
            r.num == -self.num,
            r.den == self.den,
            rat_eq(r.to_rat(), rat_neg(self.to_rat())),
    {
        Scalar { num: -self.num, den: self.den }
    }

    /// Exact halving.
    pub fn halved(self) -> (r: Scalar)
        requires
            self.wf(),
            2 * self.den <= i128::MAX,
        ensures
            r == spec_halved(self),
            r.num == self.num,
            r.den == 2 * self.den,
            r.wf(),
            rat_eq(r.to_rat(), rat_half(self.to_rat())),
    {
        Scalar { num: self.num, den: 2 * self.den }
    }
}

} // verus!
