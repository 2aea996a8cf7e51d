use vstd::prelude::*;

use crate::text::{append_decimal, decimal};

verus! {

/// A mathematical vector: three unbounded integer coordinates.
pub type Triple = (int, int, int);

/// Whether an integer is representable as an `i64`.
pub open spec fn fits_i64(v: int) -> bool {
    i64::MIN <= v <= i64::MAX
}

/// Whether every coordinate of a mathematical vector is representable as an `i64`.
pub open spec fn fits(v: Triple) -> bool {
    fits_i64(v.0) && fits_i64(v.1) && fits_i64(v.2)
}

/// Component-wise sum.
pub open spec fn vadd(a: Triple, b: Triple) -> Triple {
    (a.0 + b.0, a.1 + b.1, a.2 + b.2)
}

/// Component-wise difference.
pub open spec fn vsub(a: Triple, b: Triple) -> Triple {
    (a.0 - b.0, a.1 - b.1, a.2 - b.2)
}

/// Component-wise negation.
pub open spec fn vneg(a: Triple) -> Triple {
    (-a.0, -a.1, -a.2)
}

/// Component-wise product.
pub open spec fn vmul(a: Triple, b: Triple) -> Triple {
    (a.0 * b.0, a.1 * b.1, a.2 * b.2)
}

/// Every coordinate multiplied by the scalar `k`.
pub open spec fn vscale(k: int, a: Triple) -> Triple {
    (k * a.0, k * a.1, k * a.2)
}

/// Inner product.
pub open spec fn dot(a: Triple, b: Triple) -> int {
    a.0 * b.0 + a.1 * b.1 + a.2 * b.2
}

/// Right-handed cross product.
pub open spec fn cross(a: Triple, b: Triple) -> Triple {
    (a.1 * b.2 - a.2 * b.1, a.2 * b.0 - a.0 * b.2, a.0 * b.1 - a.1 * b.0)
}

/// Squared length: the inner product of a vector with itself.
pub open spec fn length_sq(a: Triple) -> int {
    dot(a, a)
}

/// Mirror image of `v` about the normal `n`: `v - 2 (v . n) n`.
pub open spec fn reflected(v: Triple, n: Triple) -> Triple {
    vsub(v, vscale(2 * dot(v, n), n))
}

/// The coordinates as three decimal numbers separated by single spaces, in x, y, z order.
pub open spec fn text_of(v: Triple) -> Seq<char> {
    decimal(v.0) + seq![' '] + decimal(v.1) + seq![' '] + decimal(v.2)
}

/// Whether the inner product and each of its three terms are representable as `i64`,
/// so that it can be computed exactly.
pub open spec fn dot_fits(a: Triple, b: Triple) -> bool {
    fits(vmul(a, b)) && fits_i64(dot(a, b))
}

/// Whether the cross product and each product in its formula are representable as `i64`.
pub open spec fn cross_fits(a: Triple, b: Triple) -> bool {
    fits(vmul(a, (b.1, b.2, b.0))) && fits(vmul(a, (b.2, b.0, b.1))) && fits(cross(a, b))
}

/// Whether every intermediate value of the reflection of `v` about `n`, and its result,
/// are representable as `i64`.
pub open spec fn reflect_fits(v: Triple, n: Triple) -> bool {
    dot_fits(v, n) && fits(vscale(2 * dot(v, n), n)) && fits(reflected(v, n))
}

/// A vector with three integer coordinates, used as a point, a direction or a color.
#[derive(Clone, Copy, Debug, PartialEq, Eq, Structural)]
pub struct IVec3 {
    pub x: i64,
    pub y: i64,
    pub z: i64,
}

impl View for IVec3 {
    type V = Triple;

    open spec fn view(&self) -> Triple {
        (self.x as int, self.y as int, self.z as int)
    }
}

impl IVec3 {
    /// The zero vector.
    pub fn new() -> (r: IVec3)
        ensures
            r@ == (0int, 0int, 0int),
    {
        IVec3 { x: 0, y: 0, z: 0 }
    }

    /// A vector with the given coordinates.
    pub fn from(x: i64, y: i64, z: i64) -> (r: IVec3)
        ensures
            r@ == (x as int, y as int, z as int),
    {
        IVec3 { x, y, z }
    }

    /// Component-wise negation.
    pub fn neg(self) -> (r: IVec3)
        requires
            fits(vneg(self@)),
        ensures
            r@ == vneg(self@),
    {
        IVec3 { x: -self.x, y: -self.y, z: -self.z }
    }

    /// Component-wise sum of two vectors.
    pub fn add(self, rhs: IVec3) -> (r: IVec3)
        requires
            fits(vadd(self@, rhs@)),
        ensures
            r@ == vadd(self@, rhs@),
    {
        IVec3 { x: self.x + rhs.x, y: self.y + rhs.y, z: self.z + rhs.z }
    }

    /// Component-wise difference of two vectors.
    pub fn sub(self, rhs: IVec3) -> (r: IVec3)
        requires
            fits(vsub(self@, rhs@)),
        ensures
            r@ == vsub(self@, rhs@),
    {
        IVec3 { x: self.x - rhs.x, y: self.y - rhs.y, z: self.z - rhs.z }
    }

    /// Component-wise product of two vectors.
    pub fn mul(self, rhs: IVec3) -> (r: IVec3)
        requires
            fits(vmul(self@, rhs@)),
        ensures
            r@ == vmul(self@, rhs@),
    {
        IVec3 { x: self.x * rhs.x, y: self.y * rhs.y, z: self.z * rhs.z }
    }

    /// Every coordinate multiplied by the scalar `k`.
    pub fn scale(self, k: i64) -> (r: IVec3)
        requires
            fits(vscale(k as int, self@)),
        ensures
            r@ == vscale(k as int, self@),
    {
        IVec3 { x: k * self.x, y: k * self.y, z: k * self.z }
    }

    /// Adds `rhs` to this vector in place.
    pub fn add_assign(&mut self, rhs: IVec3)
        requires
            fits(vadd(old(self)@, rhs@)),
        ensures
            final(self)@ == vadd(old(self)@, rhs@),
    {
        self.x = self.x + rhs.x;
        self.y = self.y + rhs.y;
        self.z = self.z + rhs.z;
    }

    /// Multiplies this vector by the scalar `k` in place.
    pub fn scale_assign(&mut self, k: i64)
        requires
            fits(vscale(k as int, old(self)@)),
        ensures
            final(self)@ == vscale(k as int, old(self)@),
    {
        self.x = k * self.x;
        self.y = k * self.y;
        self.z = k * self.z;
    }

    /// Squared length of the vector.
    pub fn length_squared(&self) -> (r: i64)
        requires
            dot_fits(self@, self@),
        ensures
            r == length_sq(self@),
    {
        dot_product(*self, *self)
    }

    /// Whether every coordinate is zero: the vector carries no contribution.
    pub fn near_zero(&self) -> (r: bool)
        ensures
            r == (self@ == (0int, 0int, 0int)),
    {
        self.x == 0 && self.y == 0 && self.z == 0
    }

    /// The coordinates as three decimal numbers separated by single spaces, in x, y, z order.
    pub fn to_text(&self) -> (r: String)
        ensures
            r@ == text_of(self@),
    {
        proof {
            reveal_strlit(" ");
        }
        let mut s = String::new();
        append_decimal(&mut s, self.x);
        s.append(" ");
        append_decimal(&mut s, self.y);
        s.append(" ");
        append_decimal(&mut s, self.z);
        assert(s@ =~= text_of(self@));
        s
    }
}

/// Inner product of two vectors.
pub fn dot_product(a: IVec3, b: IVec3) -> (r: i64)
    requires
        dot_fits(a@, b@),
    ensures
        r == dot(a@, b@),
{
    let s: i128 = (a.x as i128) * (b.x as i128) + (a.y as i128) * (b.y as i128) + (a.z as i128)
        * (b.z as i128);
    s as i64
}

/// Right-handed cross product of two vectors.
pub fn cross_product(a: IVec3, b: IVec3) -> (r: IVec3)
    requires
        cross_fits(a@, b@),
    ensures
        r@ == cross(a@, b@),
{
    let x: i128 = (a.y as i128) * (b.z as i128) - (a.z as i128) * (b.y as i128);
    let y: i128 = (a.z as i128) * (b.x as i128) - (a.x as i128) * (b.z as i128);
    let z: i128 = (a.x as i128) * (b.y as i128) - (a.y as i128) * (b.x as i128);
    IVec3 { x: x as i64, y: y as i64, z: z as i64 }
}

/// Mirror-reflects the incident vector `v` about the normal `n`: `v - 2 (v . n) n`.
/// The normal is used as given; it is the caller's to normalize.
pub fn reflect(v: IVec3, n: IVec3) -> (r: IVec3)
    requires
        reflect_fits(v@, n@),
    ensures
        r@ == reflected(v@, n@),
{
    let d: i64 = dot_product(v, n);
    let twice: i128 = 2 * (d as i128);
    let x: i128 = (v.x as i128) - twice * (n.x as i128);
    let y: i128 = (v.y as i128) - twice * (n.y as i128);
    let z: i128 = (v.z as i128) - twice * (n.z as i128);
    IVec3 { x: x as i64, y: y as i64, z: z as i64 }
}

/// The sampled direction `u` turned into the hemisphere around `normal`: `u` itself when
/// it points strictly into that hemisphere, otherwise its negation.
pub fn orient_to_hemisphere(u: IVec3, normal: IVec3) -> (r: IVec3)
    requires
        dot_fits(u@, normal@),
        fits(vneg(u@)),
    ensures
        r@ == (if dot(u@, normal@) > 0 { u@ } else { vneg(u@) }),
        dot(r@, normal@) >= 0,
{
    if dot_product(u, normal) > 0 {
        u
    } else {
        assert(dot(vneg(u@), normal@) == -dot(u@, normal@)) by (nonlinear_arith);
        u.neg()
    }
}

} // verus!

verus! {

/// The inner product is commutative: `a . b == b . a`.
pub proof fn lemma_dot_commutative(a: Triple, b: Triple)
    ensures
        dot(a, b) == dot(b, a),
{
    assert(dot(a, b) == dot(b, a)) by (nonlinear_arith);
}

/// The cross product is anti-commutative: `a x b == -(b x a)`.
pub proof fn lemma_cross_anticommutative(a: Triple, b: Triple)
    ensures
        cross(a, b) == vneg(cross(b, a)),
{
    assert(cross(a, b) == vneg(cross(b, a))) by (nonlinear_arith);
}

/// The cross product is orthogonal to both of its operands.
pub proof fn lemma_cross_orthogonal(a: Triple, b: Triple)
    ensures
        dot(a, cross(a, b)) == 0,
        dot(b, cross(a, b)) == 0,
{
    assert(dot(a, cross(a, b)) == 0) by (nonlinear_arith);
    assert(dot(b, cross(a, b)) == 0) by (nonlinear_arith);
}

proof fn lemma_sub_scaled_times(a: int, t: int, b: int, c: int)
    by (nonlinear_arith)
    ensures
        (a - t * b) * c == a * c - t * (b * c),
{
}

proof fn lemma_sub_scaled_squared(a: int, t: int, b: int)
    by (nonlinear_arith)
    ensures
        (a - t * b) * (a - t * b) == a * a - 2 * t * (a * b) + (t * t) * (b * b),
{
}

proof fn lemma_distribute3(t: int, p: int, q: int, r: int)
    by (nonlinear_arith)
    ensures
        t * p + t * q + t * r == t * (p + q + r),
{
}

/// Reflection about a unit normal reverses the component along the normal: the angle of
/// incidence equals the angle of reflection.
pub proof fn lemma_reflect_mirrors(v: Triple, n: Triple)
    requires
        length_sq(n) == 1,
    ensures
        dot(reflected(v, n), n) == -dot(v, n),
{
    let t = 2 * dot(v, n);
    lemma_sub_scaled_times(v.0, t, n.0, n.0);
    lemma_sub_scaled_times(v.1, t, n.1, n.1);
    lemma_sub_scaled_times(v.2, t, n.2, n.2);
    lemma_distribute3(t, n.0 * n.0, n.1 * n.1, n.2 * n.2);
}

/// Reflection about a unit normal keeps the length of the incident vector.
pub proof fn lemma_reflect_keeps_length(v: Triple, n: Triple)
    requires
        length_sq(n) == 1,
    ensures
        length_sq(reflected(v, n)) == length_sq(v),
{
    let d = dot(v, n);
    let t = 2 * d;
    lemma_sub_scaled_squared(v.0, t, n.0);
    lemma_sub_scaled_squared(v.1, t, n.1);
    lemma_sub_scaled_squared(v.2, t, n.2);
    lemma_distribute3(2 * t, v.0 * n.0, v.1 * n.1, v.2 * n.2);
    lemma_distribute3(t * t, n.0 * n.0, n.1 * n.1, n.2 * n.2);
    assert(2 * t * d == t * t) by (nonlinear_arith)
        requires
            t == 2 * d,
    ;
}

} // verus!
