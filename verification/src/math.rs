//! Fixed-point linear algebra for the scene graph.
//!
//! Every scalar is an `i64` holding a real value scaled by `SCALE`, so the
//! value `1.0` is stored as `SCALE`. A rotation about a coordinate axis is
//! given by the scaled cosine and sine of its angle, which keeps the matrix
//! algebra exact and lets the composition laws of the renderer be proved as
//! theorems instead of approximations. Homogeneous 4x4 matrices compose by
//! fixed-point multiplication: each entry of a product is the 4-term dot
//! product of a row and a column, scaled back down by a floor division.

use vstd::prelude::*;
use vstd::arithmetic::div_mod::{
    lemma_div_multiples_vanish, lemma_fundamental_div_mod,
    lemma_fundamental_div_mod_converse, lemma_hoist_over_denominator,
};

verus! {

/// Number of integer units that represent the real value `1.0`.
pub const SCALE: i64 = 65536;

/// Largest magnitude a matrix entry may have; chosen so that a 4-term dot
/// product of entries can never overflow an `i128` accumulator.
pub const ENTRY_MAX: i64 = 0x3FFF_FFFF_FFFF_FFFF;

/// Scaling a product back down: floor division by `SCALE`.
pub open spec fn sdiv(v: int) -> int {
    v / (SCALE as int)
}

/// A point or translation, one scaled scalar per axis.
#[derive(Clone, Copy, PartialEq, Eq, Structural, Debug)]
pub struct Vec3 {
    pub x: i64,
    pub y: i64,
    pub z: i64,
}

pub open spec fn vec3_wf(v: Vec3) -> bool {
    &&& -(ENTRY_MAX as int) <= v.x <= ENTRY_MAX as int
    &&& -(ENTRY_MAX as int) <= v.y <= ENTRY_MAX as int
    &&& -(ENTRY_MAX as int) <= v.z <= ENTRY_MAX as int
}

impl Vec3 {
    pub fn new(x: i64, y: i64, z: i64) -> (r: Vec3)
        ensures
            r.x == x && r.y == y && r.z == z,
    {
        Vec3 { x, y, z }
    }

    pub fn zero() -> (r: Vec3)
        ensures
            r.x == 0 && r.y == 0 && r.z == 0,
            vec3_wf(r),
    {
        Vec3 { x: 0, y: 0, z: 0 }
    }

    pub fn neg(&self) -> (r: Vec3)
        requires
            vec3_wf(*self),
        ensures
            r.x == -self.x && r.y == -self.y && r.z == -self.z,
            vec3_wf(r),
    {
        Vec3 { x: -self.x, y: -self.y, z: -self.z }
    }
}

/// A rotation about one coordinate axis, as scaled cosine and sine.
#[derive(Clone, Copy, PartialEq, Eq, Structural, Debug)]
pub struct Rot {
    pub c: i64,
    pub s: i64,
}

pub open spec fn rot_wf(r: Rot) -> bool {
    &&& -(SCALE as int) <= r.c <= SCALE as int
    &&& -(SCALE as int) <= r.s <= SCALE as int
}

/// The rotation by a zero angle: cosine one, sine zero.
pub open spec fn rot_is_zero(r: Rot) -> bool {
    r.c == SCALE as int && r.s == 0
}

impl Rot {
    pub fn new(c: i64, s: i64) -> (r: Rot)
        ensures
            r.c == c && r.s == s,
    {
        Rot { c, s }
    }

    pub fn zero() -> (r: Rot)
        ensures
            rot_is_zero(r),
            rot_wf(r),
    {
        Rot { c: SCALE, s: 0 }
    }
}

/// Mathematical model of a 4x4 matrix: unbounded integer entries, row-major.
pub ghost struct M4 {
    pub e00: int, pub e01: int, pub e02: int, pub e03: int,
    pub e10: int, pub e11: int, pub e12: int, pub e13: int,
    pub e20: int, pub e21: int, pub e22: int, pub e23: int,
    pub e30: int, pub e31: int, pub e32: int, pub e33: int,
}

/// All entries small enough to take part in another product.
pub open spec fn m4_wf(m: M4) -> bool {
    &&& -(ENTRY_MAX as int) <= m.e00 <= ENTRY_MAX as int
    &&& -(ENTRY_MAX as int) <= m.e01 <= ENTRY_MAX as int
    &&& -(ENTRY_MAX as int) <= m.e02 <= ENTRY_MAX as int
    &&& -(ENTRY_MAX as int) <= m.e03 <= ENTRY_MAX as int
    &&& -(ENTRY_MAX as int) <= m.e10 <= ENTRY_MAX as int
    &&& -(ENTRY_MAX as int) <= m.e11 <= ENTRY_MAX as int
    &&& -(ENTRY_MAX as int) <= m.e12 <= ENTRY_MAX as int
    &&& -(ENTRY_MAX as int) <= m.e13 <= ENTRY_MAX as int
    &&& -(ENTRY_MAX as int) <= m.e20 <= ENTRY_MAX as int
    &&& -(ENTRY_MAX as int) <= m.e21 <= ENTRY_MAX as int
    &&& -(ENTRY_MAX as int) <= m.e22 <= ENTRY_MAX as int
    &&& -(ENTRY_MAX as int) <= m.e23 <= ENTRY_MAX as int
    &&& -(ENTRY_MAX as int) <= m.e30 <= ENTRY_MAX as int
    &&& -(ENTRY_MAX as int) <= m.e31 <= ENTRY_MAX as int
    &&& -(ENTRY_MAX as int) <= m.e32 <= ENTRY_MAX as int
    &&& -(ENTRY_MAX as int) <= m.e33 <= ENTRY_MAX as int
}

/// An affine map: bottom row is `(0, 0, 0, 1)` in fixed-point form.
/// Translations, axis rotations and their products all satisfy this;
/// a perspective projection does not.
pub open spec fn m4_affine(m: M4) -> bool {
    &&& m.e30 == 0
    &&& m.e31 == 0
    &&& m.e32 == 0
    &&& m.e33 == SCALE as int
}

pub open spec fn sm_identity() -> M4 {
    M4 {
        e00: SCALE as int, e01: 0, e02: 0, e03: 0,
        e10: 0, e11: SCALE as int, e12: 0, e13: 0,
        e20: 0, e21: 0, e22: SCALE as int, e23: 0,
        e30: 0, e31: 0, e32: 0, e33: SCALE as int,
    }
}

pub open spec fn sm_translation(x: int, y: int, z: int) -> M4 {
    M4 {
        e00: SCALE as int, e01: 0, e02: 0, e03: x,
        e10: 0, e11: SCALE as int, e12: 0, e13: y,
        e20: 0, e21: 0, e22: SCALE as int, e23: z,
        e30: 0, e31: 0, e32: 0, e33: SCALE as int,
    }
}

pub open spec fn sm_rot_x(c: int, s: int) -> M4 {
    M4 {
        e00: SCALE as int, e01: 0, e02: 0, e03: 0,
        e10: 0, e11: c, e12: -s, e13: 0,
        e20: 0, e21: s, e22: c, e23: 0,
        e30: 0, e31: 0, e32: 0, e33: SCALE as int,
    }
}

pub open spec fn sm_rot_y(c: int, s: int) -> M4 {
    M4 {
        e00: c, e01: 0, e02: s, e03: 0,
        e10: 0, e11: SCALE as int, e12: 0, e13: 0,
        e20: -s, e21: 0, e22: c, e23: 0,
        e30: 0, e31: 0, e32: 0, e33: SCALE as int,
    }
}

pub open spec fn sm_rot_z(c: int, s: int) -> M4 {
    M4 {
        e00: c, e01: -s, e02: 0, e03: 0,
        e10: s, e11: c, e12: 0, e13: 0,
        e20: 0, e21: 0, e22: SCALE as int, e23: 0,
        e30: 0, e31: 0, e32: 0, e33: SCALE as int,
    }
}

/// The same matrix with its translation column moved by `(tx, ty, tz)`.
pub open spec fn sm_shift(m: M4, tx: int, ty: int, tz: int) -> M4 {
    M4 { e03: m.e03 + tx, e13: m.e13 + ty, e23: m.e23 + tz, ..m }
}

/// Fixed-point matrix product: 4-term dot products, scaled back down.
pub open spec fn sm_mul(a: M4, b: M4) -> M4 {
    M4 {
        e00: sdiv(a.e00 * b.e00 + a.e01 * b.e10 + a.e02 * b.e20 + a.e03 * b.e30),
        e01: sdiv(a.e00 * b.e01 + a.e01 * b.e11 + a.e02 * b.e21 + a.e03 * b.e31),
        e02: sdiv(a.e00 * b.e02 + a.e01 * b.e12 + a.e02 * b.e22 + a.e03 * b.e32),
        e03: sdiv(a.e00 * b.e03 + a.e01 * b.e13 + a.e02 * b.e23 + a.e03 * b.e33),
        e10: sdiv(a.e10 * b.e00 + a.e11 * b.e10 + a.e12 * b.e20 + a.e13 * b.e30),
        e11: sdiv(a.e10 * b.e01 + a.e11 * b.e11 + a.e12 * b.e21 + a.e13 * b.e31),
        e12: sdiv(a.e10 * b.e02 + a.e11 * b.e12 + a.e12 * b.e22 + a.e13 * b.e32),
        e13: sdiv(a.e10 * b.e03 + a.e11 * b.e13 + a.e12 * b.e23 + a.e13 * b.e33),
        e20: sdiv(a.e20 * b.e00 + a.e21 * b.e10 + a.e22 * b.e20 + a.e23 * b.e30),
        e21: sdiv(a.e20 * b.e01 + a.e21 * b.e11 + a.e22 * b.e21 + a.e23 * b.e31),
        e22: sdiv(a.e20 * b.e02 + a.e21 * b.e12 + a.e22 * b.e22 + a.e23 * b.e32),
        e23: sdiv(a.e20 * b.e03 + a.e21 * b.e13 + a.e22 * b.e23 + a.e23 * b.e33),
        e30: sdiv(a.e30 * b.e00 + a.e31 * b.e10 + a.e32 * b.e20 + a.e33 * b.e30),
        e31: sdiv(a.e30 * b.e01 + a.e31 * b.e11 + a.e32 * b.e21 + a.e33 * b.e31),
        e32: sdiv(a.e30 * b.e02 + a.e31 * b.e12 + a.e32 * b.e22 + a.e33 * b.e32),
        e33: sdiv(a.e30 * b.e03 + a.e31 * b.e13 + a.e32 * b.e23 + a.e33 * b.e33),
    }
}

/// Fixed-point image of the point `(x, y, z)` under an affine matrix.
pub open spec fn sm_apply_x(m: M4, x: int, y: int, z: int) -> int {
    sdiv(m.e00 * x + m.e01 * y + m.e02 * z + m.e03 * (SCALE as int))
}

pub open spec fn sm_apply_y(m: M4, x: int, y: int, z: int) -> int {
    sdiv(m.e10 * x + m.e11 * y + m.e12 * z + m.e13 * (SCALE as int))
}

pub open spec fn sm_apply_z(m: M4, x: int, y: int, z: int) -> int {
    sdiv(m.e20 * x + m.e21 * y + m.e22 * z + m.e23 * (SCALE as int))
}

/// Executable 4x4 matrix of scaled entries, row-major.
#[derive(Clone, Copy, PartialEq, Eq, Structural, Debug)]
pub struct Mat4 {
    pub e00: i64, pub e01: i64, pub e02: i64, pub e03: i64,
    pub e10: i64, pub e11: i64, pub e12: i64, pub e13: i64,
    pub e20: i64, pub e21: i64, pub e22: i64, pub e23: i64,
    pub e30: i64, pub e31: i64, pub e32: i64, pub e33: i64,
}

impl View for Mat4 {
    type V = M4;

    open spec fn view(&self) -> M4 {
        M4 {
            e00: self.e00 as int, e01: self.e01 as int,
            e02: self.e02 as int, e03: self.e03 as int,
            e10: self.e10 as int, e11: self.e11 as int,
            e12: self.e12 as int, e13: self.e13 as int,
            e20: self.e20 as int, e21: self.e21 as int,
            e22: self.e22 as int, e23: self.e23 as int,
            e30: self.e30 as int, e31: self.e31 as int,
            e32: self.e32 as int, e33: self.e33 as int,
        }
    }
}

impl Mat4 {
    pub fn identity() -> (r: Mat4)
        ensures
            r@ == sm_identity(),
            m4_wf(r@),
    {
        Mat4 {
            e00: SCALE, e01: 0, e02: 0, e03: 0,
            e10: 0, e11: SCALE, e12: 0, e13: 0,
            e20: 0, e21: 0, e22: SCALE, e23: 0,
            e30: 0, e31: 0, e32: 0, e33: SCALE,
        }
    }

    pub fn translation(v: Vec3) -> (r: Mat4)
        requires
            vec3_wf(v),
        ensures
            r@ == sm_translation(v.x as int, v.y as int, v.z as int),
            m4_wf(r@),
    {
        Mat4 {
            e00: SCALE, e01: 0, e02: 0, e03: v.x,
            e10: 0, e11: SCALE, e12: 0, e13: v.y,
            e20: 0, e21: 0, e22: SCALE, e23: v.z,
            e30: 0, e31: 0, e32: 0, e33: SCALE,
        }
    }

    pub fn rotation_x(r: Rot) -> (m: Mat4)
        requires
            rot_wf(r),
        ensures
            m@ == sm_rot_x(r.c as int, r.s as int),
            m4_wf(m@),
    {
        Mat4 {
            e00: SCALE, e01: 0, e02: 0, e03: 0,
            e10: 0, e11: r.c, e12: -r.s, e13: 0,
            e20: 0, e21: r.s, e22: r.c, e23: 0,
            e30: 0, e31: 0, e32: 0, e33: SCALE,
        }
    }

    pub fn rotation_y(r: Rot) -> (m: Mat4)
        requires
            rot_wf(r),
        ensures
            m@ == sm_rot_y(r.c as int, r.s as int),
            m4_wf(m@),
    {
        Mat4 {
            e00: r.c, e01: 0, e02: r.s, e03: 0,
            e10: 0, e11: SCALE, e12: 0, e13: 0,
            e20: -r.s, e21: 0, e22: r.c, e23: 0,
            e30: 0, e31: 0, e32: 0, e33: SCALE,
        }
    }

    pub fn rotation_z(r: Rot) -> (m: Mat4)
        requires
            rot_wf(r),
        ensures
            m@ == sm_rot_z(r.c as int, r.s as int),
            m4_wf(m@),
    {
        Mat4 {
            e00: r.c, e01: -r.s, e02: 0, e03: 0,
            e10: r.s, e11: r.c, e12: 0, e13: 0,
            e20: 0, e21: 0, e22: SCALE, e23: 0,
            e30: 0, e31: 0, e32: 0, e33: SCALE,
        }
    }

    /// Fixed-point matrix product. Returns `None` exactly when some entry of
    /// the mathematical product is too large for further use.
    pub fn mul(&self, other: &Mat4) -> (r: Option<Mat4>)
        requires
            m4_wf(self@),
            m4_wf(other@),
        ensures
            r is Some <==> m4_wf(sm_mul(self@, other@)),
            r matches Some(m) ==> m@ == sm_mul(self@, other@),
    {
        let a = self;
        let b = other;
        let e00 = match dot4(a.e00, a.e01, a.e02, a.e03, b.e00, b.e10, b.e20, b.e30) {
            Some(v) => v,
            None => { return None; },
        };
        let e01 = match dot4(a.e00, a.e01, a.e02, a.e03, b.e01, b.e11, b.e21, b.e31) {
            Some(v) => v,
            None => { return None; },
        };
        let e02 = match dot4(a.e00, a.e01, a.e02, a.e03, b.e02, b.e12, b.e22, b.e32) {
            Some(v) => v,
            None => { return None; },
        };
        let e03 = match dot4(a.e00, a.e01, a.e02, a.e03, b.e03, b.e13, b.e23, b.e33) {
            Some(v) => v,
            None => { return None; },
        };
        let e10 = match dot4(a.e10, a.e11, a.e12, a.e13, b.e00, b.e10, b.e20, b.e30) {
            Some(v) => v,
            None => { return None; },
        };
        let e11 = match dot4(a.e10, a.e11, a.e12, a.e13, b.e01, b.e11, b.e21, b.e31) {
            Some(v) => v,
            None => { return None; },
        };
        let e12 = match dot4(a.e10, a.e11, a.e12, a.e13, b.e02, b.e12, b.e22, b.e32) {
            Some(v) => v,
            None => { return None; },
        };
        let e13 = match dot4(a.e10, a.e11, a.e12, a.e13, b.e03, b.e13, b.e23, b.e33) {
            Some(v) => v,
            None => { return None; },
        };
        let e20 = match dot4(a.e20, a.e21, a.e22, a.e23, b.e00, b.e10, b.e20, b.e30) {
            Some(v) => v,
            None => { return None; },
        };
        let e21 = match dot4(a.e20, a.e21, a.e22, a.e23, b.e01, b.e11, b.e21, b.e31) {
            Some(v) => v,
            None => { return None; },
        };
        let e22 = match dot4(a.e20, a.e21, a.e22, a.e23, b.e02, b.e12, b.e22, b.e32) {
            Some(v) => v,
            None => { return None; },
        };
        let e23 = match dot4(a.e20, a.e21, a.e22, a.e23, b.e03, b.e13, b.e23, b.e33) {
            Some(v) => v,
            None => { return None; },
        };
        let e30 = match dot4(a.e30, a.e31, a.e32, a.e33, b.e00, b.e10, b.e20, b.e30) {
            Some(v) => v,
            None => { return None; },
        };
        let e31 = match dot4(a.e30, a.e31, a.e32, a.e33, b.e01, b.e11, b.e21, b.e31) {
            Some(v) => v,
            None => { return None; },
        };
        let e32 = match dot4(a.e30, a.e31, a.e32, a.e33, b.e02, b.e12, b.e22, b.e32) {
            Some(v) => v,
            None => { return None; },
        };
        let e33 = match dot4(a.e30, a.e31, a.e32, a.e33, b.e03, b.e13, b.e23, b.e33) {
            Some(v) => v,
            None => { return None; },
        };
        Some(Mat4 {
            e00, e01, e02, e03,
            e10, e11, e12, e13,
            e20, e21, e22, e23,
            e30, e31, e32, e33,
        })
    }
}

/// Magnitude bound on a product of two bounded factors.
proof fn lemma_abs_mul_le(a: int, b: int, m: int)
    requires
        -m <= a <= m,
        -m <= b <= m,
        0 <= m,
    ensures
        -(m * m) <= a * b <= m * m,
{
    assert(-(m * m) <= a * b <= m * m) by (nonlinear_arith)
        requires
            -m <= a <= m,
            -m <= b <= m,
            0 <= m,
    ;
}

/// Floor division of a wide accumulator by `SCALE`.
fn scale_down(v: i128) -> (r: i128)
    requires
        i128::MIN < v,
    ensures
        r == sdiv(v as int),
{
    if v >= 0 {
        let vu: u128 = v as u128;
        let q: u128 = vu / (SCALE as u128);
        proof {
            assert(vu == v as int);
            assert(q == (v as int) / (SCALE as int));
            assert(0 <= q <= vu) by {
                lemma_fundamental_div_mod(vu as int, SCALE as int);
            };
        }
        q as i128
    } else {
        let nu: u128 = (-v) as u128;
        let q: u128 = nu / (SCALE as u128);
        let rem: u128 = nu % (SCALE as u128);
        proof {
            assert(nu == -(v as int));
            lemma_fundamental_div_mod(nu as int, SCALE as int);
            assert(nu == (SCALE as int) * (q as int) + rem);
            assert(0 <= q <= nu);
        }
        if rem == 0 {
            proof {
                assert(v as int == (SCALE as int) * (-(q as int)));
                lemma_div_multiples_vanish(-(q as int), SCALE as int);
            }
            -(q as i128)
        } else {
            proof {
                assert(v as int == (-(q as int) - 1) * (SCALE as int) + ((SCALE as int) - rem)) by {
                    assert(nu == (SCALE as int) * (q as int) + rem);
                };
                lemma_fundamental_div_mod_converse(
                    v as int, SCALE as int, -(q as int) - 1, (SCALE as int) - (rem as int));
            }
            -(q as i128) - 1
        }
    }
}

/// One entry of a fixed-point matrix product: dot a row with a column and
/// scale back down, refusing results too large for further composition.
fn dot4(a0: i64, a1: i64, a2: i64, a3: i64, b0: i64, b1: i64, b2: i64, b3: i64) -> (r: Option<i64>)
    requires
        -(ENTRY_MAX as int) <= a0 <= ENTRY_MAX as int,
        -(ENTRY_MAX as int) <= a1 <= ENTRY_MAX as int,
        -(ENTRY_MAX as int) <= a2 <= ENTRY_MAX as int,
        -(ENTRY_MAX as int) <= a3 <= ENTRY_MAX as int,
        -(ENTRY_MAX as int) <= b0 <= ENTRY_MAX as int,
        -(ENTRY_MAX as int) <= b1 <= ENTRY_MAX as int,
        -(ENTRY_MAX as int) <= b2 <= ENTRY_MAX as int,
        -(ENTRY_MAX as int) <= b3 <= ENTRY_MAX as int,
    ensures
        r is Some <==> -(ENTRY_MAX as int) <= sdiv(a0 * b0 + a1 * b1 + a2 * b2 + a3 * b3)
            <= ENTRY_MAX as int,
        r matches Some(v) ==> v == sdiv(a0 * b0 + a1 * b1 + a2 * b2 + a3 * b3),
{
    proof {
        lemma_abs_mul_le(a0 as int, b0 as int, ENTRY_MAX as int);
        lemma_abs_mul_le(a1 as int, b1 as int, ENTRY_MAX as int);
        lemma_abs_mul_le(a2 as int, b2 as int, ENTRY_MAX as int);
        lemma_abs_mul_le(a3 as int, b3 as int, ENTRY_MAX as int);
    }
    let p0: i128 = (a0 as i128) * (b0 as i128);
    let p1: i128 = (a1 as i128) * (b1 as i128);
    let p2: i128 = (a2 as i128) * (b2 as i128);
    let p3: i128 = (a3 as i128) * (b3 as i128);
    let sum: i128 = p0 + p1 + p2 + p3;
    let q: i128 = scale_down(sum);
    if -(ENTRY_MAX as i128) <= q && q <= ENTRY_MAX as i128 {
        Some(q as i64)
    } else {
        None
    }
}

/// Scaling an exact multiple of `SCALE` back down recovers the factor.
pub proof fn lemma_sdiv_mult(x: int)
    ensures
        sdiv((SCALE as int) * x) == x,
{
    lemma_div_multiples_vanish(x, SCALE as int);
}

/// Adding a whole number of units to a dot product moves the scaled result
/// by exactly that number: floor division is translation-friendly.
pub proof fn lemma_sdiv_add_mult(v: int, x: int)
    ensures
        sdiv(v + x * (SCALE as int)) == sdiv(v) + x,
{
    lemma_hoist_over_denominator(v, x, SCALE as nat);
}

/// The identity matrix is neutral on the left.
pub proof fn lemma_identity_left(m: M4)
    ensures
        sm_mul(sm_identity(), m) == m,
{
    lemma_sdiv_mult(m.e00); lemma_sdiv_mult(m.e01); lemma_sdiv_mult(m.e02); lemma_sdiv_mult(m.e03);
    lemma_sdiv_mult(m.e10); lemma_sdiv_mult(m.e11); lemma_sdiv_mult(m.e12); lemma_sdiv_mult(m.e13);
    lemma_sdiv_mult(m.e20); lemma_sdiv_mult(m.e21); lemma_sdiv_mult(m.e22); lemma_sdiv_mult(m.e23);
    lemma_sdiv_mult(m.e30); lemma_sdiv_mult(m.e31); lemma_sdiv_mult(m.e32); lemma_sdiv_mult(m.e33);
}

/// The identity matrix is neutral on the right.
pub proof fn lemma_identity_right(m: M4)
    ensures
        sm_mul(m, sm_identity()) == m,
{
    lemma_sdiv_mult(m.e00); lemma_sdiv_mult(m.e01); lemma_sdiv_mult(m.e02); lemma_sdiv_mult(m.e03);
    lemma_sdiv_mult(m.e10); lemma_sdiv_mult(m.e11); lemma_sdiv_mult(m.e12); lemma_sdiv_mult(m.e13);
    lemma_sdiv_mult(m.e20); lemma_sdiv_mult(m.e21); lemma_sdiv_mult(m.e22); lemma_sdiv_mult(m.e23);
    lemma_sdiv_mult(m.e30); lemma_sdiv_mult(m.e31); lemma_sdiv_mult(m.e32); lemma_sdiv_mult(m.e33);
}

/// Two translations compose into the translation by the sum, exactly.
pub proof fn lemma_translation_compose(x1: int, y1: int, z1: int, x2: int, y2: int, z2: int)
    ensures
        sm_mul(sm_translation(x1, y1, z1), sm_translation(x2, y2, z2))
            == sm_translation(x1 + x2, y1 + y2, z1 + z2),
{
    lemma_translation_mul(sm_translation(x2, y2, z2), x1, y1, z1);
    assert(sm_shift(sm_translation(x2, y2, z2), x1, y1, z1)
        == sm_translation(x1 + x2, y1 + y2, z1 + z2));
}

/// Rotations by a zero angle are the identity.
pub proof fn lemma_rot_zero_identity()
    ensures
        sm_rot_x(SCALE as int, 0) == sm_identity(),
        sm_rot_y(SCALE as int, 0) == sm_identity(),
        sm_rot_z(SCALE as int, 0) == sm_identity(),
{
}

/// Affine matrices are closed under multiplication.
pub proof fn lemma_affine_mul(a: M4, b: M4)
    requires
        m4_affine(a),
        m4_affine(b),
    ensures
        m4_affine(sm_mul(a, b)),
{
    lemma_sdiv_mult(0);
    lemma_sdiv_mult(SCALE as int);
    assert(a.e30 * b.e00 == 0 && a.e31 * b.e10 == 0 && a.e32 * b.e20 == 0);
    assert(a.e30 * b.e01 == 0 && a.e31 * b.e11 == 0 && a.e32 * b.e21 == 0);
    assert(a.e30 * b.e02 == 0 && a.e31 * b.e12 == 0 && a.e32 * b.e22 == 0);
    assert(a.e30 * b.e03 == 0 && a.e31 * b.e13 == 0 && a.e32 * b.e23 == 0);
    assert(a.e33 * b.e30 == 0 && a.e33 * b.e31 == 0 && a.e33 * b.e32 == 0);
    assert(a.e33 * b.e33 == (SCALE as int) * (SCALE as int));
}

/// Shifting the left factor's translation column shifts the product's,
/// and changes nothing else, whenever the right factor is affine.
pub proof fn lemma_shift_mul(m: M4, x: M4, tx: int, ty: int, tz: int)
    requires
        m4_affine(x),
    ensures
        sm_mul(sm_shift(m, tx, ty, tz), x) == sm_shift(sm_mul(m, x), tx, ty, tz),
{
    assert(tx * x.e30 == 0 && tx * x.e31 == 0 && tx * x.e32 == 0);
    assert(ty * x.e30 == 0 && ty * x.e31 == 0 && ty * x.e32 == 0);
    assert(tz * x.e30 == 0 && tz * x.e31 == 0 && tz * x.e32 == 0);
    assert(tx * x.e33 == tx * (SCALE as int));
    assert(ty * x.e33 == ty * (SCALE as int));
    assert(tz * x.e33 == tz * (SCALE as int));
    lemma_sdiv_add_mult(m.e00 * x.e03 + m.e01 * x.e13 + m.e02 * x.e23 + m.e03 * x.e33, tx);
    lemma_sdiv_add_mult(m.e10 * x.e03 + m.e11 * x.e13 + m.e12 * x.e23 + m.e13 * x.e33, ty);
    lemma_sdiv_add_mult(m.e20 * x.e03 + m.e21 * x.e13 + m.e22 * x.e23 + m.e23 * x.e33, tz);
}

/// Multiplying by a translation on the left shifts an affine matrix's
/// translation column, exactly: no rounding is involved.
pub proof fn lemma_translation_mul(x: M4, tx: int, ty: int, tz: int)
    requires
        m4_affine(x),
    ensures
        sm_mul(sm_translation(tx, ty, tz), x) == sm_shift(x, tx, ty, tz),
{
    assert(sm_translation(tx, ty, tz) == sm_shift(sm_identity(), tx, ty, tz));
    lemma_shift_mul(sm_identity(), x, tx, ty, tz);
    lemma_identity_left(x);
}

/// Rotation and translation do not commute: whenever the rotation moves the
/// point `(tx, ty, tz)`, composing "rotate, then translate" differs from
/// "translate, then rotate". (When the rotation fixes the point — for
/// instance a turn about the very axis the translation runs along — the two
/// orders agree, so such inputs are excluded.)
pub proof fn lemma_rotation_translation_order(m: M4, tx: int, ty: int, tz: int)
    requires
        m4_affine(m),
        m.e03 == 0,
        m.e13 == 0,
        m.e23 == 0,
        sm_apply_x(m, tx, ty, tz) != tx
            || sm_apply_y(m, tx, ty, tz) != ty
            || sm_apply_z(m, tx, ty, tz) != tz,
    ensures
        sm_mul(sm_translation(tx, ty, tz), m) != sm_mul(m, sm_translation(tx, ty, tz)),
{
    lemma_translation_mul(m, tx, ty, tz);
    let left = sm_mul(sm_translation(tx, ty, tz), m);
    assert(left.e03 == tx && left.e13 == ty && left.e23 == tz);
    let right = sm_mul(m, sm_translation(tx, ty, tz));
    assert(m.e03 * (SCALE as int) == 0);
    assert(m.e13 * (SCALE as int) == 0);
    assert(m.e23 * (SCALE as int) == 0);
    assert(right.e03 == sm_apply_x(m, tx, ty, tz));
    assert(right.e13 == sm_apply_y(m, tx, ty, tz));
    assert(right.e23 == sm_apply_z(m, tx, ty, tz));
}

} // verus!
