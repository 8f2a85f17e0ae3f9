//! Algebraic laws of the vector operations, stated over the operator
//! specifications that the executable operators are proved to meet.

use crate::vector::Vector;
use core::ops::Add;
use core::ops::Div;
use core::ops::Mul;
use core::ops::Neg;
use core::ops::Sub;
use vstd::prelude::*;
use vstd::std_specs::cmp::PartialEqSpec;
use vstd::std_specs::ops::AddSpec;
use vstd::std_specs::ops::DivSpec;
use vstd::std_specs::ops::MulSpec;
use vstd::std_specs::ops::NegSpec;
use vstd::std_specs::ops::SubSpec;

verus! {

/// Every vector-vector operator acts on each component independently:
/// `(a op b).x == a.x op b.x`, and likewise for `y` and `z`.
pub proof fn lemma_componentwise_ops<
    T: Copy + Add<Output = T> + Sub<Output = T> + Mul<Output = T> + Div<Output = T>,
>(a: Vector<T>, b: Vector<T>)
    ensures
        a.add_spec(b) == (Vector {
            x: a.x.add_spec(b.x),
            y: a.y.add_spec(b.y),
            z: a.z.add_spec(b.z),
        }),
        a.sub_spec(b) == (Vector {
            x: a.x.sub_spec(b.x),
            y: a.y.sub_spec(b.y),
            z: a.z.sub_spec(b.z),
        }),
        a.mul_spec(b) == (Vector {
            x: a.x.mul_spec(b.x),
            y: a.y.mul_spec(b.y),
            z: a.z.mul_spec(b.z),
        }),
        a.div_spec(b) == (Vector {
            x: a.x.div_spec(b.x),
            y: a.y.div_spec(b.y),
            z: a.z.div_spec(b.z),
        }),
{
}

/// A scalar operand is broadcast to all three components:
/// `(a op s).x == a.x op s`, and likewise for `y` and `z`.
pub proof fn lemma_scalar_broadcast<
    T: Copy + Add<Output = T> + Sub<Output = T> + Mul<Output = T> + Div<Output = T>,
>(a: Vector<T>, s: T)
    ensures
        a.add_spec(s) == (Vector { x: a.x.add_spec(s), y: a.y.add_spec(s), z: a.z.add_spec(s) }),
        a.sub_spec(s) == (Vector { x: a.x.sub_spec(s), y: a.y.sub_spec(s), z: a.z.sub_spec(s) }),
        a.mul_spec(s) == (Vector { x: a.x.mul_spec(s), y: a.y.mul_spec(s), z: a.z.mul_spec(s) }),
        a.div_spec(s) == (Vector { x: a.x.div_spec(s), y: a.y.div_spec(s), z: a.z.div_spec(s) }),
{
}

/// Vector equality is reflexive whenever the element equality is.
pub proof fn lemma_eq_reflexive<T: PartialEq>(a: Vector<T>)
    requires
        forall|x: T| #[trigger] x.eq_spec(&x),
    ensures
        a.eq_spec(&a),
{
}

/// Vector equality is symmetric whenever the element equality is.
pub proof fn lemma_eq_symmetric<T: PartialEq>(a: Vector<T>, b: Vector<T>)
    requires
        forall|x: T, y: T| #[trigger] x.eq_spec(&y) == y.eq_spec(&x),
    ensures
        a.eq_spec(&b) == b.eq_spec(&a),
{
}

/// The cross product is anti-commutative: wherever both orientations are
/// free of overflow, `cross(a, b) == -cross(b, a)`.
pub proof fn lemma_cross_antisymmetric(a: Vector<i64>, b: Vector<i64>)
    requires
        Vector::cross_req(a, b),
        Vector::cross_req(b, a),
    ensures
        Vector::cross_spec(a, b) == Vector::cross_spec(b, a).neg_spec(),
{
}

} // verus!
