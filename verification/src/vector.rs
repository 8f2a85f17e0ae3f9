//! A basic struct which covers the fundamentals of vector math.
//!
//! Every operator is generic over the element type's own arithmetic: the
//! vector layer adds no error handling of its own, so overflow and
//! division rules are exactly those of `T`. The operator contracts are
//! stated through the element type's operator specifications
//! (`add_req`/`add_spec` and friends), so a caller that instantiates the
//! vector with a specified element type (an integer, say) gets exact
//! component-wise semantics for free.

use core::ops::Add;
use core::ops::Div;
use core::ops::Mul;
use core::ops::Neg;
use core::ops::Sub;
use vstd::prelude::*;
use vstd::std_specs::cmp::PartialEqSpec;
use vstd::std_specs::ops::AddSpec;
use vstd::std_specs::ops::DivSpec;
use vstd::std_specs::ops::MulSpec;
use vstd::std_specs::ops::NegSpec;
use vstd::std_specs::ops::SubSpec;

pub mod experimental;
pub mod laws;

verus! {

/// A three-component vector of a homogeneous element type.
#[derive(Clone, Copy, Debug, Default)]
pub struct Vector<T> {
    pub x: T,
    pub y: T,
    pub z: T,
}

impl<T> Vector<T> {
    /// Creates a new vector with the given coordinates.
    pub fn new(x: T, y: T, z: T) -> (v: Vector<T>)
        ensures
            v == (Vector { x, y, z }),
    {
        Vector { x, y, z }
    }
}

impl<T: core::fmt::Display> Vector<T> {
    /// Relies on std::fmt's formatting machinery: renders the vector as
    /// `(x, y, z)` using the element type's own textual form.
    #[verifier::external_body]
    pub fn to_text(&self) -> String {
        format!("({x}, {y}, {z})", x = self.x, y = self.y, z = self.z)
    }
}

// Equality is purely structural: two vectors are equal exactly when all
// three components are equal under the element type's own equality.
impl<T: PartialEq> vstd::std_specs::cmp::PartialEqSpecImpl for Vector<T> {
    open spec fn obeys_eq_spec() -> bool {
        T::obeys_eq_spec()
    }

    open spec fn eq_spec(&self, other: &Vector<T>) -> bool {
        self.x.eq_spec(&other.x) && self.y.eq_spec(&other.y) && self.z.eq_spec(&other.z)
    }
}

impl<T: PartialEq> PartialEq for Vector<T> {
    fn eq(&self, other: &Vector<T>) -> bool {
        self.x == other.x && self.y == other.y && self.z == other.z
    }
}

// Component-wise negation.
impl<T: Neg<Output = T>> vstd::std_specs::ops::NegSpecImpl for Vector<T> {
    open spec fn obeys_neg_spec() -> bool {
        T::obeys_neg_spec()
    }

    open spec fn neg_req(self) -> bool {
        self.x.neg_req() && self.y.neg_req() && self.z.neg_req()
    }

    open spec fn neg_spec(self) -> Vector<T> {
        Vector { x: self.x.neg_spec(), y: self.y.neg_spec(), z: self.z.neg_spec() }
    }
}

impl<T: Neg<Output = T>> Neg for Vector<T> {
    type Output = Vector<T>;

    fn neg(self) -> Vector<T> {
        Vector { x: self.x.neg(), y: self.y.neg(), z: self.z.neg() }
    }
}

// Component-wise addition of two vectors.
impl<T: Add<Output = T>> vstd::std_specs::ops::AddSpecImpl for Vector<T> {
    open spec fn obeys_add_spec() -> bool {
        T::obeys_add_spec()
    }

    open spec fn add_req(self, rhs: Vector<T>) -> bool {
        self.x.add_req(rhs.x) && self.y.add_req(rhs.y) && self.z.add_req(rhs.z)
    }

    open spec fn add_spec(self, rhs: Vector<T>) -> Vector<T> {
        Vector { x: self.x.add_spec(rhs.x), y: self.y.add_spec(rhs.y), z: self.z.add_spec(rhs.z) }
    }
}

impl<T: Add<Output = T>> Add for Vector<T> {
    type Output = Vector<T>;

    fn add(self, rhs: Vector<T>) -> Vector<T> {
        Vector { x: self.x + rhs.x, y: self.y + rhs.y, z: self.z + rhs.z }
    }
}

// Addition of a scalar, broadcast to all three components.
impl<T: Copy + Add<Output = T>> vstd::std_specs::ops::AddSpecImpl<T> for Vector<T> {
    open spec fn obeys_add_spec() -> bool {
        T::obeys_add_spec()
    }

    open spec fn add_req(self, rhs: T) -> bool {
        self.x.add_req(rhs) && self.y.add_req(rhs) && self.z.add_req(rhs)
    }

    open spec fn add_spec(self, rhs: T) -> Vector<T> {
        Vector { x: self.x.add_spec(rhs), y: self.y.add_spec(rhs), z: self.z.add_spec(rhs) }
    }
}

impl<T: Copy + Add<Output = T>> Add<T> for Vector<T> {
    type Output = Vector<T>;

    fn add(self, rhs: T) -> Vector<T> {
        Vector { x: self.x + rhs, y: self.y + rhs, z: self.z + rhs }
    }
}

// Component-wise subtraction of two vectors.
impl<T: Sub<Output = T>> vstd::std_specs::ops::SubSpecImpl for Vector<T> {
    open spec fn obeys_sub_spec() -> bool {
        T::obeys_sub_spec()
    }

    open spec fn sub_req(self, rhs: Vector<T>) -> bool {
        self.x.sub_req(rhs.x) && self.y.sub_req(rhs.y) && self.z.sub_req(rhs.z)
    }

    open spec fn sub_spec(self, rhs: Vector<T>) -> Vector<T> {
        Vector { x: self.x.sub_spec(rhs.x), y: self.y.sub_spec(rhs.y), z: self.z.sub_spec(rhs.z) }
    }
}

impl<T: Sub<Output = T>> Sub for Vector<T> {
    type Output = Vector<T>;

    fn sub(self, rhs: Vector<T>) -> Vector<T> {
        Vector { x: self.x - rhs.x, y: self.y - rhs.y, z: self.z - rhs.z }
    }
}

// Subtraction of a scalar, broadcast to all three components.
impl<T: Copy + Sub<Output = T>> vstd::std_specs::ops::SubSpecImpl<T> for Vector<T> {
    open spec fn obeys_sub_spec() -> bool {
        T::obeys_sub_spec()
    }

    open spec fn sub_req(self, rhs: T) -> bool {
        self.x.sub_req(rhs) && self.y.sub_req(rhs) && self.z.sub_req(rhs)
    }

    open spec fn sub_spec(self, rhs: T) -> Vector<T> {
        Vector { x: self.x.sub_spec(rhs), y: self.y.sub_spec(rhs), z: self.z.sub_spec(rhs) }
    }
}

impl<T: Copy + Sub<Output = T>> Sub<T> for Vector<T> {
    type Output = Vector<T>;

    fn sub(self, rhs: T) -> Vector<T> {
        Vector { x: self.x - rhs, y: self.y - rhs, z: self.z - rhs }
    }
}

// Component-wise multiplication of two vectors.
impl<T: Mul<Output = T>> vstd::std_specs::ops::MulSpecImpl for Vector<T> {
    open spec fn obeys_mul_spec() -> bool {
        T::obeys_mul_spec()
    }

    open spec fn mul_req(self, rhs: Vector<T>) -> bool {
        self.x.mul_req(rhs.x) && self.y.mul_req(rhs.y) && self.z.mul_req(rhs.z)
    }

    open spec fn mul_spec(self, rhs: Vector<T>) -> Vector<T> {
        Vector { x: self.x.mul_spec(rhs.x), y: self.y.mul_spec(rhs.y), z: self.z.mul_spec(rhs.z) }
    }
}

impl<T: Mul<Output = T>> Mul for Vector<T> {
    type Output = Vector<T>;

    fn mul(self, rhs: Vector<T>) -> Vector<T> {
        Vector { x: self.x * rhs.x, y: self.y * rhs.y, z: self.z * rhs.z }
    }
}

// Multiplication by a scalar, broadcast to all three components.
impl<T: Copy + Mul<Output = T>> vstd::std_specs::ops::MulSpecImpl<T> for Vector<T> {
    open spec fn obeys_mul_spec() -> bool {
        T::obeys_mul_spec()
    }

    open spec fn mul_req(self, rhs: T) -> bool {
        self.x.mul_req(rhs) && self.y.mul_req(rhs) && self.z.mul_req(rhs)
    }

    open spec fn mul_spec(self, rhs: T) -> Vector<T> {
        Vector { x: self.x.mul_spec(rhs), y: self.y.mul_spec(rhs), z: self.z.mul_spec(rhs) }
    }
}

impl<T: Copy + Mul<Output = T>> Mul<T> for Vector<T> {
    type Output = Vector<T>;

    fn mul(self, rhs: T) -> Vector<T> {
        Vector { x: self.x * rhs, y: self.y * rhs, z: self.z * rhs }
    }
}

// Component-wise division of two vectors.
impl<T: Div<Output = T>> vstd::std_specs::ops::DivSpecImpl for Vector<T> {
    open spec fn obeys_div_spec() -> bool {
        T::obeys_div_spec()
    }

    open spec fn div_req(self, rhs: Vector<T>) -> bool {
        self.x.div_req(rhs.x) && self.y.div_req(rhs.y) && self.z.div_req(rhs.z)
    }

    open spec fn div_spec(self, rhs: Vector<T>) -> Vector<T> {
        Vector { x: self.x.div_spec(rhs.x), y: self.y.div_spec(rhs.y), z: self.z.div_spec(rhs.z) }
    }
}

impl<T: Div<Output = T>> Div for Vector<T> {
    type Output = Vector<T>;

    fn div(self, rhs: Vector<T>) -> Vector<T> {
        Vector { x: self.x / rhs.x, y: self.y / rhs.y, z: self.z / rhs.z }
    }
}

// Division by a scalar, broadcast to all three components.
impl<T: Copy + Div<Output = T>> vstd::std_specs::ops::DivSpecImpl<T> for Vector<T> {
    open spec fn obeys_div_spec() -> bool {
        T::obeys_div_spec()
    }

    open spec fn div_req(self, rhs: T) -> bool {
        self.x.div_req(rhs) && self.y.div_req(rhs) && self.z.div_req(rhs)
    }

    open spec fn div_spec(self, rhs: T) -> Vector<T> {
        Vector { x: self.x.div_spec(rhs), y: self.y.div_spec(rhs), z: self.z.div_spec(rhs) }
    }
}

impl<T: Copy + Div<Output = T>> Div<T> for Vector<T> {
    type Output = Vector<T>;

    fn div(self, rhs: T) -> Vector<T> {
        Vector { x: self.x / rhs, y: self.y / rhs, z: self.z / rhs }
    }
}

impl<T: Copy + Add<Output = T> + Mul<Output = T>> Vector<T> {
    /// What `dot` returns: `a.x*b.x + a.y*b.y + a.z*b.z`, summed left to
    /// right, over the element type's own multiplication and addition.
    pub open spec fn dot_spec(a: Vector<T>, b: Vector<T>) -> T {
        a.x.mul_spec(b.x).add_spec(a.y.mul_spec(b.y)).add_spec(a.z.mul_spec(b.z))
    }

    /// When `dot` is defined: each product and each partial sum is
    /// admitted by the element type (for bounded integers, no overflow).
    pub open spec fn dot_req(a: Vector<T>, b: Vector<T>) -> bool {
        &&& a.x.mul_req(b.x)
        &&& a.y.mul_req(b.y)
        &&& a.z.mul_req(b.z)
        &&& a.x.mul_spec(b.x).add_req(a.y.mul_spec(b.y))
        &&& a.x.mul_spec(b.x).add_spec(a.y.mul_spec(b.y)).add_req(a.z.mul_spec(b.z))
    }

    /// Computes the dot product of two vectors.
    pub fn dot(a: &Self, b: &Self) -> (r: T)
        requires
            T::obeys_mul_spec(),
            T::obeys_add_spec(),
            Self::dot_req(*a, *b),
        ensures
            r == Self::dot_spec(*a, *b),
    {
        a.x * b.x + a.y * b.y + a.z * b.z
    }
}

impl<T: Copy + Sub<Output = T> + Mul<Output = T> + Neg<Output = T>> Vector<T> {
    /// What `cross` returns, in the right-handed convention:
    /// `(a.y*b.z - a.z*b.y,  -(a.x*b.z - a.z*b.x),  a.x*b.y - a.y*b.x)`.
    pub open spec fn cross_spec(a: Vector<T>, b: Vector<T>) -> Vector<T> {
        Vector {
            x: a.y.mul_spec(b.z).sub_spec(a.z.mul_spec(b.y)),
            y: a.x.mul_spec(b.z).sub_spec(a.z.mul_spec(b.x)).neg_spec(),
            z: a.x.mul_spec(b.y).sub_spec(a.y.mul_spec(b.x)),
        }
    }

    /// When `cross` is defined: each product, difference and negation is
    /// admitted by the element type.
    pub open spec fn cross_req(a: Vector<T>, b: Vector<T>) -> bool {
        &&& a.y.mul_req(b.z)
        &&& a.z.mul_req(b.y)
        &&& a.y.mul_spec(b.z).sub_req(a.z.mul_spec(b.y))
        &&& a.x.mul_req(b.z)
        &&& a.z.mul_req(b.x)
        &&& a.x.mul_spec(b.z).sub_req(a.z.mul_spec(b.x))
        &&& a.x.mul_spec(b.z).sub_spec(a.z.mul_spec(b.x)).neg_req()
        &&& a.x.mul_req(b.y)
        &&& a.y.mul_req(b.x)
        &&& a.x.mul_spec(b.y).sub_req(a.y.mul_spec(b.x))
    }

    /// Computes the cross product of two vectors.
    pub fn cross(a: &Self, b: &Self) -> (r: Vector<T>)
        requires
            T::obeys_mul_spec(),
            T::obeys_sub_spec(),
            T::obeys_neg_spec(),
            Self::cross_req(*a, *b),
        ensures
            r == Self::cross_spec(*a, *b),
    {
        Vector::new(
            a.y * b.z - a.z * b.y,
            (a.x * b.z - a.z * b.x).neg(),
            a.x * b.y - a.y * b.x,
        )
    }
}

impl<T: Copy + Add<Output = T>> Vector<T> {
    /// In-place component-wise addition of another vector.
    pub fn add_assign(&mut self, rhs: Vector<T>)
        requires
            old(self).add_req(rhs),
        ensures
            T::obeys_add_spec() ==> *final(self) == old(self).add_spec(rhs),
    {
        self.x = self.x + rhs.x;
        self.y = self.y + rhs.y;
        self.z = self.z + rhs.z;
    }

    /// In-place addition of a scalar to all three components.
    pub fn add_assign_scalar(&mut self, rhs: T)
        requires
            old(self).add_req(rhs),
        ensures
            T::obeys_add_spec() ==> *final(self) == old(self).add_spec(rhs),
    {
        self.x = self.x + rhs;
        self.y = self.y + rhs;
        self.z = self.z + rhs;
    }
}

impl<T: Copy + Sub<Output = T>> Vector<T> {
    /// In-place component-wise subtraction of another vector.
    pub fn sub_assign(&mut self, rhs: Vector<T>)
        requires
            old(self).sub_req(rhs),
        ensures
            T::obeys_sub_spec() ==> *final(self) == old(self).sub_spec(rhs),
    {
        self.x = self.x - rhs.x;
        self.y = self.y - rhs.y;
        self.z = self.z - rhs.z;
    }

    /// In-place subtraction of a scalar from all three components.
    /// Like every other compound operator, this updates `x`, `y` and `z`
    /// alike; a scalar subtraction that skipped a component would break
    /// the broadcast law stated in the laws module.
    pub fn sub_assign_scalar(&mut self, rhs: T)
        requires
            old(self).sub_req(rhs),
        ensures
            T::obeys_sub_spec() ==> *final(self) == old(self).sub_spec(rhs),
    {
        self.x = self.x - rhs;
        self.y = self.y - rhs;
        self.z = self.z - rhs;
    }
}

impl<T: Copy + Mul<Output = T>> Vector<T> {
    /// In-place component-wise multiplication by another vector.
    pub fn mul_assign(&mut self, rhs: Vector<T>)
        requires
            old(self).mul_req(rhs),
        ensures
            T::obeys_mul_spec() ==> *final(self) == old(self).mul_spec(rhs),
    {
        self.x = self.x * rhs.x;
        self.y = self.y * rhs.y;
        self.z = self.z * rhs.z;
    }

    /// In-place multiplication of all three components by a scalar.
    pub fn mul_assign_scalar(&mut self, rhs: T)
        requires
            old(self).mul_req(rhs),
        ensures
            T::obeys_mul_spec() ==> *final(self) == old(self).mul_spec(rhs),
    {
        self.x = self.x * rhs;
        self.y = self.y * rhs;
        self.z = self.z * rhs;
    }
}

impl<T: Copy + Div<Output = T>> Vector<T> {
    /// In-place component-wise division by another vector.
    pub fn div_assign(&mut self, rhs: Vector<T>)
        requires
            old(self).div_req(rhs),
        ensures
            T::obeys_div_spec() ==> *final(self) == old(self).div_spec(rhs),
    {
        self.x = self.x / rhs.x;
        self.y = self.y / rhs.y;
        self.z = self.z / rhs.z;
    }

    /// In-place division of all three components by a scalar.
    pub fn div_assign_scalar(&mut self, rhs: T)
        requires
            old(self).div_req(rhs),
        ensures
            T::obeys_div_spec() ==> *final(self) == old(self).div_spec(rhs),
    {
        self.x = self.x / rhs;
        self.y = self.y / rhs;
        self.z = self.z / rhs;
    }
}

} // verus!
