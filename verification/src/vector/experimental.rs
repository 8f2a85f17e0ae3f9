//! A variable-length variant of the vector type, kept as a sketch of how
//! the same component-wise arithmetic would look over an arbitrary number
//! of components.

use core::ops::Add;
use vstd::prelude::*;
use vstd::std_specs::ops::AddSpec;

verus! {

/// A vector with an arbitrary number of components.
pub struct Vector<T>(pub Vec<T>);

impl<T> Vector<T> {
    /// Read access to the underlying component storage.
    pub fn components(&self) -> (r: &Vec<T>)
        ensures
            r == &self.0,
    {
        &self.0
    }

    /// Mutable access to the underlying component storage.
    pub fn components_mut(&mut self) -> (r: &mut Vec<T>)
        ensures
            *r == old(self).0,
            final(self).0 == *final(r),
    {
        &mut self.0
    }
}

impl<T: Copy + Add<Output = T>> Vector<T> {
    /// Component-wise addition, over as many components as `self` has.
    ///
    /// `rhs` must be at least as long as `self`; extra components of
    /// `rhs` are ignored.
    pub fn add(self, rhs: Vector<T>) -> (r: Vector<T>)
        requires
            self.0@.len() <= rhs.0@.len(),
            forall|i: int| 0 <= i < self.0@.len() ==> self.0@[i].add_req(#[trigger] rhs.0@[i]),
        ensures
            r.0@.len() == self.0@.len(),
            T::obeys_add_spec() ==> forall|i: int|
                0 <= i < self.0@.len() ==> r.0@[i] == self.0@[i].add_spec(#[trigger] rhs.0@[i]),
    {
        let mut result: Vec<T> = Vec::new();
        let n = self.0.len();
        for i in 0..n
            invariant
                n == self.0@.len(),
                n <= rhs.0@.len(),
                result@.len() == i,
                forall|j: int| 0 <= j < n ==> self.0@[j].add_req(#[trigger] rhs.0@[j]),
                T::obeys_add_spec() ==> forall|j: int|
                    0 <= j < i ==> result@[j] == self.0@[j].add_spec(#[trigger] rhs.0@[j]),
            decreases n - i,
        {
            result.push(self.0[i] + rhs.0[i]);
        }
        Vector(result)
    }
}

} // verus!
