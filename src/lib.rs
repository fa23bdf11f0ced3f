//! Write-only references: a handle through which a location can be overwritten,
//! but never read, and whose write never runs the destructor of what it replaces.

use vstd::prelude::*;

mod linear;
mod out;
mod place;

pub use linear::LinearOut;
pub use out::{lemma_out_resolved, lemma_reborrow_chain, NullAddress, Out};
pub use place::Place;

verus! {

broadcast use lemma_out_resolved;

/// Writes `value` into `*ptr` through a write-only reference, without
/// dropping the value it replaces; afterwards `*ptr` is `value`.
pub fn write<T>(ptr: &mut T, value: T)
    ensures
        *final(ptr) == value,
{
    Out::from_mut(ptr).set(value)
}

/// Lets every value hand out a write-only reference to itself.
pub trait OutMethod: Sized {
    /// A write-only reference to `self`, which `self` is borrowed for.
    fn out(&mut self) -> (r: Out<'_, Self>)
        ensures
            r@ is Init,
            *r@->Init_0 == *old(self),
            mut_ref_future(r@->Init_0) == *final(self),
    ;

    /// A write-only reference to `self` that must be written exactly once.
    fn linear_out(&mut self) -> (r: LinearOut<'_, Self>)
        ensures
            r.armed(),
            r.target() is Init,
            *r.target()->Init_0 == *old(self),
            mut_ref_future(r.target()->Init_0) == *final(self),
    ;
}

impl<T> OutMethod for T {
    fn out(&mut self) -> (r: Out<'_, T>) {
        Out::from_mut(self)
    }

    fn linear_out(&mut self) -> (r: LinearOut<'_, T>) {
        LinearOut::new(Out::from_mut(self))
    }
}

} // verus!
