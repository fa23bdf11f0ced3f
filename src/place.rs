use core::mem::MaybeUninit;
use vstd::prelude::*;
use vstd::std_specs::maybe_uninit::MaybeUninitAdditionalSpecFns;

verus! {

/// The storage behind a write-only reference: either a location that already
/// holds a value of `T`, or one that is only sized and aligned for it.
#[derive(Debug)]
pub enum Place<'a, T> {
    /// A location that holds a value, reached through an exclusive borrow.
    Init(&'a mut T),
    /// Storage for a value that may not hold one yet.
    Uninit(&'a mut MaybeUninit<T>),
}

impl<'a, T> Place<'a, T> {
    /// What the location holds now; `None` while it is uninitialized.
    pub open spec fn current(self) -> Option<T> {
        match self {
            Place::Init(r) => Some(mut_ref_current(r)),
            Place::Uninit(m) => mut_ref_current(m).as_option(),
        }
    }
}

} // verus!
