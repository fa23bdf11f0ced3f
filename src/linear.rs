use vstd::prelude::*;
use vstd::std_specs::maybe_uninit::MaybeUninitAdditionalSpecFns;

use crate::out::Out;
use crate::place::Place;

verus! {

broadcast use crate::out::lemma_out_resolved;

/// A write-only reference that must be written exactly once: `set` consumes
/// it, and dropping one that was never written ends the process.
pub struct LinearOut<'a, T> {
    /// `Some` until the write; `drop` aborts while it is still `Some`.
    out: Option<Out<'a, T>>,
}

impl<'a, T> LinearOut<'a, T> {
    /// The obligation to write is still outstanding.
    pub closed spec fn armed(self) -> bool {
        self.out is Some
    }

    /// The place the pending write goes to.
    pub closed spec fn target(self) -> Place<'a, T> {
        self.out->Some_0@
    }

    /// Takes on the obligation to write through `out` exactly once.
    pub fn new(out: Out<'a, T>) -> (r: LinearOut<'a, T>)
        ensures
            r.armed(),
            r.target() == out@,
    {
        LinearOut { out: Some(out) }
    }

    /// Writes `value`, without reading or dropping what the place held, and
    /// discharges the obligation. The reference is consumed, so it cannot be
    /// written a second time; the place then holds `value` for good.
    pub fn set(self, value: T)
        requires
            self.armed(),
        ensures
            match self.target() {
                Place::Init(p) => mut_ref_future(p) == value,
                Place::Uninit(m) => mut_ref_future(m).as_option() == Some(value),
            },
    {
        let mut this = self;
        let mut out = this.out.take().unwrap();
        out.set(value);
    }
}

impl<'a, T> LinearOut<'a, T> {
    /// Ends the process if the obligation to write is still outstanding.
    fn abort_if_armed(&self)
        opens_invariants none
        no_unwind
    {
        match &self.out {
            Some(_) => abort_unwritten(),
            None => {},
        }
    }
}

impl<'a, T> Drop for LinearOut<'a, T> {
    /// Ends the process if the reference is dropped before it was written.
    fn drop(&mut self)
        opens_invariants none
        no_unwind
    {
        self.abort_if_armed();
    }
}

/// Ends the process. It raises a panic while a guard whose destructor panics
/// is live; a panic during unwinding is never caught, so the process aborts
/// whether panics unwind or not.
#[verifier::external_body]
fn abort_unwritten()
    opens_invariants none
    no_unwind
{
    let _guard = PanicOnDrop;
    Option::<()>::None.expect("a linear out reference was dropped before it was written");
}

/// Panics when dropped. Only `abort_unwritten` makes one, and it is dropped
/// only while that function's panic unwinds, where a second panic aborts the
/// process rather than unwinding out of this destructor.
struct PanicOnDrop;

impl Drop for PanicOnDrop {
    #[verifier::external_body]
    fn drop(&mut self)
        opens_invariants none
        no_unwind
    {
        Option::<()>::None.expect("a linear out reference was dropped before it was written");
    }
}

} // verus!
