use core::mem::MaybeUninit;
use vstd::prelude::*;
use vstd::std_specs::maybe_uninit::MaybeUninitAdditionalSpecFns;

use crate::place::Place;

verus! {

/// A write-only reference: the location behind it can be overwritten with
/// `set`, and reborrowed with `borrow`, but no operation hands its contents
/// to the caller.
///
/// Its view is the place it writes to; contracts speak of what that place
/// holds now (`current`) and of what it holds once the borrow ends. To learn
/// what the borrowed location holds after an `Out` is done with, a verified
/// caller outside this crate's root module needs `lemma_out_resolved`:
/// `broadcast use out_reference::lemma_out_resolved;`, or a call of it.
#[derive(Debug)]
pub struct Out<'a, T> {
    place: Place<'a, T>,
}

/// The address handed to `Out::from_raw` was null.
#[derive(Debug, Clone, Copy, PartialEq, Eq)]
pub struct NullAddress;

impl<'a, T> View for Out<'a, T> {
    type V = Place<'a, T>;

    closed spec fn view(&self) -> Place<'a, T> {
        self.place
    }
}

/// Puts `value` in `*dst`. The value it replaces is swapped out (a move,
/// which copies its bytes) and put in a `ManuallyDrop`, so it is never
/// dropped: whatever it owned is leaked.
fn overwrite<T>(dst: &mut T, value: T)
    ensures
        *final(dst) == value,
{
    let mut incoming = value;
    core::mem::swap(dst, &mut incoming);
    let _leaked = core::mem::ManuallyDrop::new(incoming);
}

/// Once a write-only reference is done with, so is its borrow of the place
/// it writes to: from then on that place holds what it will hold for good.
pub broadcast proof fn lemma_out_resolved<'a, T>(o: Out<'a, T>)
    ensures
        #[trigger] has_resolved(o) ==> has_resolved(o@),
{
}

/// A write made at the end of any chain of reborrows lands where a direct
/// write would. Link `i` of the chain holds the borrow `before[i]` and
/// reborrows it with `borrow`, which hands out the new borrow `before[i + 1]`
/// and leaves the link holding `after[i]`: by `borrow`'s contract `after[i]`
/// takes whatever the new borrow ends with, and ends where `before[i]` ends.
/// Each `after[i]` is then done with. If the last borrow in the chain ends
/// holding `v`, so does the first, for a chain of any length. A place over
/// uninitialized storage is the case `T = MaybeUninit<U>`.
pub proof fn lemma_reborrow_chain<'a, T>(before: Seq<&'a mut T>, after: Seq<&'a mut T>, v: T)
    requires
        before.len() == after.len() + 1,
        forall|i: int|
            0 <= i < after.len() ==> {
                &&& *#[trigger] after[i] == mut_ref_future(before[i + 1])
                &&& mut_ref_future(after[i]) == mut_ref_future(before[i])
                &&& has_resolved(after[i])
            },
        mut_ref_future(before.last()) == v,
    ensures
        mut_ref_future(before[0]) == v,
    decreases after.len(),
{
    if after.len() > 0 {
        let n = after.len() - 1;
        let (b, a) = (before.drop_last(), after.drop_last());
        assert forall|i: int| 0 <= i < a.len() implies {
            &&& *#[trigger] a[i] == mut_ref_future(b[i + 1])
            &&& mut_ref_future(a[i]) == mut_ref_future(b[i])
            &&& has_resolved(a[i])
        } by {
            assert(a[i] == after[i]);
        }
        lemma_reborrow_chain(b, a, mut_ref_future(before[n]));
        // the last link is done with, so it ends as it stands: holding `v`
        assert(has_resolved(after[n]));
        assert(*after[n] == mut_ref_future(after[n]));
    }
}

impl<'a, T> Out<'a, T> {
    /// A write-only reference into storage that holds no value yet.
    pub fn from_maybe_uninit(maybe_uninit: &'a mut MaybeUninit<T>) -> (r: Out<'a, T>)
        ensures
            r@ is Uninit,
            *r@->Uninit_0 == *old(maybe_uninit),
            mut_ref_future(r@->Uninit_0) == *final(maybe_uninit),
    {
        Out { place: Place::Uninit(maybe_uninit) }
    }

    /// A write-only reference from an exclusive one; the exclusive reference
    /// is consumed, so nothing else can reach the location meanwhile.
    pub fn from_mut(value: &'a mut T) -> (r: Out<'a, T>)
        ensures
            r@ is Init,
            *r@->Init_0 == *old(value),
            mut_ref_future(r@->Init_0) == *final(value),
    {
        Out { place: Place::Init(value) }
    }

    /// A write-only reference from an address that may be null (`None`);
    /// a null address is refused with `NullAddress`. An address held by a
    /// reference is always aligned, so nothing else needs testing.
    pub fn from_raw(ptr: Option<&'a mut T>) -> (r: Result<Out<'a, T>, NullAddress>)
        ensures
            ptr is None <==> r is Err,
            r is Ok ==> {
                let o = r->Ok_0;
                &&& o@ is Init
                &&& *o@->Init_0 == *ptr->Some_0
                &&& mut_ref_future(o@->Init_0) == mut_ref_future(ptr->Some_0)
            },
    {
        match ptr {
            Some(value) => Ok(Out::from_mut(value)),
            None => Err(NullAddress),
        }
    }

    /// A write-only reference from an address the caller knows is not null.
    pub fn from_raw_unchecked(ptr: Option<&'a mut T>) -> (r: Out<'a, T>)
        requires
            ptr is Some,
        ensures
            r@ is Init,
            *r@->Init_0 == *ptr->Some_0,
            mut_ref_future(r@->Init_0) == mut_ref_future(ptr->Some_0),
    {
        Out::from_mut(ptr.unwrap())
    }
    /// Reborrows for a shorter lifetime: the new reference writes to the same
    /// place, and `self` cannot be used until it is gone. The place starts out
    /// holding what `self`'s place holds now, and whatever it holds when the
    /// reborrow ends is what `self`'s place holds afterwards; where `self`'s
    /// place ends up is unchanged. So a chain of reborrows ending in one write
    /// leaves the location as a direct write would.
    pub fn borrow(&mut self) -> (r: Out<'_, T>)
        ensures
            match (old(self)@, final(self)@, r@) {
                (Place::Init(a), Place::Init(b), Place::Init(c)) => {
                    &&& *c == *a
                    &&& *b == mut_ref_future(c)
                    &&& mut_ref_future(b) == mut_ref_future(a)
                },
                (Place::Uninit(a), Place::Uninit(b), Place::Uninit(c)) => {
                    &&& *c == *a
                    &&& *b == mut_ref_future(c)
                    &&& mut_ref_future(b) == mut_ref_future(a)
                },
                _ => false,
            },
    {
        Out { place: self.as_mut_ptr() }
    }

    /// Gives up the write-only reference and hands back the place it wrote
    /// to; the caller is then responsible for every further access.
    pub fn into_raw(self) -> (r: Place<'a, T>)
        ensures
            r == self@,
    {
        self.place
    }

    /// The place behind this reference, borrowed for a shorter lifetime.
    /// Only writing to it is sound in general: reading is fine only where the
    /// reference was made from an initialized value, or after a write.
    pub fn as_mut_ptr(&mut self) -> (r: Place<'_, T>)
        ensures
            match (old(self)@, final(self)@, r) {
                (Place::Init(a), Place::Init(b), Place::Init(c)) => {
                    &&& *c == *a
                    &&& *b == mut_ref_future(c)
                    &&& mut_ref_future(b) == mut_ref_future(a)
                },
                (Place::Uninit(a), Place::Uninit(b), Place::Uninit(c)) => {
                    &&& *c == *a
                    &&& *b == mut_ref_future(c)
                    &&& mut_ref_future(b) == mut_ref_future(a)
                },
                _ => false,
            },
    {
        match &mut self.place {
            Place::Init(r) => Place::Init(&mut **r),
            Place::Uninit(m) => Place::Uninit(&mut **m),
        }
    }

    /// Moves `value` into the place, whatever it held before, uninitialized
    /// storage included. The previous contents are never dropped: if they
    /// owned resources, those are leaked. Uninitialized storage is simply
    /// overwritten; an initialized value is swapped out (a move of its bytes)
    /// and then leaked, never inspected or handed back. The reference stays
    /// usable and keeps writing to the same place.
    ///
    /// That the borrowed location ends up holding `value` follows once the
    /// reference is done with, through `lemma_out_resolved` (see `Out`).
    pub fn set(&mut self, value: T)
        ensures
            final(self)@.current() == Some(value),
            match (old(self)@, final(self)@) {
                (Place::Init(a), Place::Init(b)) => mut_ref_future(b) == mut_ref_future(a),
                (Place::Uninit(a), Place::Uninit(b)) => mut_ref_future(b) == mut_ref_future(a),
                _ => false,
            },
    {
        match &mut self.place {
            Place::Init(r) => overwrite(*r, value),
            Place::Uninit(m) => {
                **m = MaybeUninit::new(value);
            },
        }
    }
}

impl<'a, T> From<&'a mut T> for Out<'a, T> {
    /// Same as `Out::from_mut`.
    fn from(ptr: &'a mut T) -> (r: Out<'a, T>)
        ensures
            r@ is Init,
            *r@->Init_0 == *old(ptr),
            mut_ref_future(r@->Init_0) == *final(ptr),
    {
        Out::from_mut(ptr)
    }
}

/// `from` states its result in its own `ensures`; std's generic clause, which
/// asks the result to equal one spec value, is not used.
impl<'a, T> vstd::std_specs::convert::FromSpecImpl<&'a mut T> for Out<'a, T> {
    open spec fn obeys_from_spec() -> bool {
        false
    }

    closed spec fn from_spec(ptr: &'a mut T) -> Out<'a, T> {
        Out { place: Place::Init(ptr) }
    }
}

impl<'a, T> From<&'a mut MaybeUninit<T>> for Out<'a, T> {
    /// Same as `Out::from_maybe_uninit`.
    fn from(ptr: &'a mut MaybeUninit<T>) -> (r: Out<'a, T>)
        ensures
            r@ is Uninit,
            *r@->Uninit_0 == *old(ptr),
            mut_ref_future(r@->Uninit_0) == *final(ptr),
    {
        Out::from_maybe_uninit(ptr)
    }
}

/// As for `From<&mut T>`: `from` states its result in its own `ensures`.
impl<'a, T> vstd::std_specs::convert::FromSpecImpl<&'a mut MaybeUninit<T>> for Out<'a, T> {
    open spec fn obeys_from_spec() -> bool {
        false
    }

    closed spec fn from_spec(ptr: &'a mut MaybeUninit<T>) -> Out<'a, T> {
        Out { place: Place::Uninit(ptr) }
    }
}

} // verus!
