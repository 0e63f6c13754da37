//! The slot that the main context and the interrupt handler share.

use vstd::prelude::*;
use crate::critical::CriticalSection;

verus! {

/// A place for one handle, empty until the main context installs it.
///
/// Every operation that touches the contents takes the slot by `&mut` and a
/// [`CriticalSection`] token: the first keeps two accesses from overlapping,
/// the second keeps the other context from running meanwhile.
pub struct SharedSlot<H> {
    handle: Option<H>,
}

/// What a slot holds once `handle` has been installed, whatever it held
/// before.
pub open spec fn after_install<H>(before: Option<H>, handle: H) -> Option<H> {
    Some(handle)
}

impl<H> SharedSlot<H> {
    /// The handle in the slot, if one has been installed.
    pub closed spec fn view(&self) -> Option<H> {
        self.handle
    }

    /// An empty slot.
    pub fn new() -> (slot: Self)
        ensures
            slot@ is None,
    {
        SharedSlot { handle: None }
    }

    /// Whether a handle has been installed.
    pub fn is_installed(&self, _cs: &CriticalSection) -> (installed: bool)
        ensures
            installed == (self@ is Some),
    {
        self.handle.is_some()
    }

    /// Moves `handle` into the slot. A handle that was there before is
    /// dropped, without a word.
    pub fn install(&mut self, _cs: &CriticalSection, handle: H)
        ensures
            final(self)@ == after_install(old(self)@, handle),
    {
        self.handle = Some(handle);
    }

    /// Runs `f` on the handle if there is one, and returns what `f`
    /// returned; does nothing on an empty slot.
    ///
    /// The handle that is in the slot afterwards is the one that `f` left
    /// behind.
    pub fn with_exclusive_access<R, F: FnOnce(&mut H) -> R>(
        &mut self,
        _cs: &CriticalSection,
        f: F,
    ) -> (result: Option<R>)
        requires
            old(self)@ is Some ==> forall|h: &mut H|
                *h == old(self)@->0 ==> call_requires(f, (h,)),
        ensures
            old(self)@ is None ==> result is None && final(self)@ is None,
            old(self)@ is Some ==> result is Some && final(self)@ is Some && exists|h: &mut H|
                *h == old(self)@->0 && *final(h) == final(self)@->0 && call_ensures(
                    f,
                    (h,),
                    result->0,
                ),
    {
        match &mut self.handle {
            Some(handle) => Some(f(handle)),
            None => None,
        }
    }
}

} // verus!
