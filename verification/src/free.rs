//! The wrapper for memory of the C library's allocator.

use crate::pointer::{FromPointer, HasPointer};
use crate::release::{guard, guarded, ReleaseCall};
use vstd::prelude::*;

verus! {

/// Free object using built in (libc) `free` function.
pub struct FreeWrapper(pub usize);

impl View for FreeWrapper {
    type V = usize;

    open spec fn view(&self) -> usize {
        self.0
    }
}

impl HasPointer for FreeWrapper {
    fn new() -> Self {
        FreeWrapper(0)
    }

    fn ptr(&self) -> usize {
        self.0
    }

    fn mut_ptr(&mut self) -> usize {
        self.0
    }

    fn mut_ref(&mut self) -> &mut usize {
        &mut self.0
    }
}

impl FromPointer for FreeWrapper {
    fn from_ptr(pointer: usize) -> Self {
        FreeWrapper(pointer)
    }
}

impl FreeWrapper {
    /// Ends the wrapper's life. A pointer that is held is owed one call of
    /// `free`; the null pointer is owed nothing.
    pub fn release(self) -> (owed: Option<ReleaseCall>)
        ensures
            owed == guarded(ReleaseCall::Free { pointer: self@ }),
            self@ == 0 ==> owed is None,
            self@ != 0 ==> owed == Some(ReleaseCall::Free { pointer: self@ }),
    {
        guard(ReleaseCall::Free { pointer: self.0 })
    }
}

} // verus!
