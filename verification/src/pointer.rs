//! What every pointer wrapper offers: the address it holds, and the memory
//! that a structured read of it covers.

use vstd::layout::size_of;
use vstd::prelude::*;

verus! {

/// The memory that one structured read covers: `len` bytes from the address
/// `start` on.
#[derive(Debug, Clone, Copy, PartialEq, Eq)]
pub struct Region {
    /// The address of the first byte.
    pub start: usize,
    /// The number of bytes.
    pub len: usize,
}

/// The region of a value of type `T` that begins `offset` bytes from `address`:
/// above it for a positive offset, below it for a negative one.
pub fn region_at<T>(address: usize, offset: isize) -> (region: Region)
    requires
        0 <= address + offset <= usize::MAX,
    ensures
        region.start == address + offset,
        region.len == size_of::<T>(),
{
    let start: usize = if offset >= 0 {
        address + (offset as usize)
    } else {
        let back: usize = (-(offset + 1)) as usize;
        address - back - 1
    };
    Region { start, len: core::mem::size_of::<T>() }
}

/// The region of the `n`th value of type `T` in a row of them that begins at
/// `address`; the first one is the one at `n == 0`.
pub fn region_of_nth<T>(address: usize, n: usize) -> (region: Region)
    requires
        address + n * size_of::<T>() <= usize::MAX,
    ensures
        region.start == address + n * size_of::<T>(),
        region.len == size_of::<T>(),
{
    let len: usize = core::mem::size_of::<T>();
    Region { start: address + n * len, len }
}

/// Access to the pointer that a wrapper holds.
///
/// The view of a wrapper is the address it holds; zero is the null pointer.
/// The wrapper owns what lies at that address: the accessors hand the address
/// out for further foreign calls and pass no ownership on.
pub trait HasPointer: View<V = usize> + Sized {
    /// Builds a new wrapper with a null pointer.
    fn new() -> (wrapper: Self)
        ensures
            wrapper@ == 0,
    ;

    /// Returns the pointer for reading.
    fn ptr(&self) -> (pointer: usize)
        ensures
            pointer == self@,
    ;

    /// Returns the pointer for writing to what it points to. It is the address
    /// that `ptr` returns, so what is written through the one is read through
    /// the other.
    fn mut_ptr(&mut self) -> (pointer: usize)
        ensures
            pointer == old(self)@,
            *final(self) == *old(self),
    ;

    /// Returns a mutable reference to the pointer itself, for a foreign call
    /// that fills it in. What is stored through the reference is what the
    /// wrapper holds from then on.
    fn mut_ref(&mut self) -> (slot: &mut usize)
        ensures
            *slot == old(self)@,
            final(self)@ == *final(slot),
    ;

    /// The region from which a value of type `T` is read at the pointer.
    fn read<T>(&self) -> (region: Region)
        ensures
            region.start == self@,
            region.len == size_of::<T>(),
    {
        region_at::<T>(self.ptr(), 0)
    }

    /// The region from which a value of type `T` is read `offset` bytes from
    /// the pointer.
    fn read_offset<T>(&self, offset: isize) -> (region: Region)
        requires
            0 <= self@ + offset <= usize::MAX,
        ensures
            region.start == self@ + offset,
            region.len == size_of::<T>(),
    {
        region_at::<T>(self.ptr(), offset)
    }

    /// The region from which the `n`th value of type `T` is read, in a row of
    /// them that begins at the pointer.
    fn nth<T>(&self, n: usize) -> (region: Region)
        requires
            self@ + n * size_of::<T>() <= usize::MAX,
        ensures
            region.start == self@ + n * size_of::<T>(),
            region.len == size_of::<T>(),
    {
        region_of_nth::<T>(self.ptr(), n)
    }
}

/// Wrapper can be built from a single simple pointer.
pub trait FromPointer: View<V = usize> + Sized {
    /// Builds a new wrapper over an existing pointer, and with it takes over
    /// the duty to release it.
    fn from_ptr(pointer: usize) -> (wrapper: Self)
        ensures
            wrapper@ == pointer,
    ;
}

} // verus!
