//! Wrappers for what the Windows API hands out and takes back.
//!
//! Each type is bound to the one function that releases what it holds. The
//! types are plain bookkeeping and exist on every platform; the calls they
//! owe can only be made on Windows.

use crate::pointer::{region_at, region_of_nth, FromPointer, HasPointer, Region};
use crate::release::{guard, guarded, ReleaseCall};
use vstd::layout::size_of;
use vstd::prelude::*;

verus! {

/// Frees the specified local memory object and invalidates its handle.
///
/// A handle to the local memory object. This handle is returned by either the LocalAlloc or
/// LocalReAlloc function. It is not safe to free memory allocated with GlobalAlloc.
pub struct LocalFreeWrapper(pub usize);

impl View for LocalFreeWrapper {
    type V = usize;

    open spec fn view(&self) -> usize {
        self.0
    }
}

impl HasPointer for LocalFreeWrapper {
    fn new() -> Self {
        LocalFreeWrapper(0)
    }

    fn ptr(&self) -> usize {
        self.0
    }

    fn mut_ptr(&mut self) -> usize {
        self.0
    }

    fn mut_ref(&mut self) -> &mut usize {
        &mut self.0
    }
}

impl FromPointer for LocalFreeWrapper {
    fn from_ptr(pointer: usize) -> Self {
        LocalFreeWrapper(pointer)
    }
}

impl LocalFreeWrapper {
    /// Ends the wrapper's life. A pointer that is held is owed one call of
    /// `LocalFree`; the null pointer is owed nothing.
    pub fn release(self) -> (owed: Option<ReleaseCall>)
        ensures
            owed == guarded(ReleaseCall::LocalFree { pointer: self@ }),
            self@ == 0 ==> owed is None,
            self@ != 0 ==> owed == Some(ReleaseCall::LocalFree { pointer: self@ }),
    {
        guard(ReleaseCall::LocalFree { pointer: self.0 })
    }
}

/// Frees the specified global memory object and invalidates its handle.
///
/// A handle to the global memory object. This handle is returned by either the GlobalAlloc or
/// GlobalReAlloc function. It is not safe to free memory allocated with LocalAlloc.
pub struct GlobalFreeWrapper(pub usize);

impl View for GlobalFreeWrapper {
    type V = usize;

    open spec fn view(&self) -> usize {
        self.0
    }
}

impl HasPointer for GlobalFreeWrapper {
    fn new() -> Self {
        GlobalFreeWrapper(0)
    }

    fn ptr(&self) -> usize {
        self.0
    }

    fn mut_ptr(&mut self) -> usize {
        self.0
    }

    fn mut_ref(&mut self) -> &mut usize {
        &mut self.0
    }
}

impl FromPointer for GlobalFreeWrapper {
    fn from_ptr(pointer: usize) -> Self {
        GlobalFreeWrapper(pointer)
    }
}

impl GlobalFreeWrapper {
    /// Ends the wrapper's life. A pointer that is held is owed one call of
    /// `GlobalFree`; the null pointer is owed nothing.
    pub fn release(self) -> (owed: Option<ReleaseCall>)
        ensures
            owed == guarded(ReleaseCall::GlobalFree { pointer: self@ }),
            self@ == 0 ==> owed is None,
            self@ != 0 ==> owed == Some(ReleaseCall::GlobalFree { pointer: self@ }),
    {
        guard(ReleaseCall::GlobalFree { pointer: self.0 })
    }
}

/// The LsaFreeReturnBuffer function frees the memory used by a buffer previously allocated by the
/// LSA.
pub struct LsaFreeReturnBufferWrapper(pub usize);

impl View for LsaFreeReturnBufferWrapper {
    type V = usize;

    open spec fn view(&self) -> usize {
        self.0
    }
}

impl HasPointer for LsaFreeReturnBufferWrapper {
    fn new() -> Self {
        LsaFreeReturnBufferWrapper(0)
    }

    fn ptr(&self) -> usize {
        self.0
    }

    fn mut_ptr(&mut self) -> usize {
        self.0
    }

    fn mut_ref(&mut self) -> &mut usize {
        &mut self.0
    }
}

impl FromPointer for LsaFreeReturnBufferWrapper {
    fn from_ptr(pointer: usize) -> Self {
        LsaFreeReturnBufferWrapper(pointer)
    }
}

impl LsaFreeReturnBufferWrapper {
    /// Ends the wrapper's life. A pointer that is held is owed one call of
    /// `LsaFreeReturnBuffer`; the null pointer is owed nothing.
    pub fn release(self) -> (owed: Option<ReleaseCall>)
        ensures
            owed == guarded(ReleaseCall::LsaFreeReturnBuffer { pointer: self@ }),
            self@ == 0 ==> owed is None,
            self@ != 0 ==> owed == Some(ReleaseCall::LsaFreeReturnBuffer { pointer: self@ }),
    {
        guard(ReleaseCall::LsaFreeReturnBuffer { pointer: self.0 })
    }
}

/// The NetApiBufferFree function frees the memory that the NetApiBufferAllocate function allocates.
/// Applications should also call NetApiBufferFree to free the memory that other network management
/// functions use internally to return information.
pub struct NetApiBufferFreeWrapper(pub usize);

impl View for NetApiBufferFreeWrapper {
    type V = usize;

    open spec fn view(&self) -> usize {
        self.0
    }
}

impl HasPointer for NetApiBufferFreeWrapper {
    fn new() -> Self {
        NetApiBufferFreeWrapper(0)
    }

    fn ptr(&self) -> usize {
        self.0
    }

    fn mut_ptr(&mut self) -> usize {
        self.0
    }

    fn mut_ref(&mut self) -> &mut usize {
        &mut self.0
    }
}

impl FromPointer for NetApiBufferFreeWrapper {
    fn from_ptr(pointer: usize) -> Self {
        NetApiBufferFreeWrapper(pointer)
    }
}

impl NetApiBufferFreeWrapper {
    /// Ends the wrapper's life. A pointer that is held is owed one call of
    /// `NetApiBufferFree`; the null pointer is owed nothing.
    pub fn release(self) -> (owed: Option<ReleaseCall>)
        ensures
            owed == guarded(ReleaseCall::NetApiBufferFree { pointer: self@ }),
            self@ == 0 ==> owed is None,
            self@ != 0 ==> owed == Some(ReleaseCall::NetApiBufferFree { pointer: self@ }),
    {
        guard(ReleaseCall::NetApiBufferFree { pointer: self.0 })
    }
}

/// Closes an open object handle.
pub struct CloseHandleWrapper(pub usize);

impl View for CloseHandleWrapper {
    type V = usize;

    open spec fn view(&self) -> usize {
        self.0
    }
}

impl HasPointer for CloseHandleWrapper {
    fn new() -> Self {
        CloseHandleWrapper(0)
    }

    fn ptr(&self) -> usize {
        self.0
    }

    fn mut_ptr(&mut self) -> usize {
        self.0
    }

    fn mut_ref(&mut self) -> &mut usize {
        &mut self.0
    }
}

impl FromPointer for CloseHandleWrapper {
    fn from_ptr(pointer: usize) -> Self {
        CloseHandleWrapper(pointer)
    }
}

impl CloseHandleWrapper {
    /// Ends the wrapper's life. A pointer that is held is owed one call of
    /// `CloseHandle`; the null pointer is owed nothing.
    pub fn release(self) -> (owed: Option<ReleaseCall>)
        ensures
            owed == guarded(ReleaseCall::CloseHandle { pointer: self@ }),
            self@ == 0 ==> owed is None,
            self@ != 0 ==> owed == Some(ReleaseCall::CloseHandle { pointer: self@ }),
    {
        guard(ReleaseCall::CloseHandle { pointer: self.0 })
    }
}

/// The FreeSid function frees a security identifier (SID) previously allocated by using the
/// AllocateAndInitializeSid function.
pub struct FreeSidWrapper(pub usize);

impl View for FreeSidWrapper {
    type V = usize;

    open spec fn view(&self) -> usize {
        self.0
    }
}

impl HasPointer for FreeSidWrapper {
    fn new() -> Self {
        FreeSidWrapper(0)
    }

    fn ptr(&self) -> usize {
        self.0
    }

    fn mut_ptr(&mut self) -> usize {
        self.0
    }

    fn mut_ref(&mut self) -> &mut usize {
        &mut self.0
    }
}

impl FromPointer for FreeSidWrapper {
    fn from_ptr(pointer: usize) -> Self {
        FreeSidWrapper(pointer)
    }
}

impl FreeSidWrapper {
    /// Ends the wrapper's life. A pointer that is held is owed one call of
    /// `FreeSid`; the null pointer is owed nothing.
    pub fn release(self) -> (owed: Option<ReleaseCall>)
        ensures
            owed == guarded(ReleaseCall::FreeSid { pointer: self@ }),
            self@ == 0 ==> owed is None,
            self@ != 0 ==> owed == Some(ReleaseCall::FreeSid { pointer: self@ }),
    {
        guard(ReleaseCall::FreeSid { pointer: self.0 })
    }
}

/// The CryptCATAdminReleaseContext function releases the handle previously assigned by the
/// CryptCATAdminAcquireContext function. This function has no associated import library. You must
/// use the LoadLibrary and GetProcAddress functions to dynamically link to Wintrust.dll.
pub struct CryptCATAdminReleaseContextWrapper(pub usize);

impl View for CryptCATAdminReleaseContextWrapper {
    type V = usize;

    open spec fn view(&self) -> usize {
        self.0
    }
}

impl HasPointer for CryptCATAdminReleaseContextWrapper {
    fn new() -> Self {
        CryptCATAdminReleaseContextWrapper(0)
    }

    fn ptr(&self) -> usize {
        self.0
    }

    fn mut_ptr(&mut self) -> usize {
        self.0
    }

    fn mut_ref(&mut self) -> &mut usize {
        &mut self.0
    }
}

impl FromPointer for CryptCATAdminReleaseContextWrapper {
    fn from_ptr(pointer: usize) -> Self {
        CryptCATAdminReleaseContextWrapper(pointer)
    }
}

impl CryptCATAdminReleaseContextWrapper {
    /// Ends the wrapper's life. A pointer that is held is owed one call of
    /// `CryptCATAdminReleaseContext`, with no flags; the null pointer is owed nothing.
    pub fn release(self) -> (owed: Option<ReleaseCall>)
        ensures
            owed == guarded(ReleaseCall::CryptCATAdminReleaseContext { pointer: self@, flags: 0 }),
            self@ == 0 ==> owed is None,
            self@ != 0 ==> owed == Some(ReleaseCall::CryptCATAdminReleaseContext { pointer: self@, flags: 0 }),
    {
        guard(ReleaseCall::CryptCATAdminReleaseContext { pointer: self.0, flags: 0 })
    }
}

/// The CertFreeCertificateContext function frees a certificate context by decrementing its
/// reference count. When the reference count goes to zero, CertFreeCertificateContext frees the
/// memory used by a certificate context.
pub struct CertFreeCertificateContextWrapper(pub usize);

impl View for CertFreeCertificateContextWrapper {
    type V = usize;

    open spec fn view(&self) -> usize {
        self.0
    }
}

impl HasPointer for CertFreeCertificateContextWrapper {
    fn new() -> Self {
        CertFreeCertificateContextWrapper(0)
    }

    fn ptr(&self) -> usize {
        self.0
    }

    fn mut_ptr(&mut self) -> usize {
        self.0
    }

    fn mut_ref(&mut self) -> &mut usize {
        &mut self.0
    }
}

impl FromPointer for CertFreeCertificateContextWrapper {
    fn from_ptr(pointer: usize) -> Self {
        CertFreeCertificateContextWrapper(pointer)
    }
}

impl CertFreeCertificateContextWrapper {
    /// Ends the wrapper's life. A pointer that is held is owed one call of
    /// `CertFreeCertificateContext`; the null pointer is owed nothing.
    pub fn release(self) -> (owed: Option<ReleaseCall>)
        ensures
            owed == guarded(ReleaseCall::CertFreeCertificateContext { pointer: self@ }),
            self@ == 0 ==> owed is None,
            self@ != 0 ==> owed == Some(ReleaseCall::CertFreeCertificateContext { pointer: self@ }),
    {
        guard(ReleaseCall::CertFreeCertificateContext { pointer: self.0 })
    }
}

/// The CryptMsgClose function closes a cryptographic message handle. At each call to this function,
/// the reference count on the message is reduced by one. When the reference count reaches zero, the
/// message is fully released.
pub struct CryptMsgCloseWrapper(pub usize);

impl View for CryptMsgCloseWrapper {
    type V = usize;

    open spec fn view(&self) -> usize {
        self.0
    }
}

impl HasPointer for CryptMsgCloseWrapper {
    fn new() -> Self {
        CryptMsgCloseWrapper(0)
    }

    fn ptr(&self) -> usize {
        self.0
    }

    fn mut_ptr(&mut self) -> usize {
        self.0
    }

    fn mut_ref(&mut self) -> &mut usize {
        &mut self.0
    }
}

impl FromPointer for CryptMsgCloseWrapper {
    fn from_ptr(pointer: usize) -> Self {
        CryptMsgCloseWrapper(pointer)
    }
}

impl CryptMsgCloseWrapper {
    /// Ends the wrapper's life. A pointer that is held is owed one call of
    /// `CryptMsgClose`; the null pointer is owed nothing.
    pub fn release(self) -> (owed: Option<ReleaseCall>)
        ensures
            owed == guarded(ReleaseCall::CryptMsgClose { pointer: self@ }),
            self@ == 0 ==> owed is None,
            self@ != 0 ==> owed == Some(ReleaseCall::CryptMsgClose { pointer: self@ }),
    {
        guard(ReleaseCall::CryptMsgClose { pointer: self.0 })
    }
}

/// The CertCloseStore function closes a certificate store handle and reduces the reference count on
/// the store. There needs to be a corresponding call to CertCloseStore for each successful call to
/// the CertOpenStore or CertDuplicateStore functions.
pub struct CertCloseStoreWrapper(pub usize);

impl View for CertCloseStoreWrapper {
    type V = usize;

    open spec fn view(&self) -> usize {
        self.0
    }
}

impl HasPointer for CertCloseStoreWrapper {
    fn new() -> Self {
        CertCloseStoreWrapper(0)
    }

    fn ptr(&self) -> usize {
        self.0
    }

    fn mut_ptr(&mut self) -> usize {
        self.0
    }

    fn mut_ref(&mut self) -> &mut usize {
        &mut self.0
    }
}

impl FromPointer for CertCloseStoreWrapper {
    fn from_ptr(pointer: usize) -> Self {
        CertCloseStoreWrapper(pointer)
    }
}

impl CertCloseStoreWrapper {
    /// Ends the wrapper's life. A pointer that is held is owed one call of
    /// `CertCloseStore`, with no flags; the null pointer is owed nothing.
    pub fn release(self) -> (owed: Option<ReleaseCall>)
        ensures
            owed == guarded(ReleaseCall::CertCloseStore { pointer: self@, flags: 0 }),
            self@ == 0 ==> owed is None,
            self@ != 0 ==> owed == Some(ReleaseCall::CertCloseStore { pointer: self@, flags: 0 }),
    {
        guard(ReleaseCall::CertCloseStore { pointer: self.0, flags: 0 })
    }
}

/// What a catalog wrapper holds.
pub struct CatalogHandle {
    /// The address of the catalog context; zero is the null pointer.
    pub pointer: usize,
    /// The address that the administrator context holds.
    pub admin: usize,
}

/// The CryptCATAdminReleaseCatalogContext function releases a handle to a catalog context
/// previously returned by the CryptCATAdminAddCatalog function. This function has no associated
/// import library. You must use the LoadLibrary and GetProcAddress functions to dynamically link
/// to Wintrust.dll.
///
/// The release needs the administrator context too, so the wrapper borrows it for as long as
/// it lives: the administrator context cannot be released before this wrapper is.
pub struct CryptCATAdminReleaseCatalogContextWrapper<'ctx>(
    usize,
    &'ctx CryptCATAdminReleaseContextWrapper,
);

impl<'ctx> View for CryptCATAdminReleaseCatalogContextWrapper<'ctx> {
    type V = CatalogHandle;

    closed spec fn view(&self) -> CatalogHandle {
        CatalogHandle { pointer: self.0, admin: self.1@ }
    }
}

impl<'ctx> CryptCATAdminReleaseCatalogContextWrapper<'ctx> {
    /// Builds a new wrapper with a null pointer. The pointer that is handed in
    /// is not taken over.
    pub fn new(_pointer: usize, admin: &'ctx CryptCATAdminReleaseContextWrapper) -> (wrapper: Self)
        ensures
            wrapper@.pointer == 0,
            wrapper@.admin == admin@,
    {
        CryptCATAdminReleaseCatalogContextWrapper(0, admin)
    }

    /// Returns the pointer for reading.
    pub fn ptr(&self) -> (pointer: usize)
        ensures
            pointer == self@.pointer,
    {
        self.0
    }

    /// The region from which a value of type `T` is read at the pointer.
    pub fn read<T>(&self) -> (region: Region)
        ensures
            region.start == self@.pointer,
            region.len == size_of::<T>(),
    {
        region_at::<T>(self.0, 0)
    }

    /// The region from which a value of type `T` is read `offset` bytes from
    /// the pointer.
    pub fn read_offset<T>(&self, offset: isize) -> (region: Region)
        requires
            0 <= self@.pointer + offset <= usize::MAX,
        ensures
            region.start == self@.pointer + offset,
            region.len == size_of::<T>(),
    {
        region_at::<T>(self.0, offset)
    }

    /// The region from which the `n`th value of type `T` is read, in a row of
    /// them that begins at the pointer.
    pub fn nth<T>(&self, n: usize) -> (region: Region)
        requires
            self@.pointer + n * size_of::<T>() <= usize::MAX,
        ensures
            region.start == self@.pointer + n * size_of::<T>(),
            region.len == size_of::<T>(),
    {
        region_of_nth::<T>(self.0, n)
    }

    /// Ends the wrapper's life. A pointer that is held is owed one call of
    /// `CryptCATAdminReleaseCatalogContext`, with the administrator context's
    /// pointer and no flags; the null pointer is owed nothing.
    pub fn release(self) -> (owed: Option<ReleaseCall>)
        ensures
            owed == guarded(
                ReleaseCall::CryptCATAdminReleaseCatalogContext {
                    admin: self@.admin,
                    pointer: self@.pointer,
                    flags: 0,
                },
            ),
            self@.pointer == 0 ==> owed is None,
            self@.pointer != 0 ==> owed == Some(
                ReleaseCall::CryptCATAdminReleaseCatalogContext {
                    admin: self@.admin,
                    pointer: self@.pointer,
                    flags: 0,
                },
            ),
    {
        guard(
            ReleaseCall::CryptCATAdminReleaseCatalogContext {
                admin: self.1.ptr(),
                pointer: self.0,
                flags: 0,
            },
        )
    }
}

} // verus!
