//! Release calls and the guard that decides whether one is owed.

use vstd::prelude::*;

verus! {

/// One call of a release function, with the arguments it is handed.
///
/// Each variant stands for one foreign function. `pointer` is the address
/// being released; a flags argument is always zero.
#[derive(Debug, Clone, Copy, PartialEq, Eq)]
pub enum ReleaseCall {
    /// `free(pointer)` of the C library.
    Free { pointer: usize },
    /// `LocalFree(pointer)`.
    LocalFree { pointer: usize },
    /// `GlobalFree(pointer)`.
    GlobalFree { pointer: usize },
    /// `LsaFreeReturnBuffer(pointer)`.
    LsaFreeReturnBuffer { pointer: usize },
    /// `NetApiBufferFree(pointer)`.
    NetApiBufferFree { pointer: usize },
    /// `CloseHandle(pointer)`.
    CloseHandle { pointer: usize },
    /// `FreeSid(pointer)`.
    FreeSid { pointer: usize },
    /// `CryptCATAdminReleaseContext(pointer, flags)`.
    CryptCATAdminReleaseContext { pointer: usize, flags: u32 },
    /// `CryptCATAdminReleaseCatalogContext(admin, pointer, flags)`.
    CryptCATAdminReleaseCatalogContext { admin: usize, pointer: usize, flags: u32 },
    /// `CertFreeCertificateContext(pointer)`.
    CertFreeCertificateContext { pointer: usize },
    /// `CryptMsgClose(pointer)`.
    CryptMsgClose { pointer: usize },
    /// `CertCloseStore(pointer, flags)`.
    CertCloseStore { pointer: usize, flags: u32 },
}

impl ReleaseCall {
    /// The address that the call releases.
    pub open spec fn spec_target(&self) -> usize {
        match *self {
            ReleaseCall::Free { pointer } => pointer,
            ReleaseCall::LocalFree { pointer } => pointer,
            ReleaseCall::GlobalFree { pointer } => pointer,
            ReleaseCall::LsaFreeReturnBuffer { pointer } => pointer,
            ReleaseCall::NetApiBufferFree { pointer } => pointer,
            ReleaseCall::CloseHandle { pointer } => pointer,
            ReleaseCall::FreeSid { pointer } => pointer,
            ReleaseCall::CryptCATAdminReleaseContext { pointer, .. } => pointer,
            ReleaseCall::CryptCATAdminReleaseCatalogContext { pointer, .. } => pointer,
            ReleaseCall::CertFreeCertificateContext { pointer } => pointer,
            ReleaseCall::CryptMsgClose { pointer } => pointer,
            ReleaseCall::CertCloseStore { pointer, .. } => pointer,
        }
    }

    /// The address that the call releases.
    #[verifier::when_used_as_spec(spec_target)]
    pub fn target(&self) -> (pointer: usize)
        ensures
            pointer == self.spec_target(),
    {
        match *self {
            ReleaseCall::Free { pointer } => pointer,
            ReleaseCall::LocalFree { pointer } => pointer,
            ReleaseCall::GlobalFree { pointer } => pointer,
            ReleaseCall::LsaFreeReturnBuffer { pointer } => pointer,
            ReleaseCall::NetApiBufferFree { pointer } => pointer,
            ReleaseCall::CloseHandle { pointer } => pointer,
            ReleaseCall::FreeSid { pointer } => pointer,
            ReleaseCall::CryptCATAdminReleaseContext { pointer, .. } => pointer,
            ReleaseCall::CryptCATAdminReleaseCatalogContext { pointer, .. } => pointer,
            ReleaseCall::CertFreeCertificateContext { pointer } => pointer,
            ReleaseCall::CryptMsgClose { pointer } => pointer,
            ReleaseCall::CertCloseStore { pointer, .. } => pointer,
        }
    }
}

/// What the end of a wrapper's life owes: nothing for the null pointer, else
/// the one call `call`.
pub open spec fn guarded(call: ReleaseCall) -> Option<ReleaseCall> {
    if call.target() == 0 {
        None
    } else {
        Some(call)
    }
}

/// The guard of every finalizer: `call` is owed unless it would release the
/// null pointer.
pub fn guard(call: ReleaseCall) -> (owed: Option<ReleaseCall>)
    ensures
        owed == guarded(call),
        call.target() == 0 ==> owed is None,
        call.target() != 0 ==> owed == Some(call),
{
    if call.target() != 0 {
        Some(call)
    } else {
        None
    }
}

/// A wrapper that holds the null pointer owes no release call, whatever
/// function it is bound to.
pub proof fn lemma_null_owes_nothing(call: ReleaseCall)
    requires
        call.target() == 0,
    ensures
        guarded(call) is None,
{
}

/// A wrapper that holds a pointer owes one release call: that of the function
/// it is bound to, handed the very pointer it holds.
pub proof fn lemma_held_pointer_owes_its_call(call: ReleaseCall)
    requires
        call.target() != 0,
    ensures
        guarded(call) == Some(call),
        guarded(call) matches Some(owed) && owed.target() == call.target(),
{
}

} // verus!
