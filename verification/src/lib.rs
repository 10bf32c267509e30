//! Single-ownership wrappers for foreign pointers that must be released.
//!
//! A wrapper holds one address handed out by a foreign allocator and is bound,
//! by its type, to the one function that releases it. This crate holds the
//! bookkeeping: which address a wrapper holds, which memory a structured read
//! covers, and which release call is owed when the wrapper's life ends. The
//! foreign calls themselves are made by the caller, from the plans given here.

pub mod codegen;
pub mod free;
pub mod pointer;
pub mod release;
pub mod windows;

pub use codegen::{
    derive_from_pointer, derive_has_pointer, expand_freeing, expand_from_pointer,
    expand_has_pointer, freeing, Item, ParseError,
};
pub use free::FreeWrapper;
pub use pointer::{region_at, region_of_nth, FromPointer, HasPointer, Region};
pub use release::{guard, ReleaseCall};
pub use windows::{
    CatalogHandle, CertCloseStoreWrapper, CertFreeCertificateContextWrapper, CloseHandleWrapper,
    CryptCATAdminReleaseCatalogContextWrapper, CryptCATAdminReleaseContextWrapper,
    CryptMsgCloseWrapper, FreeSidWrapper, GlobalFreeWrapper, LocalFreeWrapper,
    LsaFreeReturnBufferWrapper, NetApiBufferFreeWrapper,
};
