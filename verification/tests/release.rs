use cellophane::{
    guard, CertCloseStoreWrapper, CertFreeCertificateContextWrapper, CloseHandleWrapper,
    CryptCATAdminReleaseCatalogContextWrapper, CryptCATAdminReleaseContextWrapper,
    CryptMsgCloseWrapper, FreeSidWrapper, FreeWrapper, FromPointer, GlobalFreeWrapper, HasPointer,
    LocalFreeWrapper, LsaFreeReturnBufferWrapper, NetApiBufferFreeWrapper, Region, ReleaseCall,
};

#[test]
fn guard_owes_nothing_for_null() {
    assert_eq!(guard(ReleaseCall::Free { pointer: 0 }), None);
    assert_eq!(guard(ReleaseCall::CloseHandle { pointer: 0 }), None);
    assert_eq!(guard(ReleaseCall::CertCloseStore { pointer: 0, flags: 0 }), None);
    assert_eq!(
        guard(ReleaseCall::CryptCATAdminReleaseCatalogContext { admin: 5, pointer: 0, flags: 0 }),
        None
    );
}

#[test]
fn guard_owes_the_call_for_a_held_pointer() {
    let call = ReleaseCall::LocalFree { pointer: 1 };
    assert_eq!(guard(call), Some(call));
    let call = ReleaseCall::CryptCATAdminReleaseCatalogContext { admin: 0, pointer: 9, flags: 0 };
    assert_eq!(guard(call), Some(call));
    let call = ReleaseCall::FreeSid { pointer: usize::MAX };
    assert_eq!(guard(call), Some(call));
}

#[test]
fn target_of_a_call_is_what_it_releases() {
    assert_eq!(ReleaseCall::Free { pointer: 1 }.target(), 1);
    assert_eq!(ReleaseCall::LocalFree { pointer: 2 }.target(), 2);
    assert_eq!(ReleaseCall::GlobalFree { pointer: 3 }.target(), 3);
    assert_eq!(ReleaseCall::LsaFreeReturnBuffer { pointer: 4 }.target(), 4);
    assert_eq!(ReleaseCall::NetApiBufferFree { pointer: 5 }.target(), 5);
    assert_eq!(ReleaseCall::CloseHandle { pointer: 6 }.target(), 6);
    assert_eq!(ReleaseCall::FreeSid { pointer: 7 }.target(), 7);
    assert_eq!(ReleaseCall::CryptCATAdminReleaseContext { pointer: 8, flags: 0 }.target(), 8);
    assert_eq!(
        ReleaseCall::CryptCATAdminReleaseCatalogContext { admin: 100, pointer: 9, flags: 0 }
            .target(),
        9
    );
    assert_eq!(ReleaseCall::CertFreeCertificateContext { pointer: 10 }.target(), 10);
    assert_eq!(ReleaseCall::CryptMsgClose { pointer: 11 }.target(), 11);
    assert_eq!(ReleaseCall::CertCloseStore { pointer: 12, flags: 0 }.target(), 12);
}

#[test]
fn null_wrappers_owe_nothing() {
    assert_eq!(FreeWrapper::new().release(), None);
    assert_eq!(LocalFreeWrapper::new().release(), None);
    assert_eq!(GlobalFreeWrapper::new().release(), None);
    assert_eq!(LsaFreeReturnBufferWrapper::new().release(), None);
    assert_eq!(NetApiBufferFreeWrapper::new().release(), None);
    assert_eq!(CloseHandleWrapper::new().release(), None);
    assert_eq!(FreeSidWrapper::new().release(), None);
    assert_eq!(CryptCATAdminReleaseContextWrapper::new().release(), None);
    assert_eq!(CertFreeCertificateContextWrapper::new().release(), None);
    assert_eq!(CryptMsgCloseWrapper::new().release(), None);
    assert_eq!(CertCloseStoreWrapper::new().release(), None);
}

#[test]
fn wrappers_built_from_null_owe_nothing() {
    assert_eq!(FreeWrapper::from_ptr(0).release(), None);
    assert_eq!(LocalFreeWrapper::from_ptr(0).release(), None);
    assert_eq!(GlobalFreeWrapper::from_ptr(0).release(), None);
    assert_eq!(LsaFreeReturnBufferWrapper::from_ptr(0).release(), None);
    assert_eq!(NetApiBufferFreeWrapper::from_ptr(0).release(), None);
    assert_eq!(CloseHandleWrapper::from_ptr(0).release(), None);
    assert_eq!(FreeSidWrapper::from_ptr(0).release(), None);
    assert_eq!(CryptCATAdminReleaseContextWrapper::from_ptr(0).release(), None);
    assert_eq!(CertFreeCertificateContextWrapper::from_ptr(0).release(), None);
    assert_eq!(CryptMsgCloseWrapper::from_ptr(0).release(), None);
    assert_eq!(CertCloseStoreWrapper::from_ptr(0).release(), None);
}

#[test]
fn each_wrapper_owes_the_function_it_is_bound_to() {
    assert_eq!(FreeWrapper::from_ptr(16).release(), Some(ReleaseCall::Free { pointer: 16 }));
    assert_eq!(
        LocalFreeWrapper::from_ptr(17).release(),
        Some(ReleaseCall::LocalFree { pointer: 17 })
    );
    assert_eq!(
        GlobalFreeWrapper::from_ptr(18).release(),
        Some(ReleaseCall::GlobalFree { pointer: 18 })
    );
    assert_eq!(
        LsaFreeReturnBufferWrapper::from_ptr(19).release(),
        Some(ReleaseCall::LsaFreeReturnBuffer { pointer: 19 })
    );
    assert_eq!(
        NetApiBufferFreeWrapper::from_ptr(20).release(),
        Some(ReleaseCall::NetApiBufferFree { pointer: 20 })
    );
    assert_eq!(
        CloseHandleWrapper::from_ptr(21).release(),
        Some(ReleaseCall::CloseHandle { pointer: 21 })
    );
    assert_eq!(FreeSidWrapper::from_ptr(22).release(), Some(ReleaseCall::FreeSid { pointer: 22 }));
    assert_eq!(
        CryptCATAdminReleaseContextWrapper::from_ptr(23).release(),
        Some(ReleaseCall::CryptCATAdminReleaseContext { pointer: 23, flags: 0 })
    );
    assert_eq!(
        CertFreeCertificateContextWrapper::from_ptr(24).release(),
        Some(ReleaseCall::CertFreeCertificateContext { pointer: 24 })
    );
    assert_eq!(
        CryptMsgCloseWrapper::from_ptr(25).release(),
        Some(ReleaseCall::CryptMsgClose { pointer: 25 })
    );
    assert_eq!(
        CertCloseStoreWrapper::from_ptr(26).release(),
        Some(ReleaseCall::CertCloseStore { pointer: 26, flags: 0 })
    );
}

#[test]
fn public_field_is_the_pointer() {
    let mut store = CertCloseStoreWrapper(0);
    store.0 = 0x5000;
    assert_eq!(store.ptr(), 0x5000);
    assert_eq!(store.release(), Some(ReleaseCall::CertCloseStore { pointer: 0x5000, flags: 0 }));
}

#[test]
fn release_counted_on_a_mock() {
    let mut calls: Vec<ReleaseCall> = Vec::new();
    let wrappers = vec![
        GlobalFreeWrapper::from_ptr(0),
        GlobalFreeWrapper::from_ptr(0x10),
        GlobalFreeWrapper::new(),
        GlobalFreeWrapper::from_ptr(0x20),
    ];
    for wrapper in wrappers {
        if let Some(call) = wrapper.release() {
            calls.push(call);
        }
    }
    assert_eq!(
        calls,
        vec![ReleaseCall::GlobalFree { pointer: 0x10 }, ReleaseCall::GlobalFree { pointer: 0x20 }]
    );
}

#[test]
fn catalog_wrapper_starts_null_and_owes_nothing() {
    let admin = CryptCATAdminReleaseContextWrapper::from_ptr(0x9000);
    let catalog = CryptCATAdminReleaseCatalogContextWrapper::new(0x1234, &admin);
    assert_eq!(catalog.ptr(), 0);
    assert_eq!(catalog.release(), None);
    assert_eq!(
        admin.release(),
        Some(ReleaseCall::CryptCATAdminReleaseContext { pointer: 0x9000, flags: 0 })
    );
}

#[test]
fn catalog_wrapper_reads_from_its_pointer() {
    let admin = CryptCATAdminReleaseContextWrapper::new();
    let catalog = CryptCATAdminReleaseCatalogContextWrapper::new(0, &admin);
    assert_eq!(catalog.read::<u32>(), Region { start: 0, len: 4 });
    assert_eq!(catalog.read_offset::<u32>(24), Region { start: 24, len: 4 });
    assert_eq!(catalog.nth::<u64>(5), Region { start: 40, len: 8 });
    assert_eq!(admin.ptr(), 0);
}

#[test]
fn two_catalog_wrappers_share_one_context() {
    let admin = CryptCATAdminReleaseContextWrapper::from_ptr(0x9000);
    let first = CryptCATAdminReleaseCatalogContextWrapper::new(1, &admin);
    let second = CryptCATAdminReleaseCatalogContextWrapper::new(2, &admin);
    assert_eq!(second.release(), None);
    assert_eq!(first.release(), None);
    assert_eq!(admin.ptr(), 0x9000);
}
