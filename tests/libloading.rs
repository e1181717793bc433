use pardiso_wrapper::{Backend, EntryPoint, SymbolTable};

/// Lookups for a library that exports every entry point of `backend`; each handle is the
/// name it was found under.
fn all_exported(backend: Backend) -> Vec<Option<&'static str>> {
    backend.entry_points().iter().map(|e| Some(e.symbol())).collect()
}

#[test]
fn test_mkl_libloading() {
    let table = SymbolTable::assemble(Backend::Mkl, all_exported(Backend::Mkl));
    assert!(table.is_some(), "MKL pointers not loaded successfully");
    let table = table.unwrap();
    assert_eq!(table.backend(), Backend::Mkl);
    assert_eq!(table.handle(EntryPoint::Pardiso), Some(&"pardiso_"));
    assert_eq!(table.handle(EntryPoint::MklDomainGetMaxThreads), Some(&"mkl_domain_get_max_threads"));
}

#[test]
fn test_panua_libloading() {
    let table = SymbolTable::assemble(Backend::Panua, all_exported(Backend::Panua));
    assert!(table.is_some(), "Panua pointers not loaded successfully");
    let table = table.unwrap();
    assert_eq!(table.backend(), Backend::Panua);
    assert_eq!(table.handle(EntryPoint::PardisoInit), Some(&"pardisoinit_"));
    assert_eq!(table.handle(EntryPoint::PardisoPrintStats), Some(&"pardiso_printstats_"));
}

#[test]
fn one_missing_symbol_invalidates_the_table() {
    for backend in [Backend::Mkl, Backend::Panua] {
        let n = backend.entry_points().len();
        for missing in 0..n {
            let mut lookups = all_exported(backend);
            lookups[missing] = None;
            assert!(SymbolTable::assemble(backend, lookups).is_none());
        }
    }
}

#[test]
fn entry_point_outside_the_backend_has_no_handle() {
    let mkl = SymbolTable::assemble(Backend::Mkl, all_exported(Backend::Mkl)).unwrap();
    assert_eq!(mkl.handle(EntryPoint::PardisoChkVec), None);
    let panua = SymbolTable::assemble(Backend::Panua, all_exported(Backend::Panua)).unwrap();
    assert_eq!(panua.handle(EntryPoint::MklSetDynamic), None);
}

#[test]
fn required_entry_points_and_symbol_names() {
    let mkl: Vec<&str> = Backend::Mkl.entry_points().iter().map(|e| e.symbol()).collect();
    assert_eq!(
        mkl,
        vec![
            "pardiso_",
            "pardisoinit_",
            "mkl_set_num_threads",
            "mkl_set_num_threads_local",
            "mkl_domain_set_num_threads",
            "mkl_get_max_threads",
            "mkl_domain_get_max_threads",
            "mkl_set_dynamic",
        ]
    );
    let panua: Vec<&str> = Backend::Panua.entry_points().iter().map(|e| e.symbol()).collect();
    assert_eq!(
        panua,
        vec!["pardiso_", "pardisoinit_", "pardiso_chkmatrix_", "pardiso_chkvec_", "pardiso_printstats_"]
    );
}
