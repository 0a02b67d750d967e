//! The import database and the stub-library link maps.

use cargo_vitasdk::{
    build_link_map, collect_entries, contains_str, is_conflicting_stub, postfix,
    resolve_stub_lib, stub_lib_name, ExternItem, Link, LinkError, StubResolution, VitaDb,
    VitaImports, VitaImportsLib, VitaImportsModule,
};

fn lib(kernel: bool, functions: &[&str], variables: &[&str]) -> VitaImportsLib {
    VitaImportsLib {
        kernel,
        nid: 0x11223344,
        version: Some(1),
        function_nids: functions.iter().map(|f| (f.to_string(), 1u32)).collect(),
        variable_nids: variables.iter().map(|v| (v.to_string(), 2u32)).collect(),
    }
}

fn imports(firmware: &str, modules: Vec<(&str, VitaImportsModule)>) -> VitaImports {
    VitaImports {
        version: 2,
        firmware: firmware.to_string(),
        modules: modules.into_iter().map(|(n, m)| (n.to_string(), m)).collect(),
    }
}

fn module(libs: Vec<(&str, VitaImportsLib)>) -> VitaImportsModule {
    VitaImportsModule {
        nid: 0x55667788,
        libraries: libs.into_iter().map(|(n, l)| (n.to_string(), l)).collect(),
    }
}

#[test]
fn postfix_is_empty_for_baseline_firmware() {
    assert_eq!(postfix("3.60").render(), "");
    assert_eq!(postfix("3.65").render(), "_365");
    assert_eq!(postfix("0.990").render(), "_0990");
}

#[test]
fn stub_lib_names_carry_the_firmware_postfix() {
    assert_eq!(stub_lib_name("SceLibc", "3.60"), "SceLibc_stub");
    assert_eq!(stub_lib_name("SceLibc", "3.65"), "SceLibc_365_stub");
    assert_eq!(stub_lib_name("SceGxm", "3.60"), "SceGxm_stub");
}

#[test]
fn conflict_list_is_exact() {
    assert!(is_conflicting_stub("SceSysclibForDriver_stub"));
    assert!(is_conflicting_stub("SceLibc_stub"));
    assert!(is_conflicting_stub("SceLibMonoBridge_stub"));
    assert!(is_conflicting_stub("SceRtabi_stub"));
    assert!(!is_conflicting_stub("SceLibc_365_stub"));
    assert!(!is_conflicting_stub("SceGxm_stub"));
}

#[test]
fn contains_str_looks_through_the_list() {
    let v = vec!["a".to_owned(), "bb".to_owned()];
    assert!(contains_str(&v, "bb"));
    assert!(!contains_str(&v, "b"));
}

#[test]
fn from_imports_groups_by_firmware_in_first_appearance_order() {
    let db = VitaDb::from_imports(vec![
        imports("3.60", vec![]),
        imports("3.65", vec![]),
        imports("3.60", vec![]),
    ]);
    assert_eq!(db.files_by_firmware.len(), 2);
    assert_eq!(db.files_by_firmware[0].0, "3.60");
    assert_eq!(db.files_by_firmware[0].1.len(), 2);
    assert_eq!(db.files_by_firmware[1].0, "3.65");
    assert_eq!(db.files_by_firmware[1].1.len(), 1);
}

#[test]
fn remove_conflicting_drops_only_the_conflicting_modules() {
    let mut db = VitaDb::from_imports(vec![imports(
        "3.60",
        vec![
            ("SceLibc", module(vec![])),
            ("SceGxm", module(vec![])),
            ("SceRtabi", module(vec![])),
        ],
    ), imports("3.65", vec![("SceLibc", module(vec![]))])]);
    db.remove_conflicting();
    let kept: Vec<&str> = db.files_by_firmware[0].1[0]
        .modules
        .iter()
        .map(|(n, _)| n.as_str())
        .collect();
    assert_eq!(kept, vec!["SceGxm"]);
    // SceLibc_365_stub is not on the conflict list, so the 3.65 file keeps it
    assert_eq!(db.files_by_firmware[1].1[0].modules.len(), 1);
}

#[test]
fn missing_features_names_ungated_stub_libs() {
    let db = VitaDb::from_imports(vec![imports(
        "3.60",
        vec![("SceGxm", module(vec![])), ("SceDisplay", module(vec![]))],
    )]);
    let features = vec!["SceGxm_stub".to_owned()];
    assert_eq!(db.missing_features(&features), vec!["SceDisplay_stub".to_owned()]);
    assert_eq!(
        db.missing_features(&Vec::new()),
        vec!["SceGxm_stub".to_owned(), "SceDisplay_stub".to_owned()]
    );
}

#[test]
fn collect_entries_skips_kernel_libraries() {
    let imps = vec![imports(
        "3.60",
        vec![(
            "SceGxm",
            module(vec![
                ("SceGxmUser", lib(false, &["sceGxmInitialize"], &["gGxmVar"])),
                ("SceGxmKernel", lib(true, &["sceGxmKernelOnly"], &[])),
            ]),
        )],
    )];
    let fns = collect_entries(&imps, true);
    assert_eq!(fns, vec![("sceGxmInitialize".to_owned(), "SceGxm_stub".to_owned())]);
    let vars = collect_entries(&imps, false);
    assert_eq!(vars, vec![("gGxmVar".to_owned(), "SceGxm_stub".to_owned())]);
}

#[test]
fn build_link_map_refuses_a_symbol_imported_twice() {
    let entries = vec![
        ("a".to_owned(), "X_stub".to_owned()),
        ("b".to_owned(), "X_stub".to_owned()),
        ("a".to_owned(), "Y_stub".to_owned()),
    ];
    assert_eq!(
        build_link_map(&entries),
        Err(LinkError::DuplicateSymbol {
            symbol: "a".to_owned(),
            first: "X_stub".to_owned(),
            second: "Y_stub".to_owned(),
        })
    );
    let entries = vec![
        ("a".to_owned(), "X_stub".to_owned()),
        ("b".to_owned(), "Y_stub".to_owned()),
    ];
    assert_eq!(build_link_map(&entries).unwrap(), entries);
}

#[test]
fn link_load_builds_both_maps() {
    let imps = vec![
        imports(
            "3.60",
            vec![("SceGxm", module(vec![("SceGxmUser", lib(false, &["sceGxmInitialize"], &["gGxmVar"]))]))],
        ),
        imports(
            "3.65",
            vec![("SceDisplay", module(vec![("SceDisplayUser", lib(false, &["sceDisplaySetFrameBuf"], &[]))]))],
        ),
    ];
    let link = Link::load(&imps).unwrap();
    assert_eq!(
        link.function,
        vec![
            ("sceGxmInitialize".to_owned(), "SceGxm_stub".to_owned()),
            ("sceDisplaySetFrameBuf".to_owned(), "SceDisplay_365_stub".to_owned()),
        ]
    );
    assert_eq!(link.variable, vec![("gGxmVar".to_owned(), "SceGxm_stub".to_owned())]);
}

#[test]
fn link_load_reports_a_function_linked_from_two_stubs() {
    let imps = vec![
        imports("3.60", vec![("SceA", module(vec![("A", lib(false, &["sharedSymbol"], &[]))]))]),
        imports("3.60", vec![("SceB", module(vec![("B", lib(false, &["sharedSymbol"], &[]))]))]),
    ];
    assert_eq!(
        Link::load(&imps),
        Err(LinkError::DuplicateSymbol {
            symbol: "sharedSymbol".to_owned(),
            first: "SceA_stub".to_owned(),
            second: "SceB_stub".to_owned(),
        })
    );
}

fn pairs(v: &[(&str, &str)]) -> Vec<(String, String)> {
    v.iter().map(|(a, b)| (a.to_string(), b.to_string())).collect()
}

#[test]
fn resolve_stub_lib_agrees_undefined_or_conflicts() {
    let functions = pairs(&[("f1", "SceA_stub"), ("f2", "SceA_stub"), ("g1", "SceB_stub")]);
    let variables = pairs(&[("v1", "SceA_stub")]);

    let items = vec![
        ExternItem::Function { name: "f1".to_owned() },
        ExternItem::Other,
        ExternItem::Static { name: "v1".to_owned() },
        ExternItem::Function { name: "f2".to_owned() },
    ];
    assert_eq!(
        resolve_stub_lib(&items, &functions, &variables),
        StubResolution::Resolved { stub: Some("SceA_stub".to_owned()) }
    );

    let items = vec![ExternItem::Other];
    assert_eq!(
        resolve_stub_lib(&items, &functions, &variables),
        StubResolution::Resolved { stub: None }
    );

    let items = vec![
        ExternItem::Function { name: "f1".to_owned() },
        ExternItem::Function { name: "printf".to_owned() },
    ];
    assert_eq!(
        resolve_stub_lib(&items, &functions, &variables),
        StubResolution::Undefined { symbol: "printf".to_owned() }
    );

    let items = vec![
        ExternItem::Function { name: "f1".to_owned() },
        ExternItem::Function { name: "g1".to_owned() },
    ];
    assert_eq!(
        resolve_stub_lib(&items, &functions, &variables),
        StubResolution::Incompatible {
            first: "SceA_stub".to_owned(),
            second: "SceB_stub".to_owned(),
        }
    );
}
