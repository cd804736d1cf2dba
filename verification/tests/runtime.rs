use libghostty_vt_zed::paths::{path_components_of, same_path_as};
use libghostty_vt_zed::runtime::{
    candidate_dynamic_library_dirs, directory_contains_ghostty_library, executable_search_dirs,
    initialize_runtime, join_path, linux_readiness_probe, runtime_sanity_check_applies,
    sanity_check_due,
    is_ghostty_dynamic_library_name, push_unique_path, resolve_dynamic_library_dir,
    runtime_sanity_check, RuntimeError, TargetOs,
};

#[test]
fn library_names_per_system() {
    assert!(is_ghostty_dynamic_library_name("libghostty-vt.so", TargetOs::Linux));
    assert!(is_ghostty_dynamic_library_name("libghostty-vt.so.0", TargetOs::Linux));
    assert!(is_ghostty_dynamic_library_name("libghostty-vt.so.0.1.2", TargetOs::Linux));
    assert!(!is_ghostty_dynamic_library_name("libghostty-vt.so.a", TargetOs::Linux));
    assert!(!is_ghostty_dynamic_library_name("libghostty-vt.so.la", TargetOs::Linux));
    assert!(!is_ghostty_dynamic_library_name("libghostty-vt.a", TargetOs::Linux));
    assert!(!is_ghostty_dynamic_library_name("libghostty-vt.dylib", TargetOs::Linux));
    assert!(is_ghostty_dynamic_library_name("libghostty-vt.dylib", TargetOs::MacOs));
    assert!(is_ghostty_dynamic_library_name("libghostty-vt.0.dylib", TargetOs::MacOs));
    assert!(!is_ghostty_dynamic_library_name("libghostty-vt.so", TargetOs::MacOs));
    assert!(!is_ghostty_dynamic_library_name("libghostty-vt.so", TargetOs::Other));
    assert!(!is_ghostty_dynamic_library_name("libghostty-vt.dylib", TargetOs::Other));
}

#[test]
fn directory_listing_is_searched_for_the_library() {
    let names = vec!["README".to_owned(), "libghostty-vt.so.0".to_owned()];
    assert!(directory_contains_ghostty_library(&names, TargetOs::Linux));
    assert!(!directory_contains_ghostty_library(&names, TargetOs::MacOs));
    assert!(!directory_contains_ghostty_library(&Vec::new(), TargetOs::Linux));
}

#[test]
fn candidate_paths_are_unique_in_first_order() {
    let mut paths = vec!["/a".to_owned()];
    push_unique_path(&mut paths, "/b".to_owned());
    push_unique_path(&mut paths, "/a".to_owned());
    assert_eq!(paths, vec!["/a".to_owned(), "/b".to_owned()]);

    let linux = candidate_dynamic_library_dirs("/build/out", Some("/opt/app/bin"), Some("/opt/app"), TargetOs::Linux);
    assert_eq!(
        linux,
        vec![
            "/build/out".to_owned(),
            "/opt/app/bin".to_owned(),
            "/opt/app/bin/../lib".to_owned(),
            "/opt/app/bin/lib".to_owned(),
        ]
    );
    let same_dir = candidate_dynamic_library_dirs("/opt/app/bin", Some("/opt/app/bin"), Some("/opt/app"), TargetOs::Linux);
    assert_eq!(
        same_dir,
        vec!["/opt/app/bin".to_owned(), "/opt/app/bin/../lib".to_owned(), "/opt/app/bin/lib".to_owned()]
    );
    let mac = candidate_dynamic_library_dirs(
        "/build/out",
        Some("/Applications/Zed.app/Contents/MacOS"),
        Some("/Applications/Zed.app/Contents"),
        TargetOs::MacOs,
    );
    assert_eq!(
        mac,
        vec![
            "/build/out".to_owned(),
            "/Applications/Zed.app/Contents/MacOS".to_owned(),
            "/Applications/Zed.app/Contents/Frameworks".to_owned(),
        ]
    );
    let mac_root = candidate_dynamic_library_dirs("/build/out", Some("/"), None, TargetOs::MacOs);
    assert_eq!(mac_root, vec!["/build/out".to_owned(), "/".to_owned()]);
    let other = candidate_dynamic_library_dirs("/build/out", Some("/opt/app/bin"), Some("/opt/app"), TargetOs::Other);
    assert_eq!(other, vec!["/build/out".to_owned(), "/opt/app/bin".to_owned()]);
    let unknown = candidate_dynamic_library_dirs("/build/out", None, None, TargetOs::Linux);
    assert_eq!(unknown, vec!["/build/out".to_owned()]);
}

#[test]
fn search_dirs_join_like_paths() {
    assert_eq!(join_path("/opt/app", "lib"), "/opt/app/lib");
    assert_eq!(join_path("/", "lib"), "/lib");
    assert_eq!(join_path("", "lib"), "lib");
    assert_eq!(
        executable_search_dirs("bin", None, TargetOs::Linux),
        vec!["bin".to_owned(), "bin/../lib".to_owned(), "bin/lib".to_owned()]
    );
    assert_eq!(executable_search_dirs("bin", None, TargetOs::MacOs), vec!["bin".to_owned()]);
}

#[test]
fn resolution_picks_the_first_directory_holding_the_library() {
    let candidates = vec!["/x".to_owned(), "/y".to_owned(), "/z".to_owned()];
    let found = resolve_dynamic_library_dir(&candidates, &vec![false, true, true], "abc123");
    assert_eq!(found.expect("found"), "/y");
    let missing = resolve_dynamic_library_dir(&candidates, &vec![false, false, false], "abc123")
        .expect_err("missing");
    assert_eq!(
        missing.message(),
        "libghostty-vt dynamic library not found in runtime search paths [`/x`, `/y`, `/z`] (commit `abc123`)"
    );
}

#[test]
fn initialization_reports_runtime_info_or_the_first_failure() {
    let candidates = vec!["/build".to_owned(), "/exe".to_owned()];
    let info = initialize_runtime(Some("/build"), None, "c0ffee", &candidates, &vec![false, true], Ok(()))
        .expect("dynamic");
    assert_eq!(info.commit, "c0ffee");
    assert_eq!(info.library_dir, "/exe");
    assert_eq!(info.link_kind, "dynamic");

    let info = initialize_runtime(Some("/build"), Some("static"), "c0ffee", &candidates, &vec![false, false], Ok(()))
        .expect("static");
    assert_eq!(info.library_dir, "/build");
    assert_eq!(info.link_kind, "static");

    let error = initialize_runtime(None, None, "c0ffee", &candidates, &vec![true, true], Ok(()))
        .expect_err("no build output");
    assert_eq!(error.message(), "libghostty-vt build output path was not provided");

    let error = initialize_runtime(Some("/build"), Some("dynamic"), "c0ffee", &candidates, &vec![false, false], Ok(()))
        .expect_err("not found");
    assert!(error.message().starts_with("libghostty-vt dynamic library not found"));

    let sanity = Err(RuntimeError::new("render init failed: out of memory".to_owned()));
    let error = initialize_runtime(Some("/build"), None, "c0ffee", &candidates, &vec![true, false], sanity)
        .expect_err("sanity");
    assert_eq!(error.message(), "render init failed: out of memory");
}

#[test]
fn sanity_check_rejects_zero_rows() {
    assert!(runtime_sanity_check(4).is_ok());
    assert_eq!(
        runtime_sanity_check(0).expect_err("zero rows").message(),
        "ghostty render state returned zero rows during runtime sanity check"
    );
}

#[test]
fn readiness_probe_only_on_linux() {
    let info = libghostty_vt_zed::runtime::RuntimeInfo {
        commit: "c0ffee",
        library_dir: "/build".to_owned(),
        link_kind: "dynamic",
    };
    assert_eq!(linux_readiness_probe(TargetOs::Linux, Some(Ok(info.clone()))).expect("linux"), info);
    let error = linux_readiness_probe(TargetOs::MacOs, None).expect_err("macos");
    assert_eq!(error.message(), "linux ghostty readiness probe is only available on linux");
    assert!(linux_readiness_probe(TargetOs::Other, Some(Ok(info))).is_err());
    assert!(runtime_sanity_check_applies(TargetOs::Linux));
    assert!(runtime_sanity_check_applies(TargetOs::MacOs));
    assert!(!runtime_sanity_check_applies(TargetOs::Other));
}

#[test]
fn paths_compare_by_components() {
    assert_eq!(path_components_of("/x/lib/"), vec!["/".to_owned(), "x".to_owned(), "lib".to_owned()]);
    assert_eq!(path_components_of("a//./b/."), vec!["a".to_owned(), "b".to_owned()]);
    assert_eq!(path_components_of("./a"), vec![".".to_owned(), "a".to_owned()]);
    assert_eq!(path_components_of("."), vec![".".to_owned()]);
    assert_eq!(path_components_of(""), Vec::<String>::new());
    assert_eq!(path_components_of("a/../b"), vec!["a".to_owned(), "..".to_owned(), "b".to_owned()]);
    let cases = [
        ("/x/lib/", "/x/lib"),
        ("a/./b", "a/b"),
        ("a//b", "a/b"),
        ("./a", "a"),
        ("/a", "a"),
        ("a/../b", "b"),
        ("/", "//"),
        (".", ""),
        ("a/b/.", "a/b"),
        (".hidden", "hidden"),
    ];
    for (a, b) in cases {
        assert_eq!(
            same_path_as(a, b),
            std::path::Path::new(a) == std::path::Path::new(b),
            "{a:?} {b:?}"
        );
    }
}

#[test]
fn candidates_drop_directories_that_are_the_same_path() {
    let candidates = candidate_dynamic_library_dirs("/x/lib/", Some("/x/lib"), Some("/x"), TargetOs::Linux);
    assert_eq!(
        candidates,
        vec!["/x/lib/".to_owned(), "/x/lib/../lib".to_owned(), "/x/lib/lib".to_owned()]
    );
    let mut paths = vec!["/a/./b".to_owned()];
    push_unique_path(&mut paths, "/a/b/".to_owned());
    assert_eq!(paths, vec!["/a/./b".to_owned()]);
    push_unique_path(&mut paths, "a/b".to_owned());
    assert_eq!(paths, vec!["/a/./b".to_owned(), "a/b".to_owned()]);
}

#[test]
fn sanity_check_runs_only_after_locating_on_unix() {
    let info = libghostty_vt_zed::runtime::RuntimeInfo {
        commit: "c0ffee",
        library_dir: "/build".to_owned(),
        link_kind: "dynamic",
    };
    assert!(sanity_check_due(TargetOs::Linux, &Ok(info.clone())));
    assert!(sanity_check_due(TargetOs::MacOs, &Ok(info.clone())));
    assert!(!sanity_check_due(TargetOs::Other, &Ok(info)));
    assert!(!sanity_check_due(TargetOs::Linux, &Err(RuntimeError::new("x".to_owned()))));
}
