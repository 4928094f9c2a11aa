use cpython_api_core::build_helper::{
    clang_args, find_python_lib, forward_flags, gil_disabled, print_linker_args, test_link_lines,
    BuildDir, LinkError,
};
use cpython_api_core::version::libraries_in_order;

fn strings(items: &[&str]) -> Vec<String> {
    items.iter().map(|s| s.to_string()).collect()
}

#[test]
fn shared_build_prints_each_word() {
    let lines = print_linker_args(Some("1"), Some("-shared '-Wl,-rpath,/a b' \"-lm\" c\\ d")).unwrap();
    assert_eq!(
        lines,
        strings(&[
            "cargo:rustc-link-arg=-shared",
            "cargo:rustc-link-arg=-Wl,-rpath,/a b",
            "cargo:rustc-link-arg=-lm",
            "cargo:rustc-link-arg=c d",
        ])
    );
}

#[test]
fn static_build_prints_nothing() {
    assert_eq!(print_linker_args(Some("0"), None).unwrap(), strings(&[]));
    assert_eq!(print_linker_args(Some("11"), Some("'")).unwrap(), strings(&[]));
}

#[test]
fn link_errors() {
    assert_eq!(print_linker_args(None, Some("-lm")), Err(LinkError::NoSharedBuild));
    assert_eq!(print_linker_args(Some("1"), None), Err(LinkError::NoSharedArgs));
    assert_eq!(print_linker_args(Some("1"), Some("a 'b")), Err(LinkError::InvalidSharedArgs));
    assert_eq!(LinkError::NoSharedBuild.message(), "RUST_SHARED_BUILD not set in Makefile?");
    assert_eq!(LinkError::NoSharedArgs.message(), "BLDSHARED_ARGS not set in Makefile?");
    assert_eq!(LinkError::InvalidSharedArgs.message(), "Invalid BUILDSHARED_ARGS");
}

#[test]
fn flags_that_are_passed_on() {
    let flags = strings(&["-I/x", "-O2", "-DNDEBUG", "--sysroot=/s", "-isysroot", "/s", "-isystem/y", "-W"]);
    assert_eq!(
        forward_flags(&flags),
        strings(&["-I/x", "-DNDEBUG", "--sysroot=/s", "-isysroot", "-isystem/y"])
    );
}

#[test]
fn arguments_for_clang() {
    let dirs = strings(&["/src", "/src/Include"]);
    assert_eq!(
        clang_args(Some("wasm32-wasip1"), Some("-I'/a b' -g -DX=1"), &dirs),
        strings(&["-w", "--target=wasm32-wasip1", "-I/a b", "-DX=1", "-I/src", "-I/src/Include"])
    );
    assert_eq!(clang_args(None, None, &[]), strings(&["-w"]));
    // Flags that no shell can split are passed over.
    assert_eq!(clang_args(None, Some("-I/a '"), &dirs[..1]), strings(&["-w", "-I/src"]));
}

#[test]
fn lock_of_the_interpreter() {
    assert!(!gil_disabled(&[]));
    assert!(!gil_disabled(&[None, Some("/* #undef Py_GIL_DISABLED */".to_string())]));
    assert!(gil_disabled(&[None, Some("x\n#define Py_GIL_DISABLED 1\ny".to_string())]));
    assert!(gil_disabled(&[Some("Py_GIL_DISABLED 1".to_string())]));
}

#[test]
fn last_library_is_linked() {
    let files = strings(&[
        "libpython3.14.a",
        "libpython3.15.a",
        "libpython3.9.so",
        "libpython3.13d.a",
        "libm.a",
        "python.a",
        "libpython",
    ]);
    assert_eq!(find_python_lib(&files), Some("python3.15".to_string()));
    assert_eq!(find_python_lib(&files[2..3]), None);
    // Versions are compared by their numbers.
    let files = strings(&["libpython3.15.a", "libpython3.9.a", "libpython3.a", "libpython.a"]);
    assert_eq!(find_python_lib(&files), Some("python3.15".to_string()));
    assert_eq!(find_python_lib(&files[2..]), Some("python3".to_string()));
    let files = strings(&["libpython10.0.a", "libpython9.99.a", "libpython9.99.1.a"]);
    assert_eq!(find_python_lib(&files), Some("python10.0".to_string()));
    assert_eq!(find_python_lib(&files[1..]), Some("python9.99.1".to_string()));
    assert_eq!(find_python_lib(&strings(&["libpython3.15.a", "libpython3.15t.a"])), Some("python3.15t".to_string()));
}

#[test]
fn order_of_libraries() {
    assert!(libraries_in_order("python3.9", "python3.15", 6));
    assert!(!libraries_in_order("python3.15", "python3.9", 6));
    assert!(libraries_in_order("python3.9", "python3.9", 6));
    assert!(libraries_in_order("python3.015", "python3.15", 6));
    assert!(libraries_in_order("python3.15", "python3.15d", 6));
    assert!(libraries_in_order("python3.9x", "python3.15", 6));
    // Numbers that are too large are all the same.
    assert!(libraries_in_order("python18446744073709551614", "python18446744073709551615", 6));
    assert!(!libraries_in_order("python18446744073709551615", "python18446744073709551614", 6));
    assert!(libraries_in_order("python18446744073709551616", "python99999999999999999999", 6));
}

#[test]
fn lines_of_the_test_build() {
    assert_eq!(test_link_lines("windows", None), strings(&[]));
    let first = strings(&[
        "cargo:rustc-link-arg-tests=-Wl,--unresolved-symbols=ignore-all",
        "cargo:rustc-link-arg-tests=-Wl,-z,lazy",
        "cargo:rerun-if-env-changed=PYTHON_BUILD_DIR",
    ]);
    assert_eq!(test_link_lines("linux", None), first);
    let mut build = BuildDir {
        dir: "/b".to_string(),
        archive: "/b/libpython3.15.a".to_string(),
        files: Vec::new(),
    };
    let mut lines = first.clone();
    lines.extend(strings(&[
        "cargo:rerun-if-changed=/b/libpython3.15.a",
        "cargo:rustc-check-cfg=cfg(has_libpython)",
    ]));
    assert_eq!(test_link_lines("linux", Some(&build)), lines);
    build.files = strings(&["libpython3.15.a"]);
    lines.extend(strings(&[
        "cargo:rustc-link-arg-tests=-L/b",
        "cargo:rustc-link-arg-tests=-lpython3.15",
        "cargo:rustc-link-arg-tests=-lm",
        "cargo:rustc-link-arg-tests=-ldl",
        "cargo:rustc-link-arg-tests=-lpthread",
        "cargo:rustc-link-arg-tests=-lutil",
        "cargo:rustc-cfg=has_libpython",
    ]));
    assert_eq!(test_link_lines("linux", Some(&build)), lines);
}
