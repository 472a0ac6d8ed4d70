use winkernl::builds::{
    find_best_km_dir, get_arch_from_target, version_less_or_equal, version_parts, KmDirChoice, KmDirEntry,
    DEFAULT_TARGET_ARCH, ENV_KM_LIB_OVERRIDE, NTOSKRNL_LIB_NAME,
};

fn dir(name: &str, lib: bool) -> KmDirEntry {
    KmDirEntry { is_dir: true, name: Some(name.to_string()), has_kernel_library: lib }
}

#[test]
fn arch_from_target() {
    assert_eq!(get_arch_from_target("x86_64-pc-windows-msvc"), ("x64", true));
    assert_eq!(get_arch_from_target("i686-pc-windows-msvc"), ("x86", true));
    assert_eq!(get_arch_from_target("i586-pc-windows-msvc"), ("x86", true));
    assert_eq!(get_arch_from_target("i486-unknown"), ("x86", true));
    assert_eq!(get_arch_from_target("aarch64-pc-windows-msvc"), ("arm64", true));
    assert_eq!(get_arch_from_target("riscv64gc-unknown-linux-gnu"), ("x64", false));
    assert_eq!(get_arch_from_target(""), ("x64", false));
    assert_eq!(get_arch_from_target(DEFAULT_TARGET_ARCH), ("x64", true));
}

#[test]
fn constants() {
    assert_eq!(ENV_KM_LIB_OVERRIDE, "WINDOWS_KITS_KM_LIB");
    assert_eq!(NTOSKRNL_LIB_NAME, "ntoskrnl.lib");
}

#[test]
fn version_numbers() {
    assert_eq!(version_parts("10.0.22621.0"), vec![10, 0, 22621, 0]);
    assert_eq!(version_parts("10.0.x.5"), vec![10, 0, 5]);
    assert_eq!(version_parts("10."), vec![10]);
    assert_eq!(version_parts("abc"), Vec::<u64>::new());
    assert_eq!(version_parts("+7.08"), vec![7, 8]);
    assert_eq!(version_parts("18446744073709551616.1"), vec![1]);
}

#[test]
fn version_order() {
    assert!(version_less_or_equal(&[10, 0, 19041, 0], &[10, 0, 22621, 0]));
    assert!(!version_less_or_equal(&[10, 0, 22621, 0], &[10, 0, 19041, 0]));
    assert!(version_less_or_equal(&[10, 0], &[10, 0, 1]));
    assert!(!version_less_or_equal(&[10, 0, 1], &[10, 0]));
    assert!(version_less_or_equal(&[10, 0, 1], &[10, 0, 1]));
    assert!(version_less_or_equal(&[], &[]));
}

#[test]
fn best_versioned_directory() {
    let entries = vec![
        dir("10.0.19041.0", true),
        dir("10.0.22621.0", true),
        dir("10.0.26100.0", false),
        dir("10.0.17763.0", true),
        dir("wdf", true),
    ];
    assert_eq!(find_best_km_dir(&entries, &entries), Some(KmDirChoice::Versioned(1)));
}

#[test]
fn equal_versions_take_the_last() {
    let entries = vec![dir("10.0.22621.0", true), dir("10.0.22621.0.", true), dir("10.0.1", true)];
    assert_eq!(find_best_km_dir(&entries, &entries), Some(KmDirChoice::Versioned(1)));
}

#[test]
fn fallback_to_any_directory() {
    let first = vec![
        dir("wdf", false),
        KmDirEntry { is_dir: false, name: Some("10.0.1.0".to_string()), has_kernel_library: true },
        KmDirEntry { is_dir: true, name: None, has_kernel_library: true },
    ];
    let second = vec![
        KmDirEntry { is_dir: false, name: Some("file".to_string()), has_kernel_library: true },
        dir("wdf", false),
        KmDirEntry { is_dir: true, name: None, has_kernel_library: true },
        dir("other", true),
    ];
    assert_eq!(find_best_km_dir(&first, &second), Some(KmDirChoice::Any(2)));
}

#[test]
fn nothing_found() {
    let entries = vec![dir("10.0.1.0", false), dir("9.0", false)];
    assert_eq!(find_best_km_dir(&entries, &entries), None);
    assert_eq!(find_best_km_dir(&[], &[]), None);
}
