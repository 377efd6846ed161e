use pifu::config::{
    default_arch, default_artifact_name, default_compress_method, default_exclude_libs,
    default_false, default_linux_targets, default_priority, default_true, default_windows_targets,
    CompressMethod, DebConfig,
};
use pifu::expand::{format_date, format_date_time, format_signed, get_date, get_date_time, get_timestamp};
use pifu::hash::{md5_hex, sha256sum};
use pifu::platform::{get_target_arch, Arch, PlatformTarget};
use pifu::utils::mv;

#[test]
fn test_get_date() {
    let t = get_date();
    assert_eq!(t.len(), 8);
}

#[test]
fn test_get_date_time() {
    let t = get_date_time();
    assert_eq!(t.len(), 14);
}

#[test]
fn test_get_timestamp() {
    let t = get_timestamp();
    assert_eq!(t.len(), 10);
}

#[test]
fn date_formatting_zero_pads_every_field() {
    assert_eq!(format_date(2021, 5, 9), "20210509");
    assert_eq!(format_date(987, 12, 31), "09871231");
    assert_eq!(format_date(-44, 3, 15), "-00440315");
    assert_eq!(format_date_time(2021, 5, 9, 9, 52, 0), "20210509095200");
    assert_eq!(format_signed(1620525294), "1620525294");
    assert_eq!(format_signed(-5), "-5");
    assert_eq!(format_signed(0), "0");
}

#[test]
fn sha256_of_known_input() {
    let digest = sha256sum(&b"abc".to_vec()).unwrap();
    assert_eq!(
        digest,
        "ba7816bf8f01cfea414140de5dae2223b00361a396177a9cb410ff61f20015ad"
    );
}

#[test]
fn md5_of_known_input() {
    assert_eq!(md5_hex(&b"abc".to_vec()), "900150983cd24fb0d6963f7d28e17f72");
    assert_eq!(md5_hex(&Vec::new()), "d41d8cd98f00b204e9800998ecf8427e");
}

#[test]
fn arch_parsing_accepts_all_aliases() {
    assert_eq!(Arch::parse("x86"), Some(Arch::X86));
    assert_eq!(Arch::parse("i386"), Some(Arch::X86));
    assert_eq!(Arch::parse("i686"), Some(Arch::X86));
    assert_eq!(Arch::parse("x86_64"), Some(Arch::X86_64));
    assert_eq!(Arch::parse("amd64"), Some(Arch::X86_64));
    assert_eq!(Arch::parse("arm64"), Some(Arch::AArch64));
    assert_eq!(Arch::parse("aarch64"), Some(Arch::AArch64));
    assert_eq!(Arch::parse("mips64"), Some(Arch::Mips64));
    assert_eq!(Arch::parse("sparc"), None);
}

#[test]
fn target_parsing_and_extensions() {
    assert_eq!(PlatformTarget::parse("deb"), Some(PlatformTarget::Deb));
    assert_eq!(PlatformTarget::parse("rpm"), Some(PlatformTarget::Rpm));
    assert_eq!(PlatformTarget::parse("app_image"), Some(PlatformTarget::AppImage));
    assert_eq!(PlatformTarget::parse("AppImage"), Some(PlatformTarget::AppImage));
    assert_eq!(PlatformTarget::parse("nsis"), Some(PlatformTarget::Nsis));
    assert_eq!(PlatformTarget::parse("msi"), None);
    assert_eq!(PlatformTarget::Deb.extension(), "deb");
    assert_eq!(PlatformTarget::Rpm.extension(), "rpm");
    assert_eq!(PlatformTarget::AppImage.extension(), "AppImage");
    assert_eq!(PlatformTarget::Nsis.extension(), "exe");
}

#[test]
fn target_arch_mapping_covers_supported_set() {
    assert_eq!(get_target_arch("x86_64"), Some(Arch::X86_64));
    assert_eq!(get_target_arch("aarch64"), Some(Arch::AArch64));
    assert_eq!(get_target_arch("riscv64"), None);
}

#[test]
fn arch_display_names() {
    assert_eq!(Arch::X86.name(), "x86");
    assert_eq!(Arch::X86_64.name(), "x86_64");
    assert_eq!(Arch::AArch64.name(), "aarch64");
    assert_eq!(Arch::Mips64.name(), "mips64");
}

#[test]
fn configuration_defaults() {
    assert!(default_true());
    assert!(!default_false());
    assert_eq!(default_arch(), vec![Arch::X86_64]);
    assert_eq!(
        default_linux_targets(),
        vec![PlatformTarget::Deb, PlatformTarget::AppImage]
    );
    assert_eq!(default_windows_targets(), vec![PlatformTarget::Nsis]);
    assert_eq!(default_priority(), "utility");
    assert_eq!(default_artifact_name(), "${product_name} Setup ${version}.${ext}");
    assert_eq!(default_compress_method(), CompressMethod::Lzma);
    assert_eq!(default_exclude_libs(), Vec::<String>::new());
    assert_eq!(CompressMethod::Lzma.name(), "lzma");

    let deb = DebConfig::default();
    assert_eq!(deb.priority, "utility");
    assert!(deb.section.is_none());
    assert!(deb.files.is_none());
}

#[test]
fn mv_is_a_no_op_success() {
    assert!(mv("workdir/RPMS/*/*.rpm", "workdir").is_ok());
}
