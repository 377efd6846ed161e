use pifu::archive::TarEntry;
use pifu::config::DebConfig;
use pifu::control::{arch_name, generate_control, generate_deb_binary, generate_md5sum};
use pifu::platform::{Arch, Metadata};
use pifu::utils::get_folder_size;

fn meta() -> Metadata {
    Metadata {
        name: "demo".to_string(),
        product_name: "Demo".to_string(),
        app_id: "org.example.demo".to_string(),
        description: "A demo application".to_string(),
        homepage: "https://example.org".to_string(),
        author: "Jane Doe <jane@example.org>".to_string(),
        copyright: None,
        company: None,
        version: "1.0.0".to_string(),
        build_id: "1".to_string(),
        license: "GPL-3.0".to_string(),
        license_file: None,
        workdir: "/tmp/work".to_string(),
        src_dir: "/tmp/src".to_string(),
    }
}

#[test]
fn control_record_with_no_optional_fields() {
    let deb = DebConfig::default();
    let text = generate_control(&meta(), &deb, Arch::X86_64, 1234);
    let expected = "Package: demo\n\
                    Version: 1.0.0\n\
                    Architecture: amd64\n\
                    Priority: utility\n\
                    Standards-Version: 3.9.4\n\
                    Maintainer: Jane Doe <jane@example.org>\n\
                    Installed-Size: 1234\n\
                    Homepage: https://example.org\n\
                    Description: A demo application\n";
    assert_eq!(text, expected);
    for absent in ["Section:", "Depends:", "Conflicts:", "Breaks:", "Replaces:", "Provides:"] {
        assert!(!text.contains(absent));
    }
    for present in [
        "Package:",
        "Version:",
        "Architecture:",
        "Priority:",
        "Maintainer:",
        "Installed-Size:",
        "Description:",
    ] {
        assert!(text.contains(present));
    }
}

#[test]
fn control_record_emits_configured_fields_in_order() {
    let mut deb = DebConfig::default();
    deb.section = Some("utils".to_string());
    deb.depends = Some("libc6 (>= 2.31)".to_string());
    deb.conflicts = Some("olddemo".to_string());
    let text = generate_control(&meta(), &deb, Arch::X86, 7);
    assert!(text.contains("Section: utils\n"));
    assert!(text.contains("Architecture: i386\n"));
    assert!(text.contains("Depends: libc6 (>= 2.31)\n"));
    assert!(text.contains("Conflicts: olddemo\n"));
    let depends_at = text.find("Depends:").unwrap();
    let conflicts_at = text.find("Conflicts:").unwrap();
    let size_at = text.find("Installed-Size:").unwrap();
    assert!(size_at < depends_at && depends_at < conflicts_at);
}

#[test]
fn md5_manifest_has_one_correct_line_per_file() {
    let entries = vec![
        TarEntry {
            path: "usr".to_string(),
            mode: 0o755,
            mtime: 0,
            is_dir: true,
            data: Vec::new(),
        },
        TarEntry {
            path: "usr/bin/demo".to_string(),
            mode: 0o755,
            mtime: 0,
            is_dir: false,
            data: b"#!/bin/sh\n".to_vec(),
        },
        TarEntry {
            path: "usr/share/doc".to_string(),
            mode: 0o644,
            mtime: 0,
            is_dir: false,
            data: b"docs".to_vec(),
        },
    ];
    let text = generate_md5sum(&entries);
    let lines: Vec<&str> = text.lines().collect();
    assert_eq!(lines.len(), 2);
    for line in &lines {
        let (digest, path) = line.split_once("  ").unwrap();
        assert_eq!(digest.len(), 32);
        assert!(digest.chars().all(|c| c.is_ascii_hexdigit()));
        let entry = entries.iter().find(|e| e.path == path).unwrap();
        let recomputed = hex::encode(md5::compute(&entry.data).0);
        assert_eq!(digest, recomputed);
    }
    assert!(text.ends_with('\n'));
}

#[test]
fn folder_size_sums_file_bytes_only() {
    let entries = vec![
        TarEntry {
            path: "d".to_string(),
            mode: 0o755,
            mtime: 0,
            is_dir: true,
            data: Vec::new(),
        },
        TarEntry {
            path: "d/a".to_string(),
            mode: 0o644,
            mtime: 0,
            is_dir: false,
            data: vec![0u8; 10],
        },
        TarEntry {
            path: "d/b".to_string(),
            mode: 0o644,
            mtime: 0,
            is_dir: false,
            data: vec![0u8; 32],
        },
    ];
    assert_eq!(get_folder_size(&entries), 42);
}

#[test]
fn deb_binary_marker_is_protocol_version_line() {
    assert_eq!(generate_deb_binary(), "2.0\n");
}

#[test]
fn arch_names_match_debian_conventions() {
    assert_eq!(arch_name(Arch::X86), "i386");
    assert_eq!(arch_name(Arch::X86_64), "amd64");
    assert_eq!(arch_name(Arch::AArch64), "arm64");
    assert_eq!(arch_name(Arch::Mips64), "mips64el");
}
