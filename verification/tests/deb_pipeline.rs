use std::io::Read;

use pifu::archive::TarEntry;
use pifu::config::{DebConfig, LinuxConfig};
use pifu::fileset::FileSet;
use pifu::deb::{build_deb, resolve_deb_files};
use pifu::platform::{Arch, Metadata};

fn meta() -> Metadata {
    Metadata {
        name: "demo".to_string(),
        product_name: "Demo".to_string(),
        app_id: "org.example.demo".to_string(),
        description: "A demo application".to_string(),
        homepage: "https://example.org".to_string(),
        author: "Jane Doe <jane@example.org>".to_string(),
        copyright: None,
        company: None,
        version: "1.0.0".to_string(),
        build_id: "1".to_string(),
        license: "GPL-3.0".to_string(),
        license_file: None,
        workdir: "/tmp/work".to_string(),
        src_dir: "/tmp/src".to_string(),
    }
}

#[test]
fn end_to_end_deb_for_one_staged_file() {
    let tree = vec![
        TarEntry {
            path: "usr".to_string(),
            mode: 0o755,
            mtime: 5,
            is_dir: true,
            data: Vec::new(),
        },
        TarEntry {
            path: "usr/bin".to_string(),
            mode: 0o755,
            mtime: 5,
            is_dir: true,
            data: Vec::new(),
        },
        TarEntry {
            path: "usr/bin/demo".to_string(),
            mode: 0o755,
            mtime: 5,
            is_dir: false,
            data: b"#!/bin/sh\necho demo\n".to_vec(),
        },
    ];
    let deb_conf = DebConfig::default();
    let artifact = build_deb(&meta(), &deb_conf, Arch::X86_64, &tree, 0).unwrap();

    assert_eq!(artifact.file_name, "demo_1.0.0_amd64.deb");

    // The final archive holds exactly the three members, in order.
    let mut archive = ar::Archive::new(&artifact.deb[..]);
    let mut names: Vec<String> = Vec::new();
    let mut payloads: Vec<Vec<u8>> = Vec::new();
    while let Some(entry) = archive.next_entry() {
        let mut entry = entry.unwrap();
        names.push(String::from_utf8(entry.header().identifier().to_vec()).unwrap());
        let mut data = Vec::new();
        entry.read_to_end(&mut data).unwrap();
        payloads.push(data);
    }
    assert_eq!(names, vec!["debian-binary", "control.tar.xz", "data.tar.xz"]);
    assert_eq!(payloads[0], b"2.0\n");

    // The data member decompresses to a tar holding the staged file.
    let mut decoder = xz2::read::XzDecoder::new(&payloads[2][..]);
    let mut data_tar = Vec::new();
    decoder.read_to_end(&mut data_tar).unwrap();
    assert_eq!(data_tar, artifact.data_tar);
    let mut data_archive = tar::Archive::new(&data_tar[..]);
    let mut file_paths: Vec<String> = Vec::new();
    for entry in data_archive.entries().unwrap() {
        let entry = entry.unwrap();
        if entry.header().entry_type().is_file() {
            file_paths.push(entry.path().unwrap().to_string_lossy().into_owned());
        }
    }
    assert_eq!(file_paths, vec!["./usr/bin/demo".to_string()]);

    // The control member holds the record and the digest list.
    let mut decoder = xz2::read::XzDecoder::new(&payloads[1][..]);
    let mut control_tar = Vec::new();
    decoder.read_to_end(&mut control_tar).unwrap();
    let mut control_archive = tar::Archive::new(&control_tar[..]);
    let mut members: Vec<(String, Vec<u8>)> = Vec::new();
    for entry in control_archive.entries().unwrap() {
        let mut entry = entry.unwrap();
        let path = entry.path().unwrap().to_string_lossy().into_owned();
        let mut data = Vec::new();
        entry.read_to_end(&mut data).unwrap();
        members.push((path, data));
    }
    assert_eq!(members.len(), 2);
    assert_eq!(members[0].0, "./control");
    assert_eq!(members[1].0, "./md5sum");
    let control_text = String::from_utf8(members[0].1.clone()).unwrap();
    assert_eq!(control_text, artifact.control_text);
    assert!(control_text.starts_with("Package: demo\n"));
    assert!(control_text.contains("Installed-Size: 20\n"));
    let md5_text = String::from_utf8(members[1].1.clone()).unwrap();
    let expected_digest = hex::encode(md5::compute(b"#!/bin/sh\necho demo\n").0);
    assert_eq!(md5_text, format!("{}  usr/bin/demo\n", expected_digest));
}

#[test]
fn deb_files_override_beats_shared_list_and_absence_fails() {
    let shared = FileSet {
        from: "shared/*".to_string(),
        to: "usr/share".to_string(),
        filter: None,
        mode: None,
    };
    let specific = FileSet {
        from: "bin/*".to_string(),
        to: "usr/bin".to_string(),
        filter: None,
        mode: None,
    };

    let mut deb = DebConfig::default();
    deb.files = Some(vec![specific.clone()]);
    let linux = LinuxConfig {
        arch: vec![Arch::X86_64],
        targets: vec![],
        files: Some(vec![shared.clone()]),
        app_image: pifu::config::AppImageConfig::default(),
        deb: DebConfig::default(),
        rpm: pifu::config::RpmConfig::default(),
    };
    let chosen = resolve_deb_files(&deb, &linux).unwrap();
    assert_eq!(chosen.len(), 1);
    assert_eq!(chosen[0].from, "bin/*");

    let deb_plain = DebConfig::default();
    let chosen = resolve_deb_files(&deb_plain, &linux).unwrap();
    assert_eq!(chosen[0].from, "shared/*");

    let linux_bare = LinuxConfig {
        arch: vec![Arch::X86_64],
        targets: vec![],
        files: None,
        app_image: pifu::config::AppImageConfig::default(),
        deb: DebConfig::default(),
        rpm: pifu::config::RpmConfig::default(),
    };
    let err = resolve_deb_files(&deb_plain, &linux_bare).unwrap_err();
    assert!(matches!(err.kind(), pifu::error::ErrorKind::FilesNotSet));
}
