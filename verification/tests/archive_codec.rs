use std::io::Read;

use pifu::archive::{create_ar_files, create_tar, create_tar_without_rootdir, ArMember, TarEntry};
use pifu::compress::{create_gz, create_xz2};

fn file_entry(path: &str, mode: u32, mtime: u64, data: &[u8]) -> TarEntry {
    TarEntry {
        path: path.to_string(),
        mode,
        mtime,
        is_dir: false,
        data: data.to_vec(),
    }
}

fn dir_entry(path: &str, mode: u32, mtime: u64) -> TarEntry {
    TarEntry {
        path: path.to_string(),
        mode,
        mtime,
        is_dir: true,
        data: Vec::new(),
    }
}

#[test]
fn tar_round_trip_preserves_paths_sizes_and_modes() {
    let entries = vec![
        dir_entry("usr", 0o755, 11),
        dir_entry("usr/bin", 0o755, 12),
        file_entry("usr/bin/demo", 0o755, 13, b"#!/bin/sh\necho demo\n"),
        file_entry("usr/bin/other", 0o644, 14, b"data"),
    ];
    let bytes = create_tar_without_rootdir(&entries).unwrap();

    let mut archive = tar::Archive::new(&bytes[..]);
    let mut seen: Vec<(String, u64, u32, bool)> = Vec::new();
    for entry in archive.entries().unwrap() {
        let entry = entry.unwrap();
        let header = entry.header();
        let path = entry.path().unwrap().to_string_lossy().into_owned();
        let is_dir = header.entry_type().is_dir();
        seen.push((
            path.trim_end_matches('/').to_string(),
            header.size().unwrap(),
            header.mode().unwrap(),
            is_dir,
        ));
    }
    let expected = vec![
        ("./usr".to_string(), 0u64, 0o755u32, true),
        ("./usr/bin".to_string(), 0, 0o755, true),
        ("./usr/bin/demo".to_string(), 20, 0o755, false),
        ("./usr/bin/other".to_string(), 4, 0o644, false),
    ];
    assert_eq!(seen, expected);

    // Contents survive as well.
    let mut archive = tar::Archive::new(&bytes[..]);
    for entry in archive.entries().unwrap() {
        let mut entry = entry.unwrap();
        let path = entry.path().unwrap().to_string_lossy().into_owned();
        if path == "./usr/bin/demo" {
            let mut content = Vec::new();
            entry.read_to_end(&mut content).unwrap();
            assert_eq!(content, b"#!/bin/sh\necho demo\n");
        }
    }
}

#[test]
fn tar_with_root_keeps_root_as_first_segment() {
    let entries = vec![
        dir_entry("", 0o755, 0),
        file_entry("a.txt", 0o644, 0, b"hello"),
    ];
    let bytes = create_tar("demo-1.0.0", &entries).unwrap();
    let mut archive = tar::Archive::new(&bytes[..]);
    let paths: Vec<String> = archive
        .entries()
        .unwrap()
        .map(|e| {
            e.unwrap()
                .path()
                .unwrap()
                .to_string_lossy()
                .trim_end_matches('/')
                .to_string()
        })
        .collect();
    assert_eq!(paths, vec!["demo-1.0.0".to_string(), "demo-1.0.0/a.txt".to_string()]);
}

#[test]
fn ar_round_trip_keeps_members_order_and_content() {
    let members = vec![
        ArMember { name: "debian-binary".to_string(), data: b"2.0\n".to_vec() },
        ArMember { name: "control.tar.xz".to_string(), data: vec![1, 2, 3] },
        ArMember { name: "data.tar.xz".to_string(), data: vec![4, 5, 6, 7] },
    ];
    let bytes = create_ar_files(&members).unwrap();

    let mut archive = ar::Archive::new(&bytes[..]);
    let mut seen: Vec<(String, Vec<u8>)> = Vec::new();
    while let Some(entry) = archive.next_entry() {
        let mut entry = entry.unwrap();
        let name = String::from_utf8(entry.header().identifier().to_vec()).unwrap();
        let mut data = Vec::new();
        entry.read_to_end(&mut data).unwrap();
        seen.push((name, data));
    }
    assert_eq!(seen.len(), 3);
    assert_eq!(seen[0], ("debian-binary".to_string(), b"2.0\n".to_vec()));
    assert_eq!(seen[1], ("control.tar.xz".to_string(), vec![1, 2, 3]));
    assert_eq!(seen[2], ("data.tar.xz".to_string(), vec![4, 5, 6, 7]));
}

#[test]
fn xz_compression_round_trips() {
    let data: Vec<u8> = (0..100_000u32).map(|i| (i % 251) as u8).collect();
    let compressed = create_xz2(&data).unwrap();
    assert!(compressed.len() < data.len());
    let mut decoder = xz2::read::XzDecoder::new(&compressed[..]);
    let mut decompressed = Vec::new();
    decoder.read_to_end(&mut decompressed).unwrap();
    assert_eq!(decompressed, data);
}

#[test]
fn gz_compression_round_trips() {
    let data = b"the quick brown fox jumps over the lazy dog".repeat(100);
    let compressed = create_gz(&data).unwrap();
    let mut decoder = flate2::read::GzDecoder::new(&compressed[..]);
    let mut decompressed = Vec::new();
    decoder.read_to_end(&mut decompressed).unwrap();
    assert_eq!(decompressed, data);
}
