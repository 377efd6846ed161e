use pifu::config::{Config, LinuxConfig, WindowsConfig};
use pifu::error::{Error, ErrorKind};
use pifu::fileset::{copy_filesets, FileSet, GlobMatch, MatchKind};
use pifu::orchestrator::{build_linux, build_windows, BuildOptions, Cell, Decision, Orchestrator};
use pifu::platform::{Arch, Metadata, PlatformTarget};

fn meta() -> Metadata {
    Metadata {
        name: "demo".to_string(),
        product_name: "Demo".to_string(),
        app_id: "org.example.demo".to_string(),
        description: "A demo application".to_string(),
        homepage: "https://example.org".to_string(),
        author: "Jane Doe <jane@example.org>".to_string(),
        copyright: None,
        company: None,
        version: "1.0.0".to_string(),
        build_id: "1".to_string(),
        license: "GPL-3.0".to_string(),
        license_file: None,
        workdir: "/tmp/work".to_string(),
        src_dir: "/tmp/src".to_string(),
    }
}

fn linux_config(arches: Vec<Arch>, targets: Vec<PlatformTarget>) -> LinuxConfig {
    LinuxConfig {
        arch: arches,
        targets,
        files: None,
        app_image: pifu::config::AppImageConfig::default(),
        deb: pifu::config::DebConfig::default(),
        rpm: pifu::config::RpmConfig::default(),
    }
}

#[test]
fn planned_cells_are_the_requested_intersection() {
    let conf = Config {
        metadata: meta(),
        windows: None,
        linux: Some(linux_config(
            vec![Arch::X86_64, Arch::AArch64, Arch::X86],
            vec![PlatformTarget::Deb, PlatformTarget::AppImage],
        )),
    };
    let options = BuildOptions {
        ignore_error: false,
        targets: vec![PlatformTarget::Deb, PlatformTarget::Rpm],
        arches: vec![Arch::X86_64, Arch::X86],
    };
    let cells = build_linux(&conf, &options);
    assert_eq!(
        cells,
        vec![
            Cell { target: PlatformTarget::Deb, arch: Arch::X86_64 },
            Cell { target: PlatformTarget::Deb, arch: Arch::X86 },
        ]
    );
}

#[test]
fn absent_sections_plan_nothing() {
    let conf = Config { metadata: meta(), windows: None, linux: None };
    let options = BuildOptions {
        ignore_error: false,
        targets: vec![PlatformTarget::Deb, PlatformTarget::Nsis],
        arches: vec![Arch::X86_64],
    };
    assert!(build_linux(&conf, &options).is_empty());
    assert!(build_windows(&conf, &options).is_empty());
}

#[test]
fn windows_cells_need_nsis_configured_and_requested() {
    let conf = Config {
        metadata: meta(),
        windows: Some(WindowsConfig {
            arch: vec![Arch::X86_64, Arch::X86],
            targets: vec![PlatformTarget::Nsis],
            exe_file: "demo.exe".to_string(),
            files: None,
            nsis: None,
        }),
        linux: None,
    };
    let options = BuildOptions {
        ignore_error: false,
        targets: vec![PlatformTarget::Nsis],
        arches: vec![Arch::X86],
    };
    let cells = build_windows(&conf, &options);
    assert_eq!(cells, vec![Cell { target: PlatformTarget::Nsis, arch: Arch::X86 }]);
}

#[test]
fn fail_fast_aborts_on_first_failure() {
    let cells = vec![
        Cell { target: PlatformTarget::Deb, arch: Arch::X86_64 },
        Cell { target: PlatformTarget::Rpm, arch: Arch::X86_64 },
        Cell { target: PlatformTarget::AppImage, arch: Arch::X86_64 },
    ];
    // The second cell fails; the third must never be attempted.
    let mut run = Orchestrator::new(false);
    let mut performed = 0;
    for (i, cell) in cells.iter().enumerate() {
        performed += 1;
        let outcome = if i == 1 {
            Some(Error::new(ErrorKind::IoError, "stage failed"))
        } else {
            None
        };
        if run.record(*cell, outcome) == Decision::Abort {
            break;
        }
    }
    assert_eq!(performed, 2);
    assert!(run.aborted);
    assert_eq!(run.attempted, 2);
    assert_eq!(run.failures.len(), 1);
}

#[test]
fn continue_mode_attempts_every_cell_and_reports_each_failure() {
    let cells = vec![
        Cell { target: PlatformTarget::Deb, arch: Arch::X86_64 },
        Cell { target: PlatformTarget::Rpm, arch: Arch::X86_64 },
        Cell { target: PlatformTarget::AppImage, arch: Arch::X86_64 },
    ];
    let mut run = Orchestrator::new(true);
    for (i, cell) in cells.iter().enumerate() {
        let outcome = if i != 2 {
            Some(Error::new(ErrorKind::IoError, "stage failed"))
        } else {
            None
        };
        assert_eq!(run.record(*cell, outcome), Decision::Continue);
    }
    assert_eq!(run.attempted, 3);
    assert!(!run.aborted);
    assert_eq!(run.failures.len(), 2);
    assert_eq!(run.failures[0].0, cells[0]);
    assert_eq!(run.failures[1].0, cells[1]);
}

#[test]
fn empty_glob_match_fails_resolution() {
    let fs = FileSet {
        from: "bin/*".to_string(),
        to: "usr/bin".to_string(),
        filter: None,
        mode: None,
    };
    let jobs = vec![(fs, Vec::<GlobMatch>::new())];
    let err = copy_filesets(&jobs, "/src", "/stage").unwrap_err();
    assert!(matches!(err.kind(), ErrorKind::GlobError));
    assert_eq!(err.message(), "no file is matched with pattern /src/bin/*");
}

#[test]
fn copy_plan_follows_manifest_order() {
    let first = FileSet {
        from: "bin/demo".to_string(),
        to: "usr/bin/demo".to_string(),
        filter: None,
        mode: None,
    };
    let second = FileSet {
        from: "share".to_string(),
        to: "usr/share/demo".to_string(),
        filter: None,
        mode: None,
    };
    let jobs = vec![
        (
            first,
            vec![GlobMatch { path: "/src/bin/demo".to_string(), kind: MatchKind::File }],
        ),
        (
            second,
            vec![GlobMatch { path: "/src/share".to_string(), kind: MatchKind::Dir }],
        ),
    ];
    let plan = copy_filesets(&jobs, "/src", "/stage").unwrap();
    assert_eq!(plan.len(), 2);
    assert_eq!(plan[0].src, "/src/bin/demo");
    assert_eq!(plan[0].dest, "/stage/usr/bin/demo");
    assert!(!plan[0].is_dir);
    assert_eq!(plan[1].src, "/src/share");
    assert_eq!(plan[1].dest, "/stage/usr/share/demo");
    assert!(plan[1].is_dir);
}

#[test]
fn unsupported_match_kind_fails_resolution() {
    let fs = FileSet {
        from: "dev/null".to_string(),
        to: "dev/null".to_string(),
        filter: None,
        mode: None,
    };
    let jobs = vec![
        (fs, vec![GlobMatch { path: "/dev/null".to_string(), kind: MatchKind::Other }]),
    ];
    let err = copy_filesets(&jobs, "/", "/stage").unwrap_err();
    assert!(matches!(err.kind(), ErrorKind::IoError));
    assert_eq!(err.message(), "unsupported file type: /dev/null");
}
