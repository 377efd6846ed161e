use pifu::expand::{expand_file_macro, expand_file_macro_simple, get_env, SimpleMacroValues};
use pifu::platform::{Arch, Metadata, PlatformTarget};

fn values() -> SimpleMacroValues {
    SimpleMacroValues {
        git: Some("1a2b3c4".to_string()),
        date: "20210509".to_string(),
        date_time: "20210509095200".to_string(),
        timestamp: "1620525294".to_string(),
        env: vec![("USER".to_string(), "alice".to_string())],
    }
}

fn meta() -> Metadata {
    Metadata {
        name: "demo".to_string(),
        product_name: "Demo".to_string(),
        app_id: "org.example.demo".to_string(),
        description: "A demo application".to_string(),
        homepage: "https://example.org".to_string(),
        author: "Jane Doe <jane@example.org>".to_string(),
        copyright: None,
        company: None,
        version: "1.0.0".to_string(),
        build_id: "1".to_string(),
        license: "GPL-3.0".to_string(),
        license_file: None,
        workdir: "/tmp/work".to_string(),
        src_dir: "/tmp/src".to_string(),
    }
}

#[test]
fn test_expand_file_macro_simple() {
    let vals = values();

    let s = "app-${git}.deb";
    let ret = expand_file_macro_simple(s, &vals);
    assert!(ret.is_ok());
    assert_eq!(ret.unwrap().len(), 15);

    let s = "app-${date}.deb";
    let ret = expand_file_macro_simple(s, &vals);
    assert!(ret.is_ok());
    assert_eq!(ret.unwrap().len(), 16);

    let s = "app-${date-time}.deb";
    let ret = expand_file_macro_simple(s, &vals);
    assert!(ret.is_ok());
    assert_eq!(ret.unwrap().len(), 22);

    let s = "app-${timestamp}.deb";
    let ret = expand_file_macro_simple(s, &vals);
    assert!(ret.is_ok());
    assert_eq!(ret.unwrap().len(), 18);

    let s = "app-${env.USER}.deb";
    let ret = expand_file_macro_simple(s, &vals);
    assert!(ret.is_ok());
    assert!(ret.unwrap().len() > 9);
}

#[test]
fn test_get_env() {
    let vars = vec![("USER".to_string(), "alice".to_string())];
    let s = get_env("USER", &vars);
    assert!(s.is_ok());
    assert_eq!(s.unwrap(), "alice");
}

#[test]
fn get_env_unset_fails() {
    let vars = vec![("USER".to_string(), "alice".to_string())];
    let s = get_env("NO_SUCH_VARIABLE", &vars);
    assert!(s.is_err());
    assert!(matches!(
        s.unwrap_err().kind(),
        pifu::error::ErrorKind::EnvironmentNotSetError
    ));
}

#[test]
fn expansion_is_idempotent_on_resolved_strings() {
    let vals = values();
    let s = "app-1a2b3c4_alice.deb";
    let once = expand_file_macro_simple(s, &vals).unwrap();
    assert_eq!(once, s);
    let twice = expand_file_macro_simple(&once, &vals).unwrap();
    assert_eq!(twice, once);
}

#[test]
fn env_value_lands_verbatim_and_no_token_remains() {
    let vals = values();
    let out = expand_file_macro_simple("pkg-${env.USER}-x-${env.USER}", &vals).unwrap();
    assert_eq!(out, "pkg-alice-x-alice");
    assert!(out.contains("alice"));
    assert!(!out.contains("${env.USER}"));
    assert!(!out.contains("${env."));
}

#[test]
fn unset_env_token_fails() {
    let vals = values();
    let ret = expand_file_macro_simple("pkg-${env.NOPE}", &vals);
    assert!(ret.is_err());
    assert!(matches!(
        ret.unwrap_err().kind(),
        pifu::error::ErrorKind::EnvironmentNotSetError
    ));
}

#[test]
fn missing_git_hash_fails_only_when_used() {
    let mut vals = values();
    vals.git = None;
    let ok = expand_file_macro_simple("app.deb", &vals);
    assert_eq!(ok.unwrap(), "app.deb");
    let bad = expand_file_macro_simple("app-${git}.deb", &vals);
    assert!(matches!(
        bad.unwrap_err().kind(),
        pifu::error::ErrorKind::GitHashError
    ));
}

#[test]
fn unknown_tokens_stay_verbatim() {
    let vals = values();
    let out = expand_file_macro_simple("a-${nope}-${date}", &vals).unwrap();
    assert_eq!(out, "a-${nope}-20210509");
}

#[test]
fn context_pass_expands_extension_arch_and_metadata() {
    let vals = values();
    let out = expand_file_macro(
        "${name}-${version}-${arch}.${ext}",
        &vals,
        &meta(),
        Arch::X86_64,
        PlatformTarget::Deb,
    )
    .unwrap();
    assert_eq!(out, "demo-1.0.0-x86_64.deb");
}

#[test]
fn simple_tokens_resolve_before_context_tokens() {
    let vals = values();
    let out = expand_file_macro(
        "${name}-${date}.${ext}",
        &vals,
        &meta(),
        Arch::X86,
        PlatformTarget::Nsis,
    )
    .unwrap();
    assert_eq!(out, "demo-20210509.exe");
}
