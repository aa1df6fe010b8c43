use rodep::config::Config;
use rodep::error::AddError;
use rodep::layout::{choose_source_dir, get_src_directory, source_candidates};
use rodep::paths::{join_path, last_segment_of};
use rodep::resolve::{dependency_from_url, resolve_name};

const BASE: &str = "https://github.com/";

#[test]
fn join_path_inserts_one_separator() {
    assert_eq!(join_path("lib", "bar"), "lib/bar");
    assert_eq!(join_path("lib/", "bar"), "lib/bar");
    assert_eq!(join_path("", "bar"), "bar");
    assert_eq!(join_path("lib", "/abs/src"), "/abs/src");
    assert_eq!(join_path("lib/bar", "src"), "lib/bar/src");
}

#[test]
fn last_segment_is_text_after_last_slash() {
    assert_eq!(last_segment_of("foo/bar"), "bar");
    assert_eq!(last_segment_of("roact"), "roact");
    assert_eq!(last_segment_of("foo/"), "");
    assert_eq!(last_segment_of(""), "");
    assert_eq!(last_segment_of("a/b/c-d"), "c-d");
}

#[test]
fn resolves_owner_and_repository() {
    let d = resolve_name(BASE, "foo/bar", "lib").unwrap();
    assert_eq!(d.resolved_url, "https://github.com/foo/bar");
    assert_eq!(d.name, "bar");
    assert_eq!(d.destination_path, "lib/bar");
}

#[test]
fn resolved_name_is_tokens_last_segment() {
    for token in ["Roblox/roact", "rodux", "a/b-c", "some-org/with-hyphens", "x/y/z"] {
        let d = resolve_name(BASE, token, "lib").unwrap();
        assert_eq!(d.name, last_segment_of(token));
        assert!(d.resolved_url.ends_with(&format!("/{}", d.name)));
        assert_eq!(d.destination_path, format!("lib/{}", d.name));
    }
}

#[test]
fn empty_name_is_invalid() {
    assert!(matches!(resolve_name(BASE, "", "lib"), Err(AddError::InvalidName)));
}

#[test]
fn name_without_final_segment_is_invalid() {
    assert!(matches!(resolve_name(BASE, "foo/", "lib"), Err(AddError::InvalidName)));
}

#[test]
fn name_that_url_rewrites_is_invalid() {
    assert!(matches!(resolve_name(BASE, "foo bar", "lib"), Err(AddError::InvalidName)));
    assert!(matches!(resolve_name(BASE, "foo?x=1", "lib"), Err(AddError::InvalidName)));
}

#[test]
fn unparseable_base_is_invalid() {
    assert!(matches!(resolve_name("not a url", "foo", "lib"), Err(AddError::InvalidName)));
}

#[test]
fn substituted_base_is_used() {
    let d = resolve_name("https://git.example.org/mirror/", "foo/bar", "deps").unwrap();
    assert_eq!(d.resolved_url, "https://git.example.org/mirror/foo/bar");
    assert_eq!(d.destination_path, "deps/bar");
}

#[test]
fn dependency_from_url_checks_segment() {
    let d = dependency_from_url(
        "foo/bar",
        Some("https://github.com/foo/bar".to_string()),
        Some("bar".to_string()),
        "lib",
    )
    .unwrap();
    assert_eq!(d.name, "bar");
    assert_eq!(d.resolved_url, "https://github.com/foo/bar");
    assert_eq!(d.destination_path, "lib/bar");
    assert!(matches!(
        dependency_from_url("foo/bar", Some("https://github.com/foo/baz".to_string()), Some("baz".to_string()), "lib"),
        Err(AddError::InvalidName)
    ));
    assert!(matches!(dependency_from_url("foo/bar", None, None, "lib"), Err(AddError::InvalidName)));
    assert!(matches!(
        dependency_from_url("", Some("https://github.com/".to_string()), Some(String::new()), "lib"),
        Err(AddError::InvalidName)
    ));
}

#[test]
fn source_directory_prefers_src() {
    assert_eq!(get_src_directory(true, true), Ok("src".to_string()));
    assert_eq!(get_src_directory(true, false), Ok("src".to_string()));
    assert_eq!(get_src_directory(false, true), Ok("lib".to_string()));
    assert_eq!(get_src_directory(false, false), Err(()));
}

#[test]
fn source_candidates_are_under_checkout() {
    let (s, l) = source_candidates("lib/bar");
    assert_eq!(s, "lib/bar/src");
    assert_eq!(l, "lib/bar/lib");
}

#[test]
fn override_used_only_when_nothing_detected() {
    assert_eq!(choose_source_dir(Ok("src".to_string()), Some("code".to_string())), Ok("src".to_string()));
    assert_eq!(choose_source_dir(Err(()), Some("code".to_string())), Ok("code".to_string()));
    assert_eq!(choose_source_dir(Err(()), None), Err(AddError::CannotInferSourceDir));
}

#[test]
fn starter_settings() {
    let c = Config::starter();
    assert_eq!(c.lib_target, "ReplicatedStorage");
    assert_eq!(c.lib_dir, "lib");
    assert_eq!(c.rojo_path, "rojo.json");
}
