use fastrust::canonicalize_path;

#[test]
fn canonicalize_keeps_simple_path() {
    assert_eq!(canonicalize_path("/api"), "/api");
}

#[test]
fn canonicalize_removes_trailing_slash() {
    assert_eq!(canonicalize_path("/api/"), "/api");
    assert_eq!(canonicalize_path("/api///"), "/api");
}

#[test]
fn canonicalize_collapses_inner_slashes() {
    assert_eq!(canonicalize_path("/api//users"), "/api/users");
    assert_eq!(canonicalize_path("///api///users//"), "/api/users");
}

#[test]
fn canonicalize_root_and_slashes_only() {
    assert_eq!(canonicalize_path("/"), "/");
    assert_eq!(canonicalize_path("///"), "/");
    assert_eq!(canonicalize_path(""), "/");
}

#[test]
fn canonicalize_keeps_relative_paths_relative() {
    assert_eq!(canonicalize_path("api//v1/"), "api/v1");
    assert_eq!(canonicalize_path("{name}"), "{name}");
}

#[test]
fn canonicalize_non_ascii() {
    assert_eq!(canonicalize_path("//café//ü/"), "/café/ü");
}

#[test]
fn canonicalize_is_idempotent_on_examples() {
    for p in ["", "/", "//a//b//", "a", "/x/y/", "///", "/héllo//wörld"] {
        let once = canonicalize_path(p);
        assert_eq!(canonicalize_path(&once), once);
    }
}

#[test]
fn canonicalize_ignores_trailing_and_doubled_slashes() {
    for p in ["/a/b", "a", "", "/a//b"] {
        let with_slash = format!("{}/", p);
        assert_eq!(canonicalize_path(&with_slash), canonicalize_path(p));
    }
    assert_eq!(canonicalize_path("/a//b"), canonicalize_path("/a/b"));
}
