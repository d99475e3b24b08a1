use rwx_im::paths::{abs_path, is_absolute};

#[test]
fn absolute_path_is_kept() {
    assert_eq!(abs_path("/var/cache", "/home/someone"), "/var/cache");
}

#[test]
fn relative_path_is_joined_onto_cwd() {
    assert_eq!(abs_path("cache", "/srv/app"), "/srv/app/cache");
}

#[test]
fn join_onto_root_adds_no_double_separator() {
    assert_eq!(abs_path("cache", "/"), "/cache");
}

#[test]
fn result_is_always_absolute() {
    assert!(is_absolute(&abs_path("cache", "/srv")));
    assert!(is_absolute(&abs_path("/cache", "/srv")));
}

#[test]
fn is_absolute_distinguishes() {
    assert!(is_absolute("/"));
    assert!(is_absolute("/a/b"));
    assert!(!is_absolute(""));
    assert!(!is_absolute("a/b"));
}
