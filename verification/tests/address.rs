use rwx_im::address::{parse, ParsedPath};
use rwx_im::Error;

#[test]
fn parse_owner_and_tail() {
    match parse("/~alice/docs/readme.txt") {
        Ok(ParsedPath::Resource(a)) => {
            assert_eq!(a.owner, "alice");
            assert_eq!(a.tail, "docs/readme.txt");
        }
        other => panic!("expected a resource address, got {:?}", other.is_ok()),
    }
}

#[test]
fn parse_root_is_index() {
    assert!(matches!(parse("/"), Ok(ParsedPath::Index)));
}

#[test]
fn parse_empty_owner_is_malformed() {
    assert!(matches!(parse("/~/x"), Err(Error::MalformedPath)));
}

#[test]
fn parse_marker_alone_is_malformed() {
    assert!(matches!(parse("/~"), Err(Error::MalformedPath)));
}

#[test]
fn parse_owner_without_separator_is_index() {
    assert!(matches!(parse("/~alice"), Ok(ParsedPath::Index)));
}

#[test]
fn parse_empty_tail() {
    match parse("/~alice/") {
        Ok(ParsedPath::Resource(a)) => {
            assert_eq!(a.owner, "alice");
            assert_eq!(a.tail, "");
        }
        _ => panic!("expected a resource address"),
    }
}

#[test]
fn parse_tail_kept_verbatim() {
    match parse("/~bob/a//b/./c~d") {
        Ok(ParsedPath::Resource(a)) => {
            assert_eq!(a.owner, "bob");
            assert_eq!(a.tail, "a//b/./c~d");
        }
        _ => panic!("expected a resource address"),
    }
}

#[test]
fn parse_unmarked_path_is_index() {
    assert!(matches!(parse("/foo/bar"), Ok(ParsedPath::Index)));
    assert!(matches!(parse(""), Ok(ParsedPath::Index)));
    assert!(matches!(parse("no-leading-slash"), Ok(ParsedPath::Index)));
}
