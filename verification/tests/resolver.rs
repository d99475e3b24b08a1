use std::io::{Read, Seek, SeekFrom, Write};

use rwx_im::{prepare_cache, Cache, Error};

fn location_in(dir: &tempfile::TempDir, name: &str) -> String {
    dir.path().join(name).to_str().expect("temp path is UTF-8").to_owned()
}

#[test]
fn create_on_absence_then_open() {
    let dir = tempfile::tempdir().expect("tempdir");
    let loc = location_in(&dir, "repo");

    // Nothing is stored at the location: resolving creates a repository.
    let created = prepare_cache(&loc).expect("resolving an absent location initializes");
    assert_eq!(created.location(), loc);

    // The location now holds a valid repository: a plain open succeeds, so
    // the second resolve goes through open, not through initialization.
    let opened = Cache::open(&loc).expect("a created repository opens");
    assert_eq!(opened.location(), loc);

    let resolved_again = prepare_cache(&loc).expect("resolving again succeeds");
    assert_eq!(resolved_again.location(), loc);
}

#[test]
fn open_is_idempotent() {
    let dir = tempfile::tempdir().expect("tempdir");
    let loc = location_in(&dir, "repo");
    prepare_cache(&loc).expect("first resolve initializes");

    // Two opens in sequence against the same initialized location both
    // succeed and name the same repository.
    let first = Cache::open(&loc).expect("first open");
    let second = Cache::open(&loc).expect("second open");
    assert_eq!(first.location(), second.location());
}

#[test]
fn open_of_absent_location_fails_without_creating() {
    let dir = tempfile::tempdir().expect("tempdir");
    let loc = location_in(&dir, "repo");

    // A plain open never initializes: it fails on an absent location, and
    // the location stays absent, so a second open fails the same way.
    let first = Cache::open(&loc);
    assert!(matches!(first, Err(Error::DedupOpenFailed(_))));
    let second = Cache::open(&loc);
    assert!(matches!(second, Err(Error::DedupOpenFailed(_))));
}

#[test]
fn no_destructive_fallback_on_damaged_location() {
    // The location exists but cannot hold a repository: it is a plain file.
    // Opening it fails with something other than "not found", so the
    // resolver must fail without attempting initialization and must leave
    // the contents alone.
    let mut file = tempfile::NamedTempFile::new().expect("temp file");
    let content = b"not a repository";
    file.write_all(content).expect("write");
    file.flush().expect("flush");
    let loc = file.path().to_str().expect("temp path is UTF-8").to_owned();

    let resolved = prepare_cache(&loc);
    assert!(matches!(resolved, Err(Error::DedupOpenFailed(_))));

    // The file was not touched.
    let mut seen = Vec::new();
    let f = file.as_file_mut();
    f.seek(SeekFrom::Start(0)).expect("seek");
    f.read_to_end(&mut seen).expect("read back");
    assert_eq!(seen, content);
}

#[test]
fn init_over_nonempty_location_fails() {
    // A nonempty directory without a repository marker: the open attempt
    // reports absence (no marker), but the store refuses to initialize over
    // existing content.
    let dir = tempfile::tempdir().expect("tempdir");
    let _occupant = tempfile::NamedTempFile::new_in(dir.path()).expect("occupant file");
    let loc = dir.path().to_str().expect("temp path is UTF-8").to_owned();

    let resolved = prepare_cache(&loc);
    assert!(matches!(resolved, Err(Error::DedupRepoInitFailed(_))));
}

#[test]
fn static_password_is_the_fixed_placeholder() {
    let p = rwx_im::cache::static_password().expect("always succeeds");
    assert_eq!(p, "password");
}
