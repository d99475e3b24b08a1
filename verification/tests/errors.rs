use std::io;

use rwx_im::Error;

fn some_io_error() -> io::Error {
    io::Error::new(io::ErrorKind::InvalidData, "invalid repository structure")
}

#[test]
fn messages_name_each_failure() {
    assert_eq!(Error::DedupError(some_io_error()).message(), "Deduplication error");
    assert_eq!(
        Error::DedupRepoInitFailed(some_io_error()).message(),
        "Could not initialize the deduplication store"
    );
    assert_eq!(
        Error::DedupOpenFailed(some_io_error()).message(),
        "Could not open path as dedup repository"
    );
    assert_eq!(Error::MalformedPath.message(), "Malformed resource path");
}
