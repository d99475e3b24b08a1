//! The cache repository: a single content-addressed, deduplicated store
//! rooted at one filesystem location.
//!
//! A repository is entered in one of two ways: *open* attaches to a valid
//! repository already present at the location, *init* creates a fresh one
//! with the fixed default settings. Both talk to the underlying
//! deduplication store through trusted wrappers; everything the store
//! reports is carried back as a tagged outcome, so that the resolver can
//! tell absence apart from damage without reading the opaque error value.

use vstd::prelude::*;

use rdedup_lib::settings as store_settings;

use crate::error::Error;
use crate::paths::spec_is_absolute;
use crate::settings::{spec_default_settings, Compression, Encryption, Hashing, Settings};

verus! {

/// What one open attempt against a location reported.
pub enum OpenOutcome {
    /// The location held a valid repository and was attached.
    Opened,
    /// Nothing is stored at the location. This is the one signal on which
    /// initialization may be attempted.
    Absent(std::io::Error),
    /// The location could not be attached for any other reason: a corrupt
    /// repository, missing permission, an unsupported format.
    Failed(std::io::Error),
}

/// What one initialization attempt against a location reported.
pub enum InitOutcome {
    /// A fresh repository was created at the location.
    Initialized,
    /// The store rejected one of the settings selections.
    Rejected(std::io::Error),
    /// The on-disk structures could not be created.
    Failed(std::io::Error),
}

/// The library's answer to each possible open report: a plain open
/// succeeds exactly when the location held a valid repository, and every
/// failure — absence as much as damage — is the open error, carrying the
/// store's report.
pub open spec fn spec_settle_open_outcome(o: OpenOutcome) -> Result<(), Error> {
    match o {
        OpenOutcome::Opened => Ok(()),
        OpenOutcome::Absent(e) => Err(Error::DedupOpenFailed(e)),
        OpenOutcome::Failed(e) => Err(Error::DedupOpenFailed(e)),
    }
}

/// Settles the store's open report into the library's error taxonomy.
pub fn settle_open_outcome(o: OpenOutcome) -> (r: Result<(), Error>)
    ensures
        r == spec_settle_open_outcome(o),
{
    match o {
        OpenOutcome::Opened => Ok(()),
        OpenOutcome::Absent(e) => Err(Error::DedupOpenFailed(e)),
        OpenOutcome::Failed(e) => Err(Error::DedupOpenFailed(e)),
    }
}

/// The library's answer to each possible initialization report:
/// initialization succeeds exactly when a fresh repository was created, a
/// rejected settings selection is the configuration error
/// [`Error::DedupError`], and a failure to create the on-disk structures is
/// [`Error::DedupRepoInitFailed`], each carrying the store's report.
pub open spec fn spec_settle_init_outcome(o: InitOutcome) -> Result<(), Error> {
    match o {
        InitOutcome::Initialized => Ok(()),
        InitOutcome::Rejected(e) => Err(Error::DedupError(e)),
        InitOutcome::Failed(e) => Err(Error::DedupRepoInitFailed(e)),
    }
}

/// Settles the store's initialization report into the library's error
/// taxonomy.
pub fn settle_init_outcome(o: InitOutcome) -> (r: Result<(), Error>)
    ensures
        r == spec_settle_init_outcome(o),
{
    match o {
        InitOutcome::Initialized => Ok(()),
        InitOutcome::Rejected(e) => Err(Error::DedupError(e)),
        InitOutcome::Failed(e) => Err(Error::DedupRepoInitFailed(e)),
    }
}

/// Relies on `rdedup_lib::Repo::open`, which attaches to the repository at
/// the given location and reports `io::ErrorKind::NotFound` when nothing is
/// stored there, and on `url::Url::from_file_path`, which converts the
/// absolute location into the file URL the store expects. The outcome
/// depends on what is on disk, so no variant is promised; the body only
/// sorts the store's report into the tagged outcome, splitting on
/// `NotFound`.
#[verifier::external_body]
pub(crate) fn repo_open(location: &str) -> (r: OpenOutcome)
    requires
        spec_is_absolute(location@),
{
    let url = url::Url::from_file_path(location).unwrap();
    match rdedup_lib::Repo::open(&url, None) {
        Ok(_) => OpenOutcome::Opened,
        Err(e) => {
            if e.kind() == std::io::ErrorKind::NotFound {
                OpenOutcome::Absent(e)
            } else {
                OpenOutcome::Failed(e)
            }
        },
    }
}

/// Relies on `rdedup_lib::Repo::init`, which creates a fresh repository at
/// the given location, and on the store's settings builder
/// (`rdedup_lib::settings::Repo::new` and its `set_compression`,
/// `set_encryption`, `set_hashing` methods), through which the body converts
/// the library's settings value, variant for variant, into the store's; the
/// location is converted with `url::Url::from_file_path`. The store reads
/// the password through `static_password` only when the settings select
/// encryption. The outcome depends on what is on disk, so no variant is
/// promised.
#[verifier::external_body]
fn repo_init(location: &str, settings: &Settings) -> (r: InitOutcome)
    requires
        spec_is_absolute(location@),
{
    let mut s = store_settings::Repo::new();
    let c = match settings.compression { Compression::Disabled => store_settings::Compression::None };
    let e = match settings.encryption { Encryption::Curve25519 => store_settings::Encryption::Curve25519, Encryption::Disabled => store_settings::Encryption::None };
    let h = match settings.hashing { Hashing::Sha256 => store_settings::Hashing::Sha256, Hashing::Blake2b => store_settings::Hashing::Blake2b };
    if let Err(err) = s.set_compression(c).and(s.set_encryption(e)).and(s.set_hashing(h)) {
        return InitOutcome::Rejected(err);
    }
    let url = url::Url::from_file_path(location).unwrap();
    match rdedup_lib::Repo::init(&url, &static_password, s, None) {
        Ok(_) => InitOutcome::Initialized,
        Err(err) => InitOutcome::Failed(err),
    }
}

/// The fixed, non-confidential value handed to the store wherever its API
/// requires a password. The cache creates every repository without
/// encryption, so this value is never consulted for confidentiality: it is
/// a ceremonial input, not a security control.
pub fn static_password() -> (r: Result<String, std::io::Error>)
    ensures
        r matches Ok(p) && p@ == "password"@,
{
    Ok("password".to_owned())
}

/// The mathematical model of a [`Cache`]: the location it is rooted at, and
/// the settings it was created with in this process — `None` when it was
/// attached to an already existing store, whose settings were fixed at its
/// own initialization and are not re-negotiated on open.
pub struct CacheModel {
    pub location: Seq<char>,
    pub settings: Option<Settings>,
}

/// A content-addressed cache repository, attached and ready. Its identity
/// is its location.
pub struct Cache {
    location: String,
    settings: Ghost<Option<Settings>>,
}

impl View for Cache {
    type V = CacheModel;

    closed spec fn view(&self) -> CacheModel {
        CacheModel { location: self.location@, settings: self.settings@ }
    }
}

impl Cache {
    /// The location this repository is rooted at.
    pub fn location(&self) -> (l: &str)
        ensures
            l@ == self@.location,
    {
        self.location.as_str()
    }

    /// Builds the value representing a repository that was attached at
    /// `location`; nothing is known of the settings it was created with.
    pub(crate) fn attached(location: &str) -> (c: Cache)
        ensures
            c@.location == location@,
            c@.settings is None,
    {
        Cache { location: location.to_owned(), settings: Ghost(None) }
    }

    /// Attempts to open the repository already present at `location`.
    ///
    /// Returns [`Error::DedupOpenFailed`] when the location could not be
    /// attached, whether because nothing is stored there or because the
    /// store reported damage.
    pub fn open(location: &str) -> (r: Result<Cache, Error>)
        requires
            spec_is_absolute(location@),
        ensures
            r matches Ok(c) ==> c@.location == location@ && c@.settings is None,
            r matches Err(e) ==> e is DedupOpenFailed,
    {
        match settle_open_outcome(repo_open(location)) {
            Ok(()) => Ok(Cache::attached(location)),
            Err(e) => Err(e),
        }
    }

    /// Attempts to create a fresh repository at `location`, with the fixed
    /// default settings — they are not configurable by the caller.
    ///
    /// The store's report is settled by [`settle_init_outcome`], whose
    /// contract fixes the mapping: a rejected settings selection is
    /// [`Error::DedupError`], a failure to create the on-disk structures is
    /// [`Error::DedupRepoInitFailed`].
    pub fn init(location: &str) -> (r: Result<Cache, Error>)
        requires
            spec_is_absolute(location@),
        ensures
            r matches Ok(c) ==> c@.location == location@ && c@.settings
                == Some(spec_default_settings()),
            r matches Err(e) ==> e is DedupError || e is DedupRepoInitFailed,
    {
        let settings = Settings::cache_defaults();
        match settle_init_outcome(repo_init(location, &settings)) {
            Ok(()) => Ok(
                Cache { location: location.to_owned(), settings: Ghost(Some(settings)) },
            ),
            Err(e) => Err(e),
        }
    }
}

} // verus!
