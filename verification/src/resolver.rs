//! The repository resolver: open, falling back to create-on-absence.
//!
//! Given a target location, the resolver makes a single open attempt and,
//! only when that attempt reports that nothing is stored there, initializes
//! a fresh repository with the fixed default settings. Any other open
//! failure is fatal and is never answered with initialization: initializing
//! over an existing-but-broken location could silently discard data. The
//! decision is taken on the tagged outcome of the open attempt, so absence
//! is a first-class discriminant, not an incidental error-kind check buried
//! in the store's error value.

use vstd::prelude::*;

use crate::cache::{Cache, OpenOutcome};
use crate::error::Error;
use crate::paths::spec_is_absolute;
use crate::settings::spec_default_settings;

verus! {

/// The step the resolver takes after its one open attempt.
pub enum ResolveStep {
    /// The location held a valid repository: resolution is complete.
    UseOpened,
    /// Nothing is stored at the location: initialize a fresh repository
    /// there.
    AttemptInit,
    /// The location could not be attached for a reason other than absence:
    /// fail without touching it, propagating the store's report as the open
    /// error.
    FailWithoutInit(std::io::Error),
}

/// The resolver's decision for each possible outcome of the open attempt:
/// only absence leads to initialization.
pub open spec fn spec_decide_after_open(o: OpenOutcome) -> ResolveStep {
    match o {
        OpenOutcome::Opened => ResolveStep::UseOpened,
        OpenOutcome::Absent(_) => ResolveStep::AttemptInit,
        OpenOutcome::Failed(e) => ResolveStep::FailWithoutInit(e),
    }
}

/// Takes the resolver's decision on the outcome of the open attempt.
pub fn decide_after_open(o: OpenOutcome) -> (d: ResolveStep)
    ensures
        d == spec_decide_after_open(o),
{
    match o {
        OpenOutcome::Opened => ResolveStep::UseOpened,
        OpenOutcome::Absent(_) => ResolveStep::AttemptInit,
        OpenOutcome::Failed(e) => ResolveStep::FailWithoutInit(e),
    }
}

/// No destructive fallback: when the open attempt fails for any reason
/// other than absence, the resolver fails and never attempts to initialize
/// over the location.
pub proof fn lemma_no_destructive_fallback(o: OpenOutcome)
    requires
        o is Failed,
    ensures
        spec_decide_after_open(o) is FailWithoutInit,
        !(spec_decide_after_open(o) is AttemptInit),
{
}

/// Create-on-absence: the resolver attempts initialization exactly when the
/// open attempt reported that nothing is stored at the location.
pub proof fn lemma_create_on_absence(o: OpenOutcome)
    ensures
        spec_decide_after_open(o) is AttemptInit <==> o is Absent,
{
}

/// Open is preferred: a location that already holds a valid repository is
/// attached as it is; resolution is complete without any initialization, so
/// resolving such a location never mutates it.
pub proof fn lemma_open_preferred(o: OpenOutcome)
    requires
        o is Opened,
    ensures
        spec_decide_after_open(o) is UseOpened,
        !(spec_decide_after_open(o) is AttemptInit),
{
}

/// Resolves `location` to a ready cache repository: attaches to the
/// repository already present there, or, only when nothing is stored there,
/// creates a fresh one with the fixed default settings.
///
/// A repository that comes back was either attached as it is (its settings
/// unknown, fixed at its own initialization) or freshly created with the
/// default settings. On failure the error names the step that failed:
/// [`Error::DedupOpenFailed`] when the location could not be attached for a
/// reason other than absence — the location is then left untouched —
/// [`Error::DedupError`] when the store rejected a settings selection while
/// initializing, and [`Error::DedupRepoInitFailed`] when the fresh
/// repository could not be created. Absence itself is answered with
/// initialization, never reported as an error.
pub fn prepare_cache(location: &str) -> (r: Result<Cache, Error>)
    requires
        spec_is_absolute(location@),
    ensures
        r matches Ok(c) ==> c@.location == location@,
        r matches Ok(c) ==> c@.settings is None || c@.settings == Some(spec_default_settings()),
        r matches Err(e) ==> e is DedupOpenFailed || e is DedupError || e is DedupRepoInitFailed,
{
    let outcome = crate::cache::repo_open(location);
    match decide_after_open(outcome) {
        ResolveStep::UseOpened => Ok(Cache::attached(location)),
        ResolveStep::AttemptInit => Cache::init(location),
        ResolveStep::FailWithoutInit(e) => Err(Error::DedupOpenFailed(e)),
    }
}

} // verus!
