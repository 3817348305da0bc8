use vstd::prelude::*;

use crate::config::Config;
use crate::config::acceptable;
use crate::config::chains_end;
use crate::config::derives_known;
use crate::config::keys_unique;
use crate::config::patterns_valid;
use crate::config::same_documents;
use crate::errors::ValidationError;

verus! {

/// A debounced signal from the configuration document's watcher, as the
/// control loop sees it.
pub enum WatchEvent {
    NoticeWrite,
    NoticeRemove,
    Create,
    Write,
    Chmod,
    Remove,
    Rename,
    Rescan,
    Error,
}

/// What the control loop does with one watch signal.
pub enum WatchDecision {
    /// The document may have changed: reload and revalidate it.
    Reload,
    /// The document was removed or renamed out from under the watcher, or the
    /// watcher itself failed: a configuration-integrity fault, fail fast.
    Fatal,
}

/// Classify one watch signal. Signals that say the document disappeared or
/// the watcher broke are fatal by design; every other signal is treated as a
/// possible change and answered with a reload.
pub fn classify_watch_event(event: &WatchEvent) -> (r: WatchDecision)
    ensures
        r is Fatal <==> (event is NoticeRemove || event is Remove || event is Rename
            || event is Error),
        r is Reload <==> !(event is NoticeRemove || event is Remove || event is Rename
            || event is Error),
{
    match event {
        WatchEvent::NoticeRemove | WatchEvent::Remove | WatchEvent::Rename | WatchEvent::Error => {
            WatchDecision::Fatal
        },
        _ => WatchDecision::Reload,
    }
}

/// Revalidate a candidate store and decide what the next cycles run against:
/// the candidate if it passes every construction-time invariant, else the
/// store already in use, returned exactly as it was, together with the
/// validation error to report. The loop itself is never interrupted either
/// way.
pub fn reload_step(current: Config, candidate: Config) -> (r: (Config, Option<ValidationError>))
    ensures
        r.1 is None <==> acceptable(candidate.profiles@),
        acceptable(candidate.profiles@) ==> r.0.valid() && r.0.auth_info == candidate.auth_info
            && r.0.property == candidate.property && same_documents(
            r.0.profiles@,
            candidate.profiles@,
        ),
        !acceptable(candidate.profiles@) ==> r.0 == current,
        r.1 matches Some(ValidationError::DuplicateKey { .. }) <==> !keys_unique(
            candidate.profiles@,
        ),
        r.1 matches Some(ValidationError::UnknownDeriveKey { .. }) <==> (keys_unique(
            candidate.profiles@,
        ) && !derives_known(candidate.profiles@)),
        r.1 matches Some(ValidationError::CycleDetected { .. }) <==> (keys_unique(
            candidate.profiles@,
        ) && derives_known(candidate.profiles@) && !chains_end(candidate.profiles@)),
        r.1 matches Some(ValidationError::InvalidPattern { .. }) <==> (keys_unique(
            candidate.profiles@,
        ) && derives_known(candidate.profiles@) && chains_end(candidate.profiles@)
            && !patterns_valid(candidate.profiles@)),
{
    let mut cand = candidate;
    match cand.validate() {
        Ok(()) => (cand, None),
        Err(e) => (current, Some(e)),
    }
}

} // verus!
