//! Classification of fetch failures.
//!
//! Every per-group fetch failure is mapped to one of a fixed set of kinds
//! and a recommended action.  No kind is fatal: one group's failure must not
//! stop the tailing of the others, so the classifier never recommends
//! aborting the loop.

use crate::text::has_substring;
use crate::text::str_contains;
use vstd::prelude::*;

verus! {

/// A raw fetch failure, as the surrounding binary hands it in.
pub enum FetchError {
    /// The fetch failed for want of valid access credentials; holds a
    /// description of the credential problem.
    Credentials(String),
    /// A structured failure surfaced by the remote API; holds the raw
    /// response body.
    Api(String),
    /// A failure outside the structured API error space, such as a network
    /// or decoding fault; holds its description.
    Transport(String),
}

/// The fixed set of failure kinds.
#[derive(Clone, Copy, PartialEq, Eq, Structural, Debug)]
pub enum ErrorKind {
    CredentialsFailure,
    RateLimited,
    Unclassified,
    Transport,
}

/// The recommended reaction to a failure.
#[derive(Clone, Copy, PartialEq, Eq, Structural, Debug)]
pub enum ErrorAction {
    /// Log the failure and go on with the next group.
    LogAndContinue,
    /// Pause the whole batch for a short fixed delay, then resume with the
    /// next group; the failed call itself is not retried this cycle.
    PauseBatch,
    /// Log the failure and stop the loop; recommended for no kind.
    LogAndAbort,
}

/// A classified failure: its kind and the recommended action.
#[derive(Clone, Copy, PartialEq, Eq, Structural, Debug)]
pub struct Classification {
    pub kind: ErrorKind,
    pub action: ErrorAction,
}

/// The kind of a raw failure: a credentials failure keeps its kind; a
/// structured API failure is rate limiting exactly when its body holds the
/// remote service's throttling marker; anything else structured is
/// unclassified; the rest is transport.
pub open spec fn kind_of(e: FetchError) -> ErrorKind {
    match e {
        FetchError::Credentials(_) => ErrorKind::CredentialsFailure,
        FetchError::Api(body) => if has_substring(body@, "Rate exceeded"@) {
            ErrorKind::RateLimited
        } else {
            ErrorKind::Unclassified
        },
        FetchError::Transport(_) => ErrorKind::Transport,
    }
}

/// The action each kind recommends: pause the batch after rate limiting,
/// log and continue otherwise.
pub open spec fn action_of(k: ErrorKind) -> ErrorAction {
    match k {
        ErrorKind::RateLimited => ErrorAction::PauseBatch,
        _ => ErrorAction::LogAndContinue,
    }
}

/// Map a raw fetch failure to its kind and recommended action.
pub fn classify(e: &FetchError) -> (c: Classification)
    ensures
        c.kind == kind_of(*e),
        c.action == action_of(c.kind),
{
    match e {
        FetchError::Credentials(_) => Classification {
            kind: ErrorKind::CredentialsFailure,
            action: ErrorAction::LogAndContinue,
        },
        FetchError::Api(body) => {
            if str_contains(body.as_str(), "Rate exceeded") {
                Classification { kind: ErrorKind::RateLimited, action: ErrorAction::PauseBatch }
            } else {
                Classification { kind: ErrorKind::Unclassified, action: ErrorAction::LogAndContinue }
            }
        },
        FetchError::Transport(_) => Classification {
            kind: ErrorKind::Transport,
            action: ErrorAction::LogAndContinue,
        },
    }
}

/// Law: no failure is fatal.  Whatever the raw failure, the recommended
/// action is never to abort; the scheduler always goes on with the next
/// group or, after rate limiting, after a pause.
pub proof fn lemma_never_aborts(e: FetchError)
    ensures
        action_of(kind_of(e)) != ErrorAction::LogAndAbort,
{
}

} // verus!
