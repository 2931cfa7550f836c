//! The refresh policy: what one read-decode-overwrite step does to the held
//! value, and what a whole history of such steps amounts to.
//!
//! A refresh overwrites the held value only when the read and decode both
//! succeeded; any failure keeps the previous value.  A momentarily truncated
//! write therefore never clears the last good configuration.

use vstd::prelude::*;
use crate::error::ReadError;

verus! {

/// How one refresh ended.
#[derive(Clone, Copy, Debug, PartialEq, Eq, Structural)]
pub enum RefreshOutcome {
    /// Read and decode succeeded; the cell now holds the decoded value.
    Updated,
    /// The file could not be read; the previous value was kept.
    KeptAfterIoError,
    /// The file's text did not decode; the previous value was kept.
    KeptAfterParseError,
}

/// The value held after one refresh step: the decoded value on success, the
/// current one on any failure.
pub open spec fn refresh_result<T>(current: T, outcome: Result<T, ReadError>) -> T {
    match outcome {
        Ok(v) => v,
        Err(_) => current,
    }
}

/// The value held after a whole sequence of refresh steps, applied in order
/// to a seed value.
pub open spec fn refresh_all<T>(initial: T, outcomes: Seq<Result<T, ReadError>>) -> T
    decreases outcomes.len(),
{
    if outcomes.len() == 0 {
        initial
    } else {
        refresh_result(refresh_all(initial, outcomes.drop_last()), outcomes.last())
    }
}

/// The most recent successfully decoded value in a history of outcomes, or
/// the seed value if none succeeded.
pub open spec fn last_success<T>(initial: T, outcomes: Seq<Result<T, ReadError>>) -> T
    decreases outcomes.len(),
{
    if outcomes.len() == 0 {
        initial
    } else if outcomes.last() is Ok {
        outcomes.last()->Ok_0
    } else {
        last_success(initial, outcomes.drop_last())
    }
}

/// Apply one refresh step.
pub fn refreshed<T>(current: T, outcome: Result<T, ReadError>) -> (r: (T, RefreshOutcome))
    ensures
        r.0 == refresh_result(current, outcome),
        r.1 is Updated <==> outcome is Ok,
        r.1 is KeptAfterIoError <==> (outcome matches Err(e) && e is Io),
        r.1 is KeptAfterParseError <==> (outcome matches Err(e) && e is Parse),
{
    match outcome {
        Ok(v) => (v, RefreshOutcome::Updated),
        Err(ReadError::Io(_)) => (current, RefreshOutcome::KeptAfterIoError),
        Err(ReadError::Parse(_)) => (current, RefreshOutcome::KeptAfterParseError),
    }
}

/// Law: a refresh whose outcome failed leaves the held value unchanged, no
/// matter how it failed.
pub proof fn lemma_failed_refresh_keeps_value<T>(current: T, outcome: Result<T, ReadError>)
    requires
        outcome is Err,
    ensures
        refresh_result(current, outcome) == current,
{
}

/// Law: a history of refreshes always leaves the most recent successfully
/// decoded value, or the seed value if no refresh ever succeeded.  Failed
/// refreshes anywhere in the history are invisible in the final value.
pub proof fn lemma_refresh_all_ignores_failures<T>(initial: T, outcomes: Seq<Result<T, ReadError>>)
    ensures
        refresh_all(initial, outcomes) == last_success(initial, outcomes),
    decreases outcomes.len(),
{
    if outcomes.len() > 0 {
        lemma_refresh_all_ignores_failures(initial, outcomes.drop_last());
    }
}

/// Law: after a sequence of refreshes that each decoded successfully, the
/// held value is exactly the last decoded value.
pub proof fn lemma_refresh_all_tracks_last_success<T>(
    initial: T,
    outcomes: Seq<Result<T, ReadError>>,
)
    requires
        outcomes.len() > 0,
        forall|i: int| 0 <= i < outcomes.len() ==> #[trigger] outcomes[i] is Ok,
    ensures
        refresh_all(initial, outcomes) == outcomes.last()->Ok_0,
{
    lemma_refresh_all_ignores_failures(initial, outcomes);
}

} // verus!
