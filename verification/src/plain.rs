//! Stores that answer in plain results.
//!
//! A store of the usual kind has no outcome types. It answers with a value
//! or with an I/O failure, and tells its cases apart by convention:
//!
//! - a creation fails with a failure of the kind `InvalidInput` where the
//!   name is taken;
//! - a compare-and-swap gives no label where the caller's picture is stale,
//!   and fails with a failure of the kind `NotFound` where the label is
//!   absent;
//! - any call fails with a failure of the kind `NotConnected` where the
//!   store could not be reached, and with one of another kind where it was
//!   reached and failed.
//!
//! This module reads such answers as outcomes and writes outcomes as such
//! answers, so that the adapter can stand in front of such a store and the
//! client can stand in for one.

use crate::storage::{
    result_view, CreateOutcome, CreateOutcomeView, Label, LabelView, StoreError,
    StoreErrorView, SwapOutcome, SwapOutcomeView,
};
use vstd::prelude::*;

verus! {

/// The kinds of I/O failure that the conventions tell apart.
#[derive(Clone, Copy, Debug, PartialEq, Eq, Structural)]
pub enum ErrorKind {
    NotFound,
    InvalidInput,
    NotConnected,
    /// Every other kind.
    Other,
}

/// An I/O failure as mathematics sees it.
pub struct IoFailureView {
    pub kind: ErrorKind,
    pub message: Seq<char>,
}

/// An I/O failure: its kind and its text.
#[derive(Clone, Debug, PartialEq, Eq)]
pub struct IoFailure {
    pub kind: ErrorKind,
    pub message: String,
}

impl View for IoFailure {
    type V = IoFailureView;

    open spec fn view(&self) -> IoFailureView {
        IoFailureView { kind: self.kind, message: self.message@ }
    }
}

/// The text with which a creation fails where the name is taken.
pub open spec fn already_exists_text() -> Seq<char> {
    "database already exists"@
}

/// The text with which a compare-and-swap fails where the label is absent.
pub open spec fn absent_text() -> Seq<char> {
    "label not found"@
}

/// An I/O failure read as the failure of a store: of the kind
/// `NotConnected`, the store could not be reached; of any other kind, it was
/// reached and failed.
pub open spec fn failure_of(failure: IoFailureView) -> StoreErrorView {
    if failure.kind == ErrorKind::NotConnected {
        StoreErrorView::Unreachable(failure.message)
    } else {
        StoreErrorView::Failed(failure.message)
    }
}

/// A failure written as an I/O failure: `NotConnected` where the store could
/// not be reached, `Other` where it was reached and failed.
pub open spec fn io_failure_of(error: StoreErrorView) -> IoFailureView {
    match error {
        StoreErrorView::Unreachable(text) => IoFailureView {
            kind: ErrorKind::NotConnected,
            message: text,
        },
        StoreErrorView::Failed(text) => IoFailureView { kind: ErrorKind::Other, message: text },
    }
}

/// A plain answer to a creation, read as an outcome.
pub open spec fn creation_read(answer: Result<LabelView, IoFailureView>) -> Result<
    CreateOutcomeView,
    StoreErrorView,
> {
    match answer {
        Ok(label) => Ok(CreateOutcomeView::Created(label)),
        Err(failure) => if failure.kind == ErrorKind::InvalidInput {
            Ok(CreateOutcomeView::AlreadyExists)
        } else {
            Err(failure_of(failure))
        },
    }
}

/// The outcome of a creation, written as a plain answer.
pub open spec fn creation_written(outcome: Result<CreateOutcomeView, StoreErrorView>) -> Result<
    LabelView,
    IoFailureView,
> {
    match outcome {
        Ok(CreateOutcomeView::Created(label)) => Ok(label),
        Ok(CreateOutcomeView::AlreadyExists) => Err(
            IoFailureView { kind: ErrorKind::InvalidInput, message: already_exists_text() },
        ),
        Err(error) => Err(io_failure_of(error)),
    }
}

/// A plain answer to a compare-and-swap, read as an outcome. A plain answer
/// that gives no label does not say at which version the label stands:
/// there is no outcome yet, and the label has to be looked up.
pub open spec fn swap_read(answer: Result<Option<LabelView>, IoFailureView>) -> Option<
    Result<SwapOutcomeView, StoreErrorView>,
> {
    match answer {
        Ok(Some(label)) => Some(Ok(SwapOutcomeView::Updated(label))),
        Ok(None) => None,
        Err(failure) => if failure.kind == ErrorKind::NotFound {
            Some(Ok(SwapOutcomeView::NotFound))
        } else {
            Some(Err(failure_of(failure)))
        },
    }
}

/// The outcome of a compare-and-swap that did not apply, given what looking
/// up the label gave afterwards.
pub open spec fn rejection_read(current: Result<Option<LabelView>, IoFailureView>) -> Result<
    SwapOutcomeView,
    StoreErrorView,
> {
    match current {
        Ok(Some(label)) => Ok(SwapOutcomeView::Rejected { current_version: label.version }),
        Ok(None) => Ok(SwapOutcomeView::NotFound),
        Err(failure) => Err(failure_of(failure)),
    }
}

/// The outcome of a compare-and-swap, written as a plain answer.
pub open spec fn swap_written(outcome: Result<SwapOutcomeView, StoreErrorView>) -> Result<
    Option<LabelView>,
    IoFailureView,
> {
    match outcome {
        Ok(SwapOutcomeView::Updated(label)) => Ok(Some(label)),
        Ok(SwapOutcomeView::Rejected { .. }) => Ok(None),
        Ok(SwapOutcomeView::NotFound) => Err(
            IoFailureView { kind: ErrorKind::NotFound, message: absent_text() },
        ),
        Err(error) => Err(io_failure_of(error)),
    }
}

/// A plain answer to a creation, seen through the views of label and failure.
pub open spec fn plain_creation_view(answer: Result<Label, IoFailure>) -> Result<
    LabelView,
    IoFailureView,
> {
    match answer {
        Ok(label) => Ok(label@),
        Err(failure) => Err(failure@),
    }
}

/// A plain answer that may hold a label, seen through the views of label and
/// failure.
pub open spec fn plain_found_view(answer: Result<Option<Label>, IoFailure>) -> Result<
    Option<LabelView>,
    IoFailureView,
> {
    match answer {
        Ok(Some(label)) => Ok(Some(label@)),
        Ok(None) => Ok(None),
        Err(failure) => Err(failure@),
    }
}

/// An outcome that may not be there yet, seen through its views.
pub open spec fn pending_view(outcome: Option<Result<SwapOutcome, StoreError>>) -> Option<
    Result<SwapOutcomeView, StoreErrorView>,
> {
    match outcome {
        Some(outcome) => Some(result_view(outcome)),
        None => None,
    }
}

/// Reads an I/O failure as the failure of a store.
pub fn store_failed(failure: IoFailure) -> (error: StoreError)
    ensures
        error@ == failure_of(failure@),
{
    match failure.kind {
        ErrorKind::NotConnected => StoreError::Unreachable(failure.message),
        _ => StoreError::Failed(failure.message),
    }
}

/// Writes a failure as an I/O failure.
pub fn io_failure(error: StoreError) -> (failure: IoFailure)
    ensures
        failure@ == io_failure_of(error@),
{
    match error {
        StoreError::Unreachable(message) => IoFailure { kind: ErrorKind::NotConnected, message },
        StoreError::Failed(message) => IoFailure { kind: ErrorKind::Other, message },
    }
}

/// Reads what a plain store answered to a lookup, a listing or a deletion:
/// the answer as it is, or the failure.
pub fn answered<T>(answer: Result<T, IoFailure>) -> (result: Result<T, StoreError>)
    ensures
        match answer {
            Ok(value) => result == Ok::<T, StoreError>(value),
            Err(failure) => result matches Err(error) && error@ == failure_of(failure@),
        },
{
    match answer {
        Ok(value) => Ok(value),
        Err(failure) => Err(store_failed(failure)),
    }
}

/// Writes the result of a lookup, a listing or a deletion as a plain answer.
pub fn plain<T>(result: Result<T, StoreError>) -> (answer: Result<T, IoFailure>)
    ensures
        match result {
            Ok(value) => answer == Ok::<T, IoFailure>(value),
            Err(error) => answer matches Err(failure) && failure@ == io_failure_of(error@),
        },
{
    match result {
        Ok(value) => Ok(value),
        Err(error) => Err(io_failure(error)),
    }
}

/// Reads what a plain store answered to a creation.
pub fn created(answer: Result<Label, IoFailure>) -> (outcome: Result<CreateOutcome, StoreError>)
    ensures
        result_view(outcome) == creation_read(plain_creation_view(answer)),
{
    match answer {
        Ok(label) => Ok(CreateOutcome::Created(label)),
        Err(failure) => {
            match failure.kind {
                ErrorKind::InvalidInput => Ok(CreateOutcome::AlreadyExists),
                _ => Err(store_failed(failure)),
            }
        },
    }
}

/// Writes the outcome of a creation as a plain answer.
pub fn plain_created(outcome: Result<CreateOutcome, StoreError>) -> (answer: Result<
    Label,
    IoFailure,
>)
    ensures
        plain_creation_view(answer) == creation_written(result_view(outcome)),
{
    match outcome {
        Ok(CreateOutcome::Created(label)) => Ok(label),
        Ok(CreateOutcome::AlreadyExists) => Err(
            IoFailure {
                kind: ErrorKind::InvalidInput,
                message: "database already exists".to_owned(),
            },
        ),
        Err(error) => Err(io_failure(error)),
    }
}

/// Reads what a plain store answered to a compare-and-swap. `None` asks the
/// caller to look the label up and to hand what that gives to [`rejected`].
pub fn swapped(answer: Result<Option<Label>, IoFailure>) -> (outcome: Option<
    Result<SwapOutcome, StoreError>,
>)
    ensures
        pending_view(outcome) == swap_read(plain_found_view(answer)),
{
    match answer {
        Ok(Some(label)) => Some(Ok(SwapOutcome::Updated(label))),
        Ok(None) => None,
        Err(failure) => {
            match failure.kind {
                ErrorKind::NotFound => Some(Ok(SwapOutcome::NotFound)),
                _ => Some(Err(store_failed(failure))),
            }
        },
    }
}

/// Reads the outcome of a compare-and-swap that did not apply from what
/// looking up the label gave afterwards.
pub fn rejected(current: Result<Option<Label>, IoFailure>) -> (outcome: Result<
    SwapOutcome,
    StoreError,
>)
    ensures
        result_view(outcome) == rejection_read(plain_found_view(current)),
{
    match current {
        Ok(Some(label)) => Ok(SwapOutcome::Rejected { current_version: label.version }),
        Ok(None) => Ok(SwapOutcome::NotFound),
        Err(failure) => Err(store_failed(failure)),
    }
}

/// Writes the outcome of a compare-and-swap as a plain answer.
pub fn plain_swapped(outcome: Result<SwapOutcome, StoreError>) -> (answer: Result<
    Option<Label>,
    IoFailure,
>)
    ensures
        plain_found_view(answer) == swap_written(result_view(outcome)),
{
    match outcome {
        Ok(SwapOutcome::Updated(label)) => Ok(Some(label)),
        Ok(SwapOutcome::Rejected { current_version: _ }) => Ok(None),
        Ok(SwapOutcome::NotFound) => Err(
            IoFailure { kind: ErrorKind::NotFound, message: "label not found".to_owned() },
        ),
        Err(error) => Err(io_failure(error)),
    }
}

/// Writing an outcome or a failure as a plain answer and reading it again
/// gives it back, but for one thing that a plain answer cannot hold: the
/// version at which a rejected swap found the label. There the plain answer
/// reads as no outcome yet.
pub proof fn lemma_plain_answers_keep_outcomes(
    creation: Result<CreateOutcomeView, StoreErrorView>,
    swap: Result<SwapOutcomeView, StoreErrorView>,
)
    ensures
        creation_read(creation_written(creation)) == creation,
        swap matches Ok(SwapOutcomeView::Rejected { .. }) ==> swap_read(swap_written(swap))
            is None,
        !(swap matches Ok(SwapOutcomeView::Rejected { .. })) ==> swap_read(swap_written(swap))
            == Some(swap),
{
}

} // verus!
