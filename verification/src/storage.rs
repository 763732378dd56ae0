//! What a label store holds and what it answers.
//!
//! The store itself lives elsewhere: behind a file system, a cache or a
//! network. This module fixes the values that cross its boundary.

use crate::proto::LayerId;
use vstd::prelude::*;

verus! {

/// A label as mathematics sees it: its name as a sequence of characters, the
/// layer it points at, if any, and its version.
pub struct LabelView {
    pub name: Seq<char>,
    pub layer: Option<LayerId>,
    pub version: u64,
}

/// A named, versioned pointer to a data layer.
///
/// A label without a layer exists all the same: it has been created and does
/// not point at data yet.
#[derive(Clone, Debug, PartialEq, Eq)]
pub struct Label {
    pub name: String,
    pub layer: Option<[u32; 5]>,
    pub version: u64,
}

/// The layer that an optional array of five words names.
pub open spec fn layer_of(id: Option<[u32; 5]>) -> Option<LayerId> {
    match id {
        Some(words) => Some(LayerId::from_words(words@)),
        None => None,
    }
}

impl View for Label {
    type V = LabelView;

    open spec fn view(&self) -> LabelView {
        LabelView { name: self.name@, layer: layer_of(self.layer), version: self.version }
    }
}

impl Label {
    /// The label that a store holds right after creating `name`: no layer,
    /// version 0.
    pub fn new_empty(name: &str) -> (label: Label)
        ensures
            label@ == (LabelView { name: name@, layer: None, version: 0 }),
    {
        Label { name: name.to_owned(), layer: None, version: 0 }
    }

    /// A copy of this label.
    pub fn duplicate(&self) -> (label: Label)
        ensures
            label@ == self@,
    {
        Label { name: self.name.clone(), layer: self.layer, version: self.version }
    }
}

/// A failed call on a label store, as mathematics sees it.
pub enum StoreErrorView {
    Unreachable(Seq<char>),
    Failed(Seq<char>),
}

/// Why a call on a label store gave no answer.
///
/// "The store said no" is never an error: a name that is taken, a swap that
/// lost its race and a name that is absent are answers. An error means that
/// no answer was had.
#[derive(Clone, Debug, PartialEq, Eq)]
pub enum StoreError {
    /// No connection to the store could be established. The text says why.
    Unreachable(String),
    /// The store was asked and failed. The text is the store's own.
    Failed(String),
}

impl View for StoreError {
    type V = StoreErrorView;

    open spec fn view(&self) -> StoreErrorView {
        match self {
            StoreError::Unreachable(message) => StoreErrorView::Unreachable(message@),
            StoreError::Failed(message) => StoreErrorView::Failed(message@),
        }
    }
}

impl StoreError {
    /// The text that came with the failure.
    pub fn message(&self) -> (message: &str)
        ensures
            message@ == match self@ {
                StoreErrorView::Unreachable(text) => text,
                StoreErrorView::Failed(text) => text,
            },
    {
        match self {
            StoreError::Unreachable(message) => message.as_str(),
            StoreError::Failed(message) => message.as_str(),
        }
    }

    /// Whether the store could not be reached at all.
    pub fn is_unreachable(&self) -> (unreachable: bool)
        ensures
            unreachable == (self@ is Unreachable),
    {
        match self {
            StoreError::Unreachable(_) => true,
            StoreError::Failed(_) => false,
        }
    }
}

/// The answer to a creation, as mathematics sees it.
pub enum CreateOutcomeView {
    Created(LabelView),
    AlreadyExists,
}

/// What a store answers when asked to create a label.
#[derive(Clone, Debug, PartialEq, Eq)]
pub enum CreateOutcome {
    /// The name was free. The label now exists, empty and at version 0.
    Created(Label),
    /// The name was taken. The label that holds it is untouched.
    AlreadyExists,
}

impl View for CreateOutcome {
    type V = CreateOutcomeView;

    open spec fn view(&self) -> CreateOutcomeView {
        match self {
            CreateOutcome::Created(label) => CreateOutcomeView::Created(label@),
            CreateOutcome::AlreadyExists => CreateOutcomeView::AlreadyExists,
        }
    }
}

/// The answer to a compare-and-swap, as mathematics sees it.
pub enum SwapOutcomeView {
    Updated(LabelView),
    Rejected { current_version: u64 },
    NotFound,
}

/// What a store answers when asked to move a label to another layer, given
/// the label as the caller last saw it.
#[derive(Clone, Debug, PartialEq, Eq)]
pub enum SwapOutcome {
    /// The caller's picture was current. The label now is as given here.
    Updated(Label),
    /// The caller's picture was stale. Nothing changed; the label stands at
    /// `current_version`.
    Rejected { current_version: u64 },
    /// No label of that name exists.
    NotFound,
}

impl View for SwapOutcome {
    type V = SwapOutcomeView;

    open spec fn view(&self) -> SwapOutcomeView {
        match self {
            SwapOutcome::Updated(label) => SwapOutcomeView::Updated(label@),
            SwapOutcome::Rejected { current_version } => SwapOutcomeView::Rejected {
                current_version: *current_version,
            },
            SwapOutcome::NotFound => SwapOutcomeView::NotFound,
        }
    }
}

/// A store's answer or failure, seen through the views of both.
pub open spec fn result_view<T: View, E: View>(result: Result<T, E>) -> Result<T::V, E::V> {
    match result {
        Ok(value) => Ok(value@),
        Err(error) => Err(error@),
    }
}

/// The labels of a list, each seen through its view.
pub open spec fn labels_view(labels: Seq<Label>) -> Seq<LabelView> {
    labels.map_values(|label: Label| label@)
}

/// What a lookup gave, seen through the views of label and failure.
pub open spec fn found_view(result: Result<Option<Label>, StoreError>) -> Result<
    Option<LabelView>,
    StoreErrorView,
> {
    match result {
        Ok(Some(label)) => Ok(Some(label@)),
        Ok(None) => Ok(None),
        Err(error) => Err(error@),
    }
}

/// What a listing gave, seen through the views of labels and failure.
pub open spec fn listed_view(result: Result<Vec<Label>, StoreError>) -> Result<
    Seq<LabelView>,
    StoreErrorView,
> {
    match result {
        Ok(labels) => Ok(labels_view(labels@)),
        Err(error) => Err(error@),
    }
}

} // verus!
