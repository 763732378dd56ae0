//! The server side: what is asked of the store for a request, and what is
//! said to the caller for the store's answer.
//!
//! The adapter holds no state of its own. Talking to the store is the
//! caller's part, because a store may sit behind a file system or a network.
//! The adapter decides before that call whether the request is fit to be
//! passed on, and after it what the protocol's answer is. For the store of
//! [`crate::memory`] it also does both at once.

use crate::memory::MemoryLabelStore;
use crate::model::StoreModel;
use crate::proto::{
    labels_to_wire, layer_from_wire, CreateLabelRequest, CreateLabelResponse, DeleteLabelRequest,
    DeleteLabelResponse, GetLabelRequest, GetLabelResponse, GetLabelsRequest, GetLabelsResponse,
    LayerId, SetLabelRequest, SetLabelResponse,
};
use crate::status::{Code, Status, StatusView};
use crate::storage::{
    found_view, layer_of, listed_view, result_view, CreateOutcome, CreateOutcomeView, Label,
    LabelView, StoreError, StoreErrorView, SwapOutcome, SwapOutcomeView,
};
use vstd::prelude::*;

verus! {

/// The text of the status for a label that does not exist.
pub open spec fn not_found_text() -> Seq<char> {
    "label not found"@
}

/// The text of the status for a swap request without the expected label.
pub open spec fn label_missing_text() -> Seq<char> {
    "label argument not specified"@
}

/// The text of the status for a deletion request without a name.
pub open spec fn name_missing_text() -> Seq<char> {
    "no label name given"@
}

/// The status for a label that does not exist.
pub open spec fn not_found_status() -> StatusView {
    StatusView { code: Code::NotFound, message: not_found_text() }
}

/// The status for a store that gave no answer: the code for errors without a
/// name of their own, and the store's text.
pub open spec fn failure_status(error: StoreErrorView) -> StatusView {
    StatusView {
        code: Code::Unknown,
        message: match error {
            StoreErrorView::Unreachable(text) => text,
            StoreErrorView::Failed(text) => text,
        },
    }
}

/// A response or a status, the status seen through its view.
pub open spec fn reply_view<T>(reply: Result<T, Status>) -> Result<T, StatusView> {
    match reply {
        Ok(response) => Ok(response),
        Err(status) => Err(status@),
    }
}

/// A list of labels or a status, both seen through their views.
pub open spec fn labels_reply_view(reply: Result<GetLabelsResponse, Status>) -> Result<
    Seq<LabelView>,
    StatusView,
> {
    match reply {
        Ok(response) => Ok(response@),
        Err(status) => Err(status@),
    }
}

/// The answer to a lookup: the label's layer and version, "not found" for an
/// absent label, the failure's status for a store that failed.
pub open spec fn get_label_answer(found: Result<Option<LabelView>, StoreErrorView>) -> Result<
    GetLabelResponse,
    StatusView,
> {
    match found {
        Ok(Some(label)) => Ok(GetLabelResponse { layer: label.layer, version: label.version }),
        Ok(None) => Err(not_found_status()),
        Err(error) => Err(failure_status(error)),
    }
}

/// The answer to a listing: the labels as the store gave them.
pub open spec fn get_labels_answer(listed: Result<Seq<LabelView>, StoreErrorView>) -> Result<
    Seq<LabelView>,
    StatusView,
> {
    match listed {
        Ok(labels) => Ok(labels),
        Err(error) => Err(failure_status(error)),
    }
}

/// The answer to a creation: a taken name is a response, not an error.
pub open spec fn create_label_answer(outcome: Result<CreateOutcomeView, StoreErrorView>) -> Result<
    CreateLabelResponse,
    StatusView,
> {
    match outcome {
        Ok(CreateOutcomeView::Created(_)) => Ok(CreateLabelResponse { has_been_created: true }),
        Ok(CreateOutcomeView::AlreadyExists) => Ok(CreateLabelResponse { has_been_created: false }),
        Err(error) => Err(failure_status(error)),
    }
}

/// The answer to a compare-and-swap: the new version for a swap that applied,
/// the current version for one that did not, "not found" for an absent label.
pub open spec fn set_label_answer(outcome: Result<SwapOutcomeView, StoreErrorView>) -> Result<
    SetLabelResponse,
    StatusView,
> {
    match outcome {
        Ok(SwapOutcomeView::Updated(label)) => Ok(
            SetLabelResponse { has_been_set: true, version: label.version },
        ),
        Ok(SwapOutcomeView::Rejected { current_version }) => Ok(
            SetLabelResponse { has_been_set: false, version: current_version },
        ),
        Ok(SwapOutcomeView::NotFound) => Err(not_found_status()),
        Err(error) => Err(failure_status(error)),
    }
}

/// The answer to a deletion: an absent label is a response, not an error.
pub open spec fn delete_label_answer(deleted: Result<bool, StoreErrorView>) -> Result<
    DeleteLabelResponse,
    StatusView,
> {
    match deleted {
        Ok(has_been_deleted) => Ok(DeleteLabelResponse { has_been_deleted }),
        Err(error) => Err(failure_status(error)),
    }
}

/// The label that a swap request expects, if it names one.
pub open spec fn expected_view(label: Option<crate::proto::Label>) -> Option<LabelView> {
    match label {
        Some(label) => Some(label@),
        None => None,
    }
}

/// What a swap request asks of the store: the label as the caller expects it
/// and the layer to move it to. A request without the expected label is
/// invalid and asks nothing.
pub open spec fn set_label_question(expected: Option<LabelView>, new_layer: Option<LayerId>) -> Result<
    (LabelView, Option<LayerId>),
    StatusView,
> {
    match expected {
        Some(label) => Ok((label, new_layer)),
        None => Err(StatusView { code: Code::InvalidArgument, message: label_missing_text() }),
    }
}

/// What a deletion request asks of the store: the name to delete. A request
/// with an empty name is invalid and asks nothing.
pub open spec fn delete_label_question(name: Seq<char>) -> Result<Seq<char>, StatusView> {
    if name.len() == 0 {
        Err(StatusView { code: Code::InvalidArgument, message: name_missing_text() })
    } else {
        Ok(name)
    }
}

/// What a call is to put to the store, or the status that ends it at once,
/// both seen through their views.
pub open spec fn swap_call_view(call: Result<(Label, Option<[u32; 5]>), Status>) -> Result<
    (LabelView, Option<LayerId>),
    StatusView,
> {
    match call {
        Ok((expected, new_layer)) => Ok((expected@, layer_of(new_layer))),
        Err(status) => Err(status@),
    }
}

/// The name that a call is to put to the store, or the status that ends it
/// at once, both seen through their views.
pub open spec fn name_call_view(call: Result<String, Status>) -> Result<Seq<char>, StatusView> {
    match call {
        Ok(name) => Ok(name@),
        Err(status) => Err(status@),
    }
}

/// The protocol's answer to a lookup in a store that works as the model does.
pub open spec fn serve_get_label(store: StoreModel, name: Seq<char>) -> Result<
    GetLabelResponse,
    StatusView,
> {
    get_label_answer(Ok(store.get(name)))
}

/// The protocol's answer to a creation in such a store.
pub open spec fn serve_create_label(store: StoreModel, name: Seq<char>) -> Result<
    CreateLabelResponse,
    StatusView,
> {
    create_label_answer(Ok(store.create_outcome(name)))
}

/// The protocol's answer to a compare-and-swap in such a store.
pub open spec fn serve_set_label(
    store: StoreModel,
    expected: Option<LabelView>,
    new_layer: Option<LayerId>,
) -> Result<SetLabelResponse, StatusView> {
    match set_label_question(expected, new_layer) {
        Ok((label, layer)) => set_label_answer(store.swap_outcome(label, layer)),
        Err(status) => Err(status),
    }
}

/// The store after a compare-and-swap request was served.
pub open spec fn after_set_label(
    store: StoreModel,
    expected: Option<LabelView>,
    new_layer: Option<LayerId>,
) -> StoreModel {
    match set_label_question(expected, new_layer) {
        Ok((label, layer)) => store.swap(label, layer),
        Err(_) => store,
    }
}

/// The protocol's answer to a deletion in such a store.
pub open spec fn serve_delete_label(store: StoreModel, name: Seq<char>) -> Result<
    DeleteLabelResponse,
    StatusView,
> {
    match delete_label_question(name) {
        Ok(name) => delete_label_answer(Ok(store.delete_outcome(name))),
        Err(status) => Err(status),
    }
}

/// The store after a deletion request was served.
pub open spec fn after_delete_label(store: StoreModel, name: Seq<char>) -> StoreModel {
    match delete_label_question(name) {
        Ok(name) => store.delete(name),
        Err(_) => store,
    }
}

/// The status for a store that gave no answer.
pub fn store_failure(error: &StoreError) -> (status: Status)
    ensures
        status@ == failure_status(error@),
{
    Status::unknown(error.message())
}

/// Turns what the store found into the answer to a lookup.
pub fn get_label_reply(found: Result<Option<Label>, StoreError>) -> (reply: Result<
    GetLabelResponse,
    Status,
>)
    ensures
        reply_view(reply) == get_label_answer(found_view(found)),
{
    match found {
        Ok(Some(label)) => Ok(GetLabelResponse::new(label.layer, label.version)),
        Ok(None) => Err(Status::not_found("label not found")),
        Err(error) => Err(store_failure(&error)),
    }
}

/// Turns what the store listed into the answer to a listing.
pub fn get_labels_reply(listed: Result<Vec<Label>, StoreError>) -> (reply: Result<
    GetLabelsResponse,
    Status,
>)
    ensures
        labels_reply_view(reply) == get_labels_answer(listed_view(listed)),
{
    match listed {
        Ok(labels) => Ok(GetLabelsResponse { label: labels_to_wire(&labels) }),
        Err(error) => Err(store_failure(&error)),
    }
}

/// Turns the store's answer to a creation into the protocol's.
pub fn create_label_reply(outcome: Result<CreateOutcome, StoreError>) -> (reply: Result<
    CreateLabelResponse,
    Status,
>)
    ensures
        reply_view(reply) == create_label_answer(result_view(outcome)),
{
    match outcome {
        Ok(CreateOutcome::Created(_)) => Ok(CreateLabelResponse { has_been_created: true }),
        Ok(CreateOutcome::AlreadyExists) => Ok(CreateLabelResponse { has_been_created: false }),
        Err(error) => Err(store_failure(&error)),
    }
}

/// Checks a swap request and takes from it what the store is to be asked.
pub fn set_label_call(request: SetLabelRequest) -> (call: Result<
    (Label, Option<[u32; 5]>),
    Status,
>)
    ensures
        swap_call_view(call) == set_label_question(expected_view(request.label), request.new_layer),
{
    match request.label {
        Some(label) => {
            let expected = label.to_stored();
            Ok((expected, layer_from_wire(&request.new_layer)))
        },
        None => Err(Status::invalid_argument("label argument not specified")),
    }
}

/// Turns the store's answer to a compare-and-swap into the protocol's.
pub fn set_label_reply(outcome: Result<SwapOutcome, StoreError>) -> (reply: Result<
    SetLabelResponse,
    Status,
>)
    ensures
        reply_view(reply) == set_label_answer(result_view(outcome)),
{
    match outcome {
        Ok(SwapOutcome::Updated(label)) => Ok(
            SetLabelResponse { has_been_set: true, version: label.version },
        ),
        Ok(SwapOutcome::Rejected { current_version }) => Ok(
            SetLabelResponse { has_been_set: false, version: current_version },
        ),
        Ok(SwapOutcome::NotFound) => Err(Status::not_found("label not found")),
        Err(error) => Err(store_failure(&error)),
    }
}

/// Checks a deletion request and takes from it the name to delete.
pub fn delete_label_call(request: DeleteLabelRequest) -> (call: Result<String, Status>)
    ensures
        name_call_view(call) == delete_label_question(request.name@),
{
    if request.name.as_str().is_empty() {
        Err(Status::invalid_argument("no label name given"))
    } else {
        Ok(request.name)
    }
}

/// Turns the store's answer to a deletion into the protocol's.
pub fn delete_label_reply(deleted: Result<bool, StoreError>) -> (reply: Result<
    DeleteLabelResponse,
    Status,
>)
    ensures
        reply_view(reply) == delete_label_answer(result_view(deleted)),
{
    match deleted {
        Ok(has_been_deleted) => Ok(DeleteLabelResponse { has_been_deleted }),
        Err(error) => Err(store_failure(&error)),
    }
}

/// The adapter in front of a store of type `S`.
pub struct WrappedStoreLabelService<S> {
    store: S,
}

impl<S: View> View for WrappedStoreLabelService<S> {
    type V = S::V;

    /// The service is seen as the store that it serves.
    open spec fn view(&self) -> S::V {
        self.inner()@
    }
}

impl<S> WrappedStoreLabelService<S> {
    /// The store behind the adapter.
    pub closed spec fn inner(&self) -> S {
        self.store
    }

    /// The store behind the adapter.
    pub fn store(&self) -> (store: &S)
        ensures
            *store == self.inner(),
    {
        &self.store
    }
}

/// Puts the adapter in front of `store`.
pub fn create_service<S>(store: S) -> (service: WrappedStoreLabelService<S>)
    ensures
        service.inner() == store,
{
    WrappedStoreLabelService { store }
}

impl WrappedStoreLabelService<MemoryLabelStore> {
    /// Serves a lookup.
    pub fn get_label(&self, request: GetLabelRequest) -> (reply: Result<GetLabelResponse, Status>)
        ensures
            reply_view(reply) == serve_get_label(self@, request.name@),
    {
        get_label_reply(self.store.get_label(request.name.as_str()))
    }

    /// Serves a listing. The labels come in the order of their creation, each
    /// label of the store once.
    pub fn get_labels(&self, _request: GetLabelsRequest) -> (reply: Result<
        GetLabelsResponse,
        Status,
    >)
        ensures
            reply matches Ok(response) && response@ == self.inner().listing(),
            self@.lists(self.inner().listing()),
    {
        get_labels_reply(self.store.labels())
    }

    /// Serves a creation.
    pub fn create_label(&mut self, request: CreateLabelRequest) -> (reply: Result<
        CreateLabelResponse,
        Status,
    >)
        ensures
            reply_view(reply) == serve_create_label(old(self)@, request.name@),
            final(self)@ == old(self)@.create(request.name@),
    {
        create_label_reply(self.store.create_label(request.name.as_str()))
    }

    /// Serves a compare-and-swap.
    pub fn set_label(&mut self, request: SetLabelRequest) -> (reply: Result<
        SetLabelResponse,
        Status,
    >)
        ensures
            reply_view(reply) == serve_set_label(
                old(self)@,
                expected_view(request.label),
                request.new_layer,
            ),
            final(self)@ == after_set_label(
                old(self)@,
                expected_view(request.label),
                request.new_layer,
            ),
    {
        match set_label_call(request) {
            Ok((expected, new_layer)) => set_label_reply(
                self.store.set_label_option(&expected, new_layer),
            ),
            Err(status) => Err(status),
        }
    }

    /// Serves a deletion.
    pub fn delete_label(&mut self, request: DeleteLabelRequest) -> (reply: Result<
        DeleteLabelResponse,
        Status,
    >)
        ensures
            reply_view(reply) == serve_delete_label(old(self)@, request.name@),
            final(self)@ == after_delete_label(old(self)@, request.name@),
    {
        match delete_label_call(request) {
            Ok(name) => delete_label_reply(self.store.delete_label(name.as_str())),
            Err(status) => Err(status),
        }
    }
}

} // verus!
