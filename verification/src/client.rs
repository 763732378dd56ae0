//! The client side: the pool of connections, the requests that go out and
//! what their responses mean to the caller.
//!
//! Connecting and sending are the caller's part. The pool hands out a
//! connection or says that a new one is needed; after the call, the store
//! takes the connection back, whatever the call gave, and reads the response.

use crate::model::StoreModel;
use crate::proto::{
    labels_from_wire, layer_to_wire, CreateLabelRequest, CreateLabelResponse, DeleteLabelRequest,
    DeleteLabelResponse, GetLabelRequest, GetLabelResponse, GetLabelsRequest, GetLabelsResponse,
    LayerId, SetLabelRequest, SetLabelResponse,
};
use crate::server::{labels_reply_view, reply_view};
use crate::status::{Code, Status, StatusView};
use crate::storage::{
    found_view, layer_of, listed_view, result_view, CreateOutcome, CreateOutcomeView, Label,
    LabelView, StoreError, StoreErrorView, SwapOutcome, SwapOutcomeView,
};
use vstd::prelude::*;

verus! {

/// The connections that are ready for use, and the address at which more can
/// be had.
///
/// The pool has no upper bound. It never refuses a connection that is handed
/// to it, and it does not tell a sound connection from a broken one.
pub struct GrpcLabelStoreState<C> {
    address: Vec<u8>,
    clients: Vec<C>,
}

impl<C> GrpcLabelStoreState<C> {
    /// The connections that are ready for use. The last one is handed out
    /// first.
    pub closed spec fn idle(&self) -> Seq<C> {
        self.clients@
    }

    /// The address of the remote store.
    pub closed spec fn remote(&self) -> Seq<u8> {
        self.address@
    }

    /// A pool for the store at `address` that starts with the connections
    /// in `clients`.
    pub fn new(address: Vec<u8>, clients: Vec<C>) -> (state: Self)
        ensures
            state.remote() == address@,
            state.idle() == clients@,
    {
        GrpcLabelStoreState { address, clients }
    }

    /// The address to connect to when the pool has no connection to hand out.
    pub fn address(&self) -> (address: &Vec<u8>)
        ensures
            address@ == self.remote(),
    {
        &self.address
    }

    /// How many connections are ready for use.
    pub fn available(&self) -> (count: usize)
        ensures
            count == self.idle().len(),
    {
        self.clients.len()
    }

    /// Hands out a connection if one is ready. `None` is no failure: it asks
    /// the caller to connect to [`Self::address`].
    pub fn get_available_client(&mut self) -> (client: Option<C>)
        ensures
            final(self).remote() == old(self).remote(),
            match client {
                Some(connection) => {
                    &&& old(self).idle().len() > 0
                    &&& connection == old(self).idle().last()
                    &&& final(self).idle() == old(self).idle().drop_last()
                },
                None => old(self).idle().len() == 0 && final(self).idle() == old(self).idle(),
            },
    {
        self.clients.pop()
    }

    /// Takes a connection into the pool.
    pub fn store_client(&mut self, client: C)
        ensures
            final(self).remote() == old(self).remote(),
            final(self).idle() == old(self).idle().push(client),
    {
        self.clients.push(client);
    }
}

/// What an attempt to connect gave: the connection, or the failure to reach
/// the store with the attempt's own text.
pub fn connected<C>(attempt: Result<C, String>) -> (client: Result<C, StoreError>)
    ensures
        match attempt {
            Ok(connection) => client == Ok::<C, StoreError>(connection),
            Err(text) => client matches Err(error) && error@ == StoreErrorView::Unreachable(text@),
        },
{
    match attempt {
        Ok(connection) => Ok(connection),
        Err(text) => Err(StoreError::Unreachable(text)),
    }
}

/// The failure that a status stands for: the store was reached and did not
/// answer. The text is the status's.
pub open spec fn status_failure(status: StatusView) -> StoreErrorView {
    StoreErrorView::Failed(status.message)
}

/// What the response to a listing means.
pub open spec fn labels_meaning(response: Result<Seq<LabelView>, StatusView>) -> Result<
    Seq<LabelView>,
    StoreErrorView,
> {
    match response {
        Ok(labels) => Ok(labels),
        Err(status) => Err(status_failure(status)),
    }
}

/// What the response to the creation of `name` means.
pub open spec fn create_label_meaning(
    name: Seq<char>,
    response: Result<CreateLabelResponse, StatusView>,
) -> Result<CreateOutcomeView, StoreErrorView> {
    match response {
        Ok(answer) => if answer.has_been_created {
            Ok(CreateOutcomeView::Created(StoreModel::fresh(name)))
        } else {
            Ok(CreateOutcomeView::AlreadyExists)
        },
        Err(status) => Err(status_failure(status)),
    }
}

/// What the response to a lookup of `name` means. The status "not found" is
/// an answer, any other status a failure.
pub open spec fn get_label_meaning(
    name: Seq<char>,
    response: Result<GetLabelResponse, StatusView>,
) -> Result<Option<LabelView>, StoreErrorView> {
    match response {
        Ok(answer) => Ok(Some(LabelView { name, layer: answer.layer, version: answer.version })),
        Err(status) => if status.code == Code::NotFound {
            Ok(None)
        } else {
            Err(status_failure(status))
        },
    }
}

/// What the response to a compare-and-swap means that was to move the label
/// `name` to `layer`.
pub open spec fn set_label_option_meaning(
    name: Seq<char>,
    layer: Option<LayerId>,
    response: Result<SetLabelResponse, StatusView>,
) -> Result<SwapOutcomeView, StoreErrorView> {
    match response {
        Ok(answer) => if answer.has_been_set {
            Ok(SwapOutcomeView::Updated(LabelView { name, layer, version: answer.version }))
        } else {
            Ok(SwapOutcomeView::Rejected { current_version: answer.version })
        },
        Err(status) => if status.code == Code::NotFound {
            Ok(SwapOutcomeView::NotFound)
        } else {
            Err(status_failure(status))
        },
    }
}

/// What the response to a deletion means.
pub open spec fn delete_label_meaning(response: Result<DeleteLabelResponse, StatusView>) -> Result<
    bool,
    StoreErrorView,
> {
    match response {
        Ok(answer) => Ok(answer.has_been_deleted),
        Err(status) => Err(status_failure(status)),
    }
}

/// The failure that a status stands for.
pub fn remote_failure(status: &Status) -> (error: StoreError)
    ensures
        error@ == status_failure(status@),
{
    StoreError::Failed(status.message().to_owned())
}

/// The store at the other end of the pool's connections.
pub struct GrpcLabelStore<C> {
    pub state: GrpcLabelStoreState<C>,
}

impl<C> GrpcLabelStore<C> {
    /// A store that reaches the remote at `address` and starts with the
    /// connections in `clients`.
    pub fn new(address: Vec<u8>, clients: Vec<C>) -> (store: Self)
        ensures
            store.state.remote() == address@,
            store.state.idle() == clients@,
    {
        GrpcLabelStore { state: GrpcLabelStoreState::new(address, clients) }
    }

    /// The request for every label.
    pub fn labels_request() -> (request: GetLabelsRequest)
        ensures
            request.domain@.len() == 0,
    {
        GetLabelsRequest { domain: String::new() }
    }

    /// Ends a listing: takes the connection back and reads the response.
    pub fn labels(&mut self, client: C, response: Result<GetLabelsResponse, Status>) -> (result:
        Result<Vec<Label>, StoreError>)
        ensures
            final(self).state.remote() == old(self).state.remote(),
            final(self).state.idle() == old(self).state.idle().push(client),
            listed_view(result) == labels_meaning(labels_reply_view(response)),
    {
        self.state.store_client(client);
        match response {
            Ok(answer) => Ok(labels_from_wire(&answer.label)),
            Err(status) => Err(remote_failure(&status)),
        }
    }

    /// The request to create the label `label`.
    pub fn create_label_request(label: &str) -> (request: CreateLabelRequest)
        ensures
            request.domain@.len() == 0,
            request.name@ == label@,
    {
        CreateLabelRequest { domain: String::new(), name: label.to_owned() }
    }

    /// Ends a creation: takes the connection back and reads the response.
    pub fn create_label(
        &mut self,
        client: C,
        label: &str,
        response: Result<CreateLabelResponse, Status>,
    ) -> (result: Result<CreateOutcome, StoreError>)
        ensures
            final(self).state.remote() == old(self).state.remote(),
            final(self).state.idle() == old(self).state.idle().push(client),
            result_view(result) == create_label_meaning(label@, reply_view(response)),
    {
        self.state.store_client(client);
        match response {
            Ok(answer) => {
                if answer.has_been_created {
                    Ok(CreateOutcome::Created(Label::new_empty(label)))
                } else {
                    Ok(CreateOutcome::AlreadyExists)
                }
            },
            Err(status) => Err(remote_failure(&status)),
        }
    }

    /// The request to look up the label `label`.
    pub fn get_label_request(label: &str) -> (request: GetLabelRequest)
        ensures
            request.domain@.len() == 0,
            request.name@ == label@,
    {
        GetLabelRequest { domain: String::new(), name: label.to_owned() }
    }

    /// Ends a lookup: takes the connection back and reads the response.
    pub fn get_label(
        &mut self,
        client: C,
        label: &str,
        response: Result<GetLabelResponse, Status>,
    ) -> (result: Result<Option<Label>, StoreError>)
        ensures
            final(self).state.remote() == old(self).state.remote(),
            final(self).state.idle() == old(self).state.idle().push(client),
            found_view(result) == get_label_meaning(label@, reply_view(response)),
    {
        self.state.store_client(client);
        match response {
            Ok(answer) => Ok(
                Some(Label { name: label.to_owned(), layer: answer.id(), version: answer.version }),
            ),
            Err(status) => {
                if status.code() == Code::NotFound {
                    Ok(None)
                } else {
                    Err(remote_failure(&status))
                }
            },
        }
    }

    /// The request to move `label`, as the caller last saw it, to `layer`.
    pub fn set_label_option_request(label: &Label, layer: Option<[u32; 5]>) -> (request:
        SetLabelRequest)
        ensures
            request.domain@.len() == 0,
            request.label matches Some(expected) && expected@ == label@,
            request.new_layer == layer_of(layer),
    {
        SetLabelRequest {
            domain: String::new(),
            label: Some(crate::proto::Label::from_stored(label)),
            new_layer: layer_to_wire(layer),
        }
    }

    /// Ends a compare-and-swap: takes the connection back and reads the
    /// response.
    pub fn set_label_option(
        &mut self,
        client: C,
        label: &Label,
        layer: Option<[u32; 5]>,
        response: Result<SetLabelResponse, Status>,
    ) -> (result: Result<SwapOutcome, StoreError>)
        ensures
            final(self).state.remote() == old(self).state.remote(),
            final(self).state.idle() == old(self).state.idle().push(client),
            result_view(result) == set_label_option_meaning(
                label@.name,
                layer_of(layer),
                reply_view(response),
            ),
    {
        self.state.store_client(client);
        match response {
            Ok(answer) => {
                if answer.has_been_set {
                    Ok(
                        SwapOutcome::Updated(
                            Label { name: label.name.clone(), layer, version: answer.version },
                        ),
                    )
                } else {
                    Ok(SwapOutcome::Rejected { current_version: answer.version })
                }
            },
            Err(status) => {
                if status.code() == Code::NotFound {
                    Ok(SwapOutcome::NotFound)
                } else {
                    Err(remote_failure(&status))
                }
            },
        }
    }

    /// The request to delete the label `name`.
    pub fn delete_label_request(name: &str) -> (request: DeleteLabelRequest)
        ensures
            request.domain@.len() == 0,
            request.name@ == name@,
    {
        DeleteLabelRequest { domain: String::new(), name: name.to_owned() }
    }

    /// Ends a deletion: takes the connection back and reads the response.
    pub fn delete_label(&mut self, client: C, response: Result<DeleteLabelResponse, Status>) -> (result:
        Result<bool, StoreError>)
        ensures
            final(self).state.remote() == old(self).state.remote(),
            final(self).state.idle() == old(self).state.idle().push(client),
            result_view(result) == delete_label_meaning(reply_view(response)),
    {
        self.state.store_client(client);
        match response {
            Ok(answer) => Ok(answer.has_been_deleted),
            Err(status) => Err(remote_failure(&status)),
        }
    }
}

} // verus!
