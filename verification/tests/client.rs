use grpc_labelstore::client::{connected, remote_failure, GrpcLabelStore, GrpcLabelStoreState};
use grpc_labelstore::memory::MemoryLabelStore;
use grpc_labelstore::proto::{
    CreateLabelResponse, DeleteLabelResponse, GetLabelResponse, GetLabelsResponse, LayerId,
    SetLabelResponse,
};
use grpc_labelstore::server::create_service;
use grpc_labelstore::status::{Code, Status};
use grpc_labelstore::storage::{CreateOutcome, Label, StoreError, SwapOutcome};

fn label(name: &str, layer: Option<[u32; 5]>, version: u64) -> Label {
    Label { name: name.to_string(), layer, version }
}

fn store_with(clients: Vec<u32>) -> GrpcLabelStore<u32> {
    GrpcLabelStore::new(b"http://[::1]:8080".to_vec(), clients)
}

#[test]
fn pool_hands_out_the_last_connection_first() {
    let mut state = GrpcLabelStoreState::new(b"http://[::1]:8080".to_vec(), vec![1u32, 2, 3]);
    assert_eq!(state.available(), 3);
    assert_eq!(state.address(), &b"http://[::1]:8080".to_vec());
    assert_eq!(state.get_available_client(), Some(3));
    assert_eq!(state.get_available_client(), Some(2));
    state.store_client(9);
    assert_eq!(state.get_available_client(), Some(9));
    assert_eq!(state.get_available_client(), Some(1));
    assert_eq!(state.get_available_client(), None);
    assert_eq!(state.available(), 0);
    assert_eq!(state.address(), &b"http://[::1]:8080".to_vec());
}

#[test]
fn pool_grows_under_more_calls_than_connections() {
    let mut store = store_with(vec![1, 2]);
    let mut next_connection: u32 = 100;
    let mut held: Vec<u32> = Vec::new();
    let mut calls = 0;
    while calls < 5 {
        let client = match store.state.get_available_client() {
            Some(client) => client,
            None => {
                next_connection += 1;
                connected::<u32>(Ok(next_connection)).unwrap()
            }
        };
        held.push(client);
        calls += 1;
    }
    assert_eq!(held, vec![2, 1, 101, 102, 103]);
    assert_eq!(store.state.available(), 0);
    while let Some(client) = held.pop() {
        let answer = store.delete_label(client, Ok(DeleteLabelResponse { has_been_deleted: true }));
        assert_eq!(answer, Ok(true));
    }
    assert_eq!(store.state.available(), 5);
    assert!(store.state.available() >= 2);
}

#[test]
fn failed_connection_is_unreachable_and_leaves_the_pool_alone() {
    let mut store = store_with(vec![]);
    assert_eq!(store.state.get_available_client(), None);
    let attempt = connected::<u32>(Err("transport error".to_string()));
    assert_eq!(attempt, Err(StoreError::Unreachable("transport error".to_string())));
    let error = attempt.unwrap_err();
    assert!(error.is_unreachable());
    assert_eq!(error.message(), "transport error");
    assert_eq!(store.state.available(), 0);
}

#[test]
fn connection_returns_to_the_pool_after_a_failed_call() {
    let mut store = store_with(vec![7]);
    let client = store.state.get_available_client().unwrap();
    assert_eq!(store.state.available(), 0);
    let result = store.get_label(
        client,
        "a",
        Err(Status { code: Code::Unavailable, message: "connection reset".to_string() }),
    );
    assert_eq!(result, Err(StoreError::Failed("connection reset".to_string())));
    assert!(!result.unwrap_err().is_unreachable());
    assert_eq!(store.state.available(), 1);
    assert_eq!(store.state.get_available_client(), Some(7));
}

#[test]
fn status_becomes_a_failure_with_its_text() {
    let status = Status::new(Code::Internal, "disk full");
    assert_eq!(status.code(), Code::Internal);
    assert_eq!(status.message(), "disk full");
    assert_eq!(remote_failure(&status), StoreError::Failed("disk full".to_string()));
}

#[test]
fn requests_name_what_is_asked_and_leave_the_domain_empty() {
    let listing = GrpcLabelStore::<u32>::labels_request();
    assert_eq!(listing.domain, "");
    let lookup = GrpcLabelStore::<u32>::get_label_request("a/b");
    assert_eq!(lookup.domain, "");
    assert_eq!(lookup.name, "a/b");
    let creation = GrpcLabelStore::<u32>::create_label_request("a/b");
    assert_eq!(creation.domain, "");
    assert_eq!(creation.name, "a/b");
    let deletion = GrpcLabelStore::<u32>::delete_label_request("a/b");
    assert_eq!(deletion.domain, "");
    assert_eq!(deletion.name, "a/b");
    let expected = label("a/b", Some([1, 2, 3, 4, 5]), 4);
    let swap = GrpcLabelStore::<u32>::set_label_option_request(&expected, Some([5, 4, 3, 2, 1]));
    assert_eq!(swap.domain, "");
    let sent = swap.label.unwrap();
    assert_eq!(sent.name, "a/b");
    assert_eq!(sent.layer, Some(LayerId { v1: 1, v2: 2, v3: 3, v4: 4, v5: 5 }));
    assert_eq!(sent.version, 4);
    assert_eq!(swap.new_layer, Some(LayerId { v1: 5, v2: 4, v3: 3, v4: 2, v5: 1 }));
    let clearing = GrpcLabelStore::<u32>::set_label_option_request(&expected, None);
    assert_eq!(clearing.new_layer, None);
}

#[test]
fn lookup_response_is_read() {
    let mut store = store_with(vec![]);
    let found = store.get_label(
        1,
        "a",
        Ok(GetLabelResponse { layer: Some(LayerId::new([1, 2, 3, 4, 5])), version: 3 }),
    );
    assert_eq!(found, Ok(Some(label("a", Some([1, 2, 3, 4, 5]), 3))));
    let empty = store.get_label(2, "a", Ok(GetLabelResponse { layer: None, version: 0 }));
    assert_eq!(empty, Ok(Some(label("a", None, 0))));
    let absent = store.get_label(3, "a", Err(Status::not_found("label not found")));
    assert_eq!(absent, Ok(None));
    let failed = store.get_label(4, "a", Err(Status::unknown("boom")));
    assert_eq!(failed, Err(StoreError::Failed("boom".to_string())));
    assert_eq!(store.state.available(), 4);
}

#[test]
fn creation_response_is_read() {
    let mut store = store_with(vec![]);
    let created = store.create_label(1, "a", Ok(CreateLabelResponse { has_been_created: true }));
    assert_eq!(created, Ok(CreateOutcome::Created(label("a", None, 0))));
    let taken = store.create_label(2, "a", Ok(CreateLabelResponse { has_been_created: false }));
    assert_eq!(taken, Ok(CreateOutcome::AlreadyExists));
    let failed = store.create_label(3, "a", Err(Status::unknown("boom")));
    assert_eq!(failed, Err(StoreError::Failed("boom".to_string())));
    let odd = store.create_label(4, "a", Err(Status::not_found("label not found")));
    assert_eq!(odd, Err(StoreError::Failed("label not found".to_string())));
    assert_eq!(store.state.available(), 4);
}

#[test]
fn swap_response_is_read() {
    let mut store = store_with(vec![]);
    let expected = label("a", Some([1, 1, 1, 1, 1]), 4);
    let applied = store.set_label_option(
        1,
        &expected,
        Some([2, 2, 2, 2, 2]),
        Ok(SetLabelResponse { has_been_set: true, version: 5 }),
    );
    assert_eq!(applied, Ok(SwapOutcome::Updated(label("a", Some([2, 2, 2, 2, 2]), 5))));
    let cleared = store.set_label_option(
        2,
        &expected,
        None,
        Ok(SetLabelResponse { has_been_set: true, version: 5 }),
    );
    assert_eq!(cleared, Ok(SwapOutcome::Updated(label("a", None, 5))));
    let rejected = store.set_label_option(
        3,
        &expected,
        Some([2, 2, 2, 2, 2]),
        Ok(SetLabelResponse { has_been_set: false, version: 9 }),
    );
    assert_eq!(rejected, Ok(SwapOutcome::Rejected { current_version: 9 }));
    let absent = store.set_label_option(
        4,
        &expected,
        Some([2, 2, 2, 2, 2]),
        Err(Status::not_found("label not found")),
    );
    assert_eq!(absent, Ok(SwapOutcome::NotFound));
    let failed = store.set_label_option(
        5,
        &expected,
        Some([2, 2, 2, 2, 2]),
        Err(Status::invalid_argument("label argument not specified")),
    );
    assert_eq!(failed, Err(StoreError::Failed("label argument not specified".to_string())));
    assert_eq!(store.state.available(), 5);
}

#[test]
fn deletion_and_listing_responses_are_read() {
    let mut store = store_with(vec![]);
    assert_eq!(
        store.delete_label(1, Ok(DeleteLabelResponse { has_been_deleted: false })),
        Ok(false)
    );
    assert_eq!(
        store.delete_label(2, Err(Status::invalid_argument("no label name given"))),
        Err(StoreError::Failed("no label name given".to_string()))
    );
    let wire = vec![
        grpc_labelstore::proto::Label::new("a".to_string(), None, 0),
        grpc_labelstore::proto::Label::new("b".to_string(), Some([1, 2, 3, 4, 5]), 2),
    ];
    assert_eq!(
        store.labels(3, Ok(GetLabelsResponse { label: wire })),
        Ok(vec![label("a", None, 0), label("b", Some([1, 2, 3, 4, 5]), 2)])
    );
    assert_eq!(store.labels(4, Ok(GetLabelsResponse { label: vec![] })), Ok(vec![]));
    assert_eq!(
        store.labels(5, Err(Status::unknown("boom"))),
        Err(StoreError::Failed("boom".to_string()))
    );
    assert_eq!(store.state.available(), 5);
}

#[test]
fn remote_store_answers_as_the_store_behind_it() {
    let mut service = create_service(MemoryLabelStore::new());
    let mut store = store_with(vec![1]);

    let client = store.state.get_available_client().unwrap();
    let reply = service.create_label(GrpcLabelStore::<u32>::create_label_request("head"));
    assert_eq!(
        store.create_label(client, "head", reply),
        Ok(CreateOutcome::Created(label("head", None, 0)))
    );

    let client = store.state.get_available_client().unwrap();
    let reply = service.create_label(GrpcLabelStore::<u32>::create_label_request("head"));
    assert_eq!(store.create_label(client, "head", reply), Ok(CreateOutcome::AlreadyExists));

    let seen = label("head", None, 0);
    let client = store.state.get_available_client().unwrap();
    let reply = service
        .set_label(GrpcLabelStore::<u32>::set_label_option_request(&seen, Some([1, 2, 3, 4, 5])));
    assert_eq!(
        store.set_label_option(client, &seen, Some([1, 2, 3, 4, 5]), reply),
        Ok(SwapOutcome::Updated(label("head", Some([1, 2, 3, 4, 5]), 1)))
    );

    let client = store.state.get_available_client().unwrap();
    let reply = service
        .set_label(GrpcLabelStore::<u32>::set_label_option_request(&seen, Some([5, 5, 5, 5, 5])));
    assert_eq!(
        store.set_label_option(client, &seen, Some([5, 5, 5, 5, 5]), reply),
        Ok(SwapOutcome::Rejected { current_version: 1 })
    );

    let client = store.state.get_available_client().unwrap();
    let reply = service.get_label(GrpcLabelStore::<u32>::get_label_request("head"));
    assert_eq!(
        store.get_label(client, "head", reply),
        Ok(Some(label("head", Some([1, 2, 3, 4, 5]), 1)))
    );

    let client = store.state.get_available_client().unwrap();
    let reply = service.get_labels(GrpcLabelStore::<u32>::labels_request());
    assert_eq!(store.labels(client, reply), Ok(vec![label("head", Some([1, 2, 3, 4, 5]), 1)]));

    let client = store.state.get_available_client().unwrap();
    let reply = service.delete_label(GrpcLabelStore::<u32>::delete_label_request("head"));
    assert_eq!(store.delete_label(client, reply), Ok(true));

    let client = store.state.get_available_client().unwrap();
    let reply = service.get_label(GrpcLabelStore::<u32>::get_label_request("head"));
    assert_eq!(store.get_label(client, "head", reply), Ok(None));

    let client = store.state.get_available_client().unwrap();
    let reply = service
        .set_label(GrpcLabelStore::<u32>::set_label_option_request(&seen, Some([1, 2, 3, 4, 5])));
    assert_eq!(
        store.set_label_option(client, &seen, Some([1, 2, 3, 4, 5]), reply),
        Ok(SwapOutcome::NotFound)
    );
    assert_eq!(store.state.available(), 1);
}
