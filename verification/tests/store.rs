use grpc_labelstore::memory::MemoryLabelStore;
use grpc_labelstore::proto::{
    CreateLabelResponse, DeleteLabelResponse, GetLabelResponse, LayerId, SetLabelRequest,
    SetLabelResponse,
};
use grpc_labelstore::server::{
    create_label_reply, delete_label_call, delete_label_reply, get_label_reply, get_labels_reply,
    set_label_call, set_label_reply, store_failure,
};
use grpc_labelstore::proto::DeleteLabelRequest;
use grpc_labelstore::status::{Code, Status};
use grpc_labelstore::storage::{CreateOutcome, Label, StoreError, SwapOutcome};

fn label(name: &str, layer: Option<[u32; 5]>, version: u64) -> Label {
    Label { name: name.to_string(), layer, version }
}

#[test]
fn new_label_is_empty_at_version_zero() {
    assert_eq!(Label::new_empty("a"), label("a", None, 0));
    assert_eq!(label("a", Some([1, 2, 3, 4, 5]), 3).duplicate(), label("a", Some([1, 2, 3, 4, 5]), 3));
}

#[test]
fn memory_store_creates_moves_and_deletes() {
    let mut store = MemoryLabelStore::new();
    assert_eq!(store.labels(), Ok(vec![]));
    assert_eq!(store.get_label("a"), Ok(None));
    assert_eq!(store.create_label("a"), Ok(CreateOutcome::Created(label("a", None, 0))));
    assert_eq!(store.create_label("a"), Ok(CreateOutcome::AlreadyExists));
    assert_eq!(store.create_label(""), Ok(CreateOutcome::Created(label("", None, 0))));
    assert_eq!(store.get_label("a"), Ok(Some(label("a", None, 0))));
    assert_eq!(
        store.set_label_option(&label("a", None, 0), Some([1, 2, 3, 4, 5])),
        Ok(SwapOutcome::Updated(label("a", Some([1, 2, 3, 4, 5]), 1)))
    );
    assert_eq!(
        store.set_label_option(&label("a", None, 0), Some([9, 9, 9, 9, 9])),
        Ok(SwapOutcome::Rejected { current_version: 1 })
    );
    assert_eq!(
        store.set_label_option(&label("b", None, 0), Some([9, 9, 9, 9, 9])),
        Ok(SwapOutcome::NotFound)
    );
    assert_eq!(
        store.labels(),
        Ok(vec![label("a", Some([1, 2, 3, 4, 5]), 1), label("", None, 0)])
    );
    assert_eq!(store.delete_label("b"), Ok(false));
    assert_eq!(store.delete_label("a"), Ok(true));
    assert_eq!(store.get_label("a"), Ok(None));
    assert_eq!(store.labels(), Ok(vec![label("", None, 0)]));
}

#[test]
fn store_answers_become_responses() {
    assert_eq!(
        get_label_reply(Ok(Some(label("a", Some([1, 2, 3, 4, 5]), 7)))),
        Ok(GetLabelResponse { layer: Some(LayerId::new([1, 2, 3, 4, 5])), version: 7 })
    );
    assert_eq!(get_label_reply(Ok(None)), Err(Status::not_found("label not found")));
    assert_eq!(
        create_label_reply(Ok(CreateOutcome::Created(label("a", None, 0)))),
        Ok(CreateLabelResponse { has_been_created: true })
    );
    assert_eq!(
        create_label_reply(Ok(CreateOutcome::AlreadyExists)),
        Ok(CreateLabelResponse { has_been_created: false })
    );
    assert_eq!(
        set_label_reply(Ok(SwapOutcome::Updated(label("a", None, u64::MAX)))),
        Ok(SetLabelResponse { has_been_set: true, version: u64::MAX })
    );
    assert_eq!(
        set_label_reply(Ok(SwapOutcome::Rejected { current_version: 12 })),
        Ok(SetLabelResponse { has_been_set: false, version: 12 })
    );
    assert_eq!(
        set_label_reply(Ok(SwapOutcome::NotFound)),
        Err(Status { code: Code::NotFound, message: "label not found".to_string() })
    );
    assert_eq!(delete_label_reply(Ok(true)), Ok(DeleteLabelResponse { has_been_deleted: true }));
    assert_eq!(delete_label_reply(Ok(false)), Ok(DeleteLabelResponse { has_been_deleted: false }));
    let listed = get_labels_reply(Ok(vec![label("a", None, 0)])).unwrap();
    assert_eq!(listed.label, vec![grpc_labelstore::proto::Label::new("a".to_string(), None, 0)]);
}

#[test]
fn store_failures_become_statuses_with_the_stores_text() {
    let failed = StoreError::Failed("disk on fire".to_string());
    let expected = Status { code: Code::Unknown, message: "disk on fire".to_string() };
    assert_eq!(store_failure(&failed), expected);
    assert_eq!(get_label_reply(Err(failed.clone())), Err(expected.clone()));
    assert_eq!(get_labels_reply(Err(failed.clone())), Err(expected.clone()));
    assert_eq!(create_label_reply(Err(failed.clone())), Err(expected.clone()));
    assert_eq!(set_label_reply(Err(failed.clone())), Err(expected.clone()));
    assert_eq!(delete_label_reply(Err(failed)), Err(expected));
    let unreachable = StoreError::Unreachable("no route".to_string());
    assert_eq!(
        store_failure(&unreachable),
        Status { code: Code::Unknown, message: "no route".to_string() }
    );
}

#[test]
fn requests_are_checked_before_the_store_is_asked() {
    let request = SetLabelRequest {
        domain: String::new(),
        label: Some(grpc_labelstore::proto::Label::new("a".to_string(), Some([1, 2, 3, 4, 5]), 3)),
        new_layer: None,
    };
    assert_eq!(set_label_call(request), Ok((label("a", Some([1, 2, 3, 4, 5]), 3), None)));
    let request = SetLabelRequest {
        domain: String::new(),
        label: Some(grpc_labelstore::proto::Label::new("a".to_string(), None, 0)),
        new_layer: Some(LayerId::new([5, 4, 3, 2, 1])),
    };
    assert_eq!(set_label_call(request), Ok((label("a", None, 0), Some([5, 4, 3, 2, 1]))));
    let request = SetLabelRequest { domain: String::new(), label: None, new_layer: None };
    assert_eq!(
        set_label_call(request),
        Err(Status::invalid_argument("label argument not specified"))
    );
    assert_eq!(
        delete_label_call(DeleteLabelRequest { domain: String::new(), name: "a".to_string() }),
        Ok("a".to_string())
    );
    assert_eq!(
        delete_label_call(DeleteLabelRequest { domain: String::new(), name: String::new() }),
        Err(Status::invalid_argument("no label name given"))
    );
}

#[test]
fn statuses_are_made_with_their_codes() {
    assert_eq!(
        Status::not_found("x"),
        Status { code: Code::NotFound, message: "x".to_string() }
    );
    assert_eq!(
        Status::invalid_argument("y"),
        Status { code: Code::InvalidArgument, message: "y".to_string() }
    );
    assert_eq!(Status::unknown("z"), Status { code: Code::Unknown, message: "z".to_string() });
    assert_eq!(
        Status::new(Code::Unavailable, "w"),
        Status { code: Code::Unavailable, message: "w".to_string() }
    );
}
