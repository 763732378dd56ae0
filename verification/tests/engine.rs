use grpc_labelstore::plain::{answered, created, rejected, swapped, ErrorKind, IoFailure};
use grpc_labelstore::proto::{
    CreateLabelResponse, DeleteLabelResponse, GetLabelResponse, LayerId, SetLabelRequest,
    SetLabelResponse,
};
use grpc_labelstore::server::{
    create_label_reply, delete_label_reply, get_label_reply, get_labels_reply, set_label_call,
    set_label_reply,
};
use grpc_labelstore::status::{Code, Status};
use grpc_labelstore::storage::Label;
use std::io;
use terminus_store::storage::memory::MemoryLabelStore;
use terminus_store::storage::LabelStore;

fn failure(error: io::Error) -> IoFailure {
    let kind = match error.kind() {
        io::ErrorKind::NotFound => ErrorKind::NotFound,
        io::ErrorKind::InvalidInput => ErrorKind::InvalidInput,
        io::ErrorKind::NotConnected => ErrorKind::NotConnected,
        _ => ErrorKind::Other,
    };
    IoFailure { kind, message: error.to_string() }
}

fn label(label: terminus_store::storage::Label) -> Label {
    Label { name: label.name, layer: label.layer, version: label.version }
}

fn found(answer: io::Result<Option<terminus_store::storage::Label>>) -> Result<Option<Label>, IoFailure> {
    answer.map(|found| found.map(label)).map_err(failure)
}

fn runtime() -> tokio::runtime::Runtime {
    tokio::runtime::Builder::new_current_thread().build().unwrap()
}

fn serve_create(rt: &tokio::runtime::Runtime, store: &MemoryLabelStore, name: &str) -> Result<CreateLabelResponse, Status> {
    let answer = rt.block_on(store.create_label(name));
    create_label_reply(created(answer.map(label).map_err(failure)))
}

fn serve_get(rt: &tokio::runtime::Runtime, store: &MemoryLabelStore, name: &str) -> Result<GetLabelResponse, Status> {
    get_label_reply(answered(found(rt.block_on(store.get_label(name)))))
}

fn serve_delete(rt: &tokio::runtime::Runtime, store: &MemoryLabelStore, name: &str) -> Result<DeleteLabelResponse, Status> {
    delete_label_reply(answered(rt.block_on(store.delete_label(name)).map_err(failure)))
}

fn serve_swap(
    rt: &tokio::runtime::Runtime,
    store: &MemoryLabelStore,
    request: SetLabelRequest,
) -> Result<SetLabelResponse, Status> {
    let (expected, new_layer) = set_label_call(request)?;
    let engine_label = terminus_store::storage::Label {
        name: expected.name.clone(),
        layer: expected.layer,
        version: expected.version,
    };
    let answer = rt.block_on(store.set_label_option(&engine_label, new_layer));
    let outcome = match swapped(found(answer)) {
        Some(outcome) => outcome,
        None => rejected(found(rt.block_on(store.get_label(&expected.name)))),
    };
    set_label_reply(outcome)
}

fn swap_request(name: &str, version: u64, new_layer: [u32; 5]) -> SetLabelRequest {
    SetLabelRequest {
        domain: String::new(),
        label: Some(grpc_labelstore::proto::Label::new(name.to_string(), None, version)),
        new_layer: Some(LayerId::new(new_layer)),
    }
}

#[test]
fn adapter_serves_the_engine_memory_store() {
    let rt = runtime();
    let store = MemoryLabelStore::new();

    assert_eq!(serve_get(&rt, &store, "branch/main").unwrap_err().code, Code::NotFound);
    assert_eq!(
        serve_create(&rt, &store, "branch/main"),
        Ok(CreateLabelResponse { has_been_created: true })
    );
    assert_eq!(
        serve_create(&rt, &store, "branch/main"),
        Ok(CreateLabelResponse { has_been_created: false })
    );
    assert_eq!(
        serve_get(&rt, &store, "branch/main"),
        Ok(GetLabelResponse { layer: None, version: 0 })
    );
    assert_eq!(
        serve_swap(&rt, &store, swap_request("branch/main", 0, [1, 2, 3, 4, 5])),
        Ok(SetLabelResponse { has_been_set: true, version: 1 })
    );
    let read = serve_get(&rt, &store, "branch/main").unwrap();
    assert_eq!(read.id(), Some([1, 2, 3, 4, 5]));
    assert_eq!(read.version, 1);
    assert_eq!(
        serve_swap(&rt, &store, swap_request("branch/main", 0, [1, 2, 3, 4, 5])),
        Ok(SetLabelResponse { has_been_set: false, version: 1 })
    );
    let listed = rt.block_on(store.labels()).map(|l| l.into_iter().map(label).collect());
    let listed = get_labels_reply(answered(listed.map_err(failure))).unwrap();
    assert_eq!(
        listed.label,
        vec![grpc_labelstore::proto::Label::new("branch/main".to_string(), Some([1, 2, 3, 4, 5]), 1)]
    );
    assert_eq!(
        serve_delete(&rt, &store, "branch/main"),
        Ok(DeleteLabelResponse { has_been_deleted: true })
    );
    assert_eq!(
        serve_delete(&rt, &store, "branch/main"),
        Ok(DeleteLabelResponse { has_been_deleted: false })
    );
    assert_eq!(serve_get(&rt, &store, "branch/main").unwrap_err().code, Code::NotFound);
}
