use grpc_labelstore::plain::{
    answered, created, io_failure, plain, plain_created, plain_swapped, rejected, store_failed,
    swapped, ErrorKind, IoFailure,
};
use grpc_labelstore::storage::{CreateOutcome, Label, StoreError, SwapOutcome};

fn label(name: &str, layer: Option<[u32; 5]>, version: u64) -> Label {
    Label { name: name.to_string(), layer, version }
}

fn failure(kind: ErrorKind, message: &str) -> IoFailure {
    IoFailure { kind, message: message.to_string() }
}

#[test]
fn plain_failures_are_read_by_kind() {
    assert_eq!(
        store_failed(failure(ErrorKind::NotConnected, "no route")),
        StoreError::Unreachable("no route".to_string())
    );
    assert_eq!(
        store_failed(failure(ErrorKind::Other, "disk full")),
        StoreError::Failed("disk full".to_string())
    );
    assert_eq!(
        store_failed(failure(ErrorKind::NotFound, "no such directory")),
        StoreError::Failed("no such directory".to_string())
    );
    assert_eq!(
        store_failed(failure(ErrorKind::InvalidInput, "bad name")),
        StoreError::Failed("bad name".to_string())
    );
    assert_eq!(
        io_failure(StoreError::Unreachable("no route".to_string())),
        failure(ErrorKind::NotConnected, "no route")
    );
    assert_eq!(
        io_failure(StoreError::Failed("disk full".to_string())),
        failure(ErrorKind::Other, "disk full")
    );
}

#[test]
fn plain_values_pass_through() {
    assert_eq!(answered::<bool>(Ok(true)), Ok(true));
    assert_eq!(
        answered::<bool>(Err(failure(ErrorKind::NotFound, "gone"))),
        Err(StoreError::Failed("gone".to_string()))
    );
    assert_eq!(plain::<u64>(Ok(7)), Ok(7));
    assert_eq!(
        plain::<u64>(Err(StoreError::Unreachable("no route".to_string()))),
        Err(failure(ErrorKind::NotConnected, "no route"))
    );
}

#[test]
fn plain_creation_tells_a_taken_name_from_a_failure() {
    assert_eq!(created(Ok(label("a", None, 0))), Ok(CreateOutcome::Created(label("a", None, 0))));
    assert_eq!(
        created(Err(failure(ErrorKind::InvalidInput, "database already exists"))),
        Ok(CreateOutcome::AlreadyExists)
    );
    assert_eq!(
        created(Err(failure(ErrorKind::Other, "disk full"))),
        Err(StoreError::Failed("disk full".to_string()))
    );
    assert_eq!(
        created(Err(failure(ErrorKind::NotFound, "no such directory"))),
        Err(StoreError::Failed("no such directory".to_string()))
    );
    assert_eq!(plain_created(Ok(CreateOutcome::Created(label("a", None, 0)))), Ok(label("a", None, 0)));
    assert_eq!(
        plain_created(Ok(CreateOutcome::AlreadyExists)),
        Err(failure(ErrorKind::InvalidInput, "database already exists"))
    );
    assert_eq!(
        plain_created(Err(StoreError::Failed("disk full".to_string()))),
        Err(failure(ErrorKind::Other, "disk full"))
    );
}

#[test]
fn plain_swap_asks_for_the_current_version_when_rejected() {
    assert_eq!(
        swapped(Ok(Some(label("a", Some([1, 2, 3, 4, 5]), 3)))),
        Some(Ok(SwapOutcome::Updated(label("a", Some([1, 2, 3, 4, 5]), 3))))
    );
    assert_eq!(swapped(Ok(None)), None);
    assert_eq!(
        swapped(Err(failure(ErrorKind::NotFound, "label not found"))),
        Some(Ok(SwapOutcome::NotFound))
    );
    assert_eq!(
        swapped(Err(failure(ErrorKind::InvalidInput, "label does not exist"))),
        Some(Err(StoreError::Failed("label does not exist".to_string())))
    );
    assert_eq!(
        rejected(Ok(Some(label("a", None, 12)))),
        Ok(SwapOutcome::Rejected { current_version: 12 })
    );
    assert_eq!(rejected(Ok(None)), Ok(SwapOutcome::NotFound));
    assert_eq!(
        rejected(Err(failure(ErrorKind::Other, "disk full"))),
        Err(StoreError::Failed("disk full".to_string()))
    );
}

#[test]
fn plain_swap_is_written_by_convention() {
    assert_eq!(
        plain_swapped(Ok(SwapOutcome::Updated(label("a", None, 3)))),
        Ok(Some(label("a", None, 3)))
    );
    assert_eq!(plain_swapped(Ok(SwapOutcome::Rejected { current_version: 4 })), Ok(None));
    assert_eq!(
        plain_swapped(Ok(SwapOutcome::NotFound)),
        Err(failure(ErrorKind::NotFound, "label not found"))
    );
    assert_eq!(
        plain_swapped(Err(StoreError::Unreachable("no route".to_string()))),
        Err(failure(ErrorKind::NotConnected, "no route"))
    );
}
