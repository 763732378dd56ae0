//! What holds of the protocol in front of any store that works as the model
//! does, and of the pool under any use.

use crate::client::{
    create_label_meaning, delete_label_meaning, get_label_meaning, set_label_option_meaning,
};
use crate::model::StoreModel;
use crate::proto::{
    CreateLabelResponse, DeleteLabelResponse, GetLabelResponse, LayerId, SetLabelResponse,
};
use crate::server::{
    after_delete_label, after_set_label, not_found_status, serve_create_label,
    serve_delete_label, serve_get_label, serve_set_label,
};
use crate::status::StatusView;
use crate::storage::{CreateOutcomeView, LabelView, StoreErrorView};
use vstd::prelude::*;

verus! {

/// A label that was never created is not found, and creating it succeeds:
/// it then exists, empty and at version 0.
pub proof fn lemma_absent_label_is_not_found_and_can_be_created(store: StoreModel, name: Seq<char>)
    requires
        !store.holds(name),
    ensures
        serve_get_label(store, name) == Err::<GetLabelResponse, StatusView>(not_found_status()),
        serve_create_label(store, name) == Ok::<CreateLabelResponse, StatusView>(
            CreateLabelResponse { has_been_created: true },
        ),
        serve_get_label(store.create(name), name) == Ok::<GetLabelResponse, StatusView>(
            GetLabelResponse { layer: None, version: 0 },
        ),
{
}

/// Creating a label whose name is taken is answered with "not created" and
/// changes nothing: the label that holds the name keeps its layer and its
/// version.
pub proof fn lemma_create_existing_changes_nothing(store: StoreModel, name: Seq<char>)
    requires
        store.holds(name),
    ensures
        serve_create_label(store, name) == Ok::<CreateLabelResponse, StatusView>(
            CreateLabelResponse { has_been_created: false },
        ),
        store.create(name) == store,
{
}

/// A compare-and-swap that expects the version at which the label stands
/// applies: the answer is "set" with the version raised by one, the label
/// then points at the layer asked for, and no other label changes.
///
/// A label at the largest version that 64 bits hold cannot be raised and is
/// left out.
pub proof fn lemma_swap_with_current_version_applies(
    store: StoreModel,
    expected: LabelView,
    new_layer: Option<LayerId>,
)
    requires
        store.holds(expected.name),
        store.labels[expected.name].version == expected.version,
        expected.version < u64::MAX,
    ensures
        serve_set_label(store, Some(expected), new_layer) == Ok::<SetLabelResponse, StatusView>(
            SetLabelResponse { has_been_set: true, version: (expected.version + 1) as u64 },
        ),
        after_set_label(store, Some(expected), new_layer).get(expected.name) == Some(
            LabelView {
                name: expected.name,
                layer: new_layer,
                version: (expected.version + 1) as u64,
            },
        ),
        forall|other: Seq<char>|
            other != expected.name ==> #[trigger] after_set_label(
                store,
                Some(expected),
                new_layer,
            ).get(other) == store.get(other),
{
}

/// A compare-and-swap that expects another version than the one at which
/// the label stands does not apply: the answer is "not set" with the
/// current version, and the store is as it was.
pub proof fn lemma_swap_with_stale_version_is_rejected(
    store: StoreModel,
    expected: LabelView,
    new_layer: Option<LayerId>,
)
    requires
        store.holds(expected.name),
        store.labels[expected.name].version != expected.version,
    ensures
        serve_set_label(store, Some(expected), new_layer) == Ok::<SetLabelResponse, StatusView>(
            SetLabelResponse {
                has_been_set: false,
                version: store.labels[expected.name].version,
            },
        ),
        after_set_label(store, Some(expected), new_layer) == store,
{
}

/// Deleting a label that does not exist is answered with "not deleted" and
/// changes nothing. Deleting one that exists is answered with "deleted".
/// Either way the label is not found afterwards.
///
/// A request must name the label: the empty name is left out.
pub proof fn lemma_delete_then_not_found(store: StoreModel, name: Seq<char>)
    requires
        name.len() > 0,
    ensures
        serve_delete_label(store, name) == Ok::<DeleteLabelResponse, StatusView>(
            DeleteLabelResponse { has_been_deleted: store.holds(name) },
        ),
        !store.holds(name) ==> after_delete_label(store, name) == store,
        serve_get_label(after_delete_label(store, name), name) == Err::<
            GetLabelResponse,
            StatusView,
        >(not_found_status()),
{
    if !store.holds(name) {
        assert(store.labels.remove(name) =~= store.labels);
    }
}

/// An answer of the store as it reaches the caller at the far end: an answer
/// arrives as it is, a failure arrives as a failure of the store reached,
/// with its text.
pub open spec fn carried<T>(answer: Result<T, StoreErrorView>) -> Result<T, StoreErrorView> {
    match answer {
        Ok(value) => Ok(value),
        Err(StoreErrorView::Unreachable(text)) => Err(StoreErrorView::Failed(text)),
        Err(StoreErrorView::Failed(text)) => Err(StoreErrorView::Failed(text)),
    }
}

/// The caller at the far end is told what the store answered: reading the
/// adapter's reply gives back the store's own answer, for every request that
/// is passed on to the store.
pub proof fn lemma_client_reads_what_the_store_answered(
    store: StoreModel,
    name: Seq<char>,
    expected: LabelView,
    new_layer: Option<LayerId>,
)
    requires
        store.wf(),
    ensures
        get_label_meaning(name, serve_get_label(store, name)) == Ok::<
            Option<LabelView>,
            StoreErrorView,
        >(store.get(name)),
        create_label_meaning(name, serve_create_label(store, name)) == Ok::<
            CreateOutcomeView,
            StoreErrorView,
        >(store.create_outcome(name)),
        set_label_option_meaning(
            expected.name,
            new_layer,
            serve_set_label(store, Some(expected), new_layer),
        ) == carried(store.swap_outcome(expected, new_layer)),
        name.len() > 0 ==> delete_label_meaning(serve_delete_label(store, name)) == Ok::<
            bool,
            StoreErrorView,
        >(store.delete_outcome(name)),
{
}

/// One caller's try at moving a label: the version it expects and the layer
/// it asks for.
pub struct SwapAttempt {
    pub expected_version: u64,
    pub new_layer: Option<LayerId>,
}

/// The label that an attempt on `name` sends as its expectation. Only name
/// and version are compared, so the layer that the caller remembers is left
/// open here.
pub open spec fn attempt_label(name: Seq<char>, attempt: SwapAttempt) -> LabelView {
    LabelView { name, layer: None, version: attempt.expected_version }
}

/// Whether the attempt, served on this store, is answered with "set".
pub open spec fn attempt_applies(store: StoreModel, name: Seq<char>, attempt: SwapAttempt) -> bool {
    serve_set_label(store, Some(attempt_label(name, attempt)), attempt.new_layer) matches Ok(answer)
        && answer.has_been_set
}

/// The store after the attempt was served.
pub open spec fn after_attempt(store: StoreModel, name: Seq<char>, attempt: SwapAttempt) -> StoreModel {
    after_set_label(store, Some(attempt_label(name, attempt)), attempt.new_layer)
}

/// The store after the attempts were served one after the other. However
/// many callers race, the store serves their attempts in some order; this is
/// that order.
pub open spec fn after_attempts(store: StoreModel, name: Seq<char>, attempts: Seq<SwapAttempt>) -> StoreModel
    decreases attempts.len(),
{
    if attempts.len() == 0 {
        store
    } else {
        after_attempts(after_attempt(store, name, attempts[0]), name, attempts.drop_first())
    }
}

/// How many of the attempts are answered with "set".
pub open spec fn applied_count(store: StoreModel, name: Seq<char>, attempts: Seq<SwapAttempt>) -> nat
    decreases attempts.len(),
{
    if attempts.len() == 0 {
        0
    } else {
        (if attempt_applies(store, name, attempts[0]) {
            1nat
        } else {
            0nat
        }) + applied_count(after_attempt(store, name, attempts[0]), name, attempts.drop_first())
    }
}

/// How many of the attempts that expect `version` are answered with "set".
pub open spec fn applied_count_expecting(
    store: StoreModel,
    name: Seq<char>,
    attempts: Seq<SwapAttempt>,
    version: u64,
) -> nat
    decreases attempts.len(),
{
    if attempts.len() == 0 {
        0
    } else {
        (if attempt_applies(store, name, attempts[0]) && attempts[0].expected_version == version {
            1nat
        } else {
            0nat
        }) + applied_count_expecting(
            after_attempt(store, name, attempts[0]),
            name,
            attempts.drop_first(),
            version,
        )
    }
}

/// Serving one attempt on an existing label leaves the label in existence,
/// and raises its version by one if the attempt applies and not at all if
/// it does not. It applies only if it expects the current version.
pub proof fn lemma_attempt_step(store: StoreModel, name: Seq<char>, attempt: SwapAttempt)
    requires
        store.holds(name),
    ensures
        after_attempt(store, name, attempt).holds(name),
        attempt_applies(store, name, attempt) ==> attempt.expected_version
            == store.labels[name].version && after_attempt(store, name, attempt).labels[name].version
            == store.labels[name].version + 1,
        !attempt_applies(store, name, attempt) ==> after_attempt(store, name, attempt) == store,
        attempt.expected_version == store.labels[name].version && attempt.expected_version
            < u64::MAX ==> attempt_applies(store, name, attempt),
{
}

/// The version of a label advances by exactly one for each attempt that is
/// answered with "set".
pub proof fn lemma_version_counts_applied_swaps(
    store: StoreModel,
    name: Seq<char>,
    attempts: Seq<SwapAttempt>,
)
    requires
        store.holds(name),
    ensures
        after_attempts(store, name, attempts).holds(name),
        after_attempts(store, name, attempts).labels[name].version == store.labels[name].version
            + applied_count(store, name, attempts),
    decreases attempts.len(),
{
    if attempts.len() > 0 {
        lemma_attempt_step(store, name, attempts[0]);
        lemma_version_counts_applied_swaps(
            after_attempt(store, name, attempts[0]),
            name,
            attempts.drop_first(),
        );
    }
}

/// Once a label has passed a version, no attempt that expects that version
/// applies.
pub proof fn lemma_passed_version_never_applies(
    store: StoreModel,
    name: Seq<char>,
    attempts: Seq<SwapAttempt>,
    version: u64,
)
    requires
        store.holds(name),
        store.labels[name].version > version,
    ensures
        applied_count_expecting(store, name, attempts, version) == 0,
    decreases attempts.len(),
{
    if attempts.len() > 0 {
        lemma_attempt_step(store, name, attempts[0]);
        lemma_passed_version_never_applies(
            after_attempt(store, name, attempts[0]),
            name,
            attempts.drop_first(),
            version,
        );
    }
}

/// Of all the attempts that expect one version, at most one applies, in
/// whatever order they are served.
pub proof fn lemma_at_most_one_swap_per_version(
    store: StoreModel,
    name: Seq<char>,
    attempts: Seq<SwapAttempt>,
    version: u64,
)
    requires
        store.holds(name),
    ensures
        applied_count_expecting(store, name, attempts, version) <= 1,
    decreases attempts.len(),
{
    if attempts.len() > 0 {
        let next = after_attempt(store, name, attempts[0]);
        lemma_attempt_step(store, name, attempts[0]);
        if attempt_applies(store, name, attempts[0]) && attempts[0].expected_version == version {
            lemma_passed_version_never_applies(next, name, attempts.drop_first(), version);
        } else {
            lemma_at_most_one_swap_per_version(next, name, attempts.drop_first(), version);
        }
    }
}

/// If any of the attempts expects the version at which the label stands,
/// exactly one of those applies, in whatever order they are served.
///
/// A label at the largest version that 64 bits hold cannot be raised and is
/// left out.
pub proof fn lemma_exactly_one_swap_for_current_version(
    store: StoreModel,
    name: Seq<char>,
    attempts: Seq<SwapAttempt>,
)
    requires
        store.holds(name),
        store.labels[name].version < u64::MAX,
        exists|i: int|
            0 <= i < attempts.len() && #[trigger] attempts[i].expected_version
                == store.labels[name].version,
    ensures
        applied_count_expecting(store, name, attempts, store.labels[name].version) == 1,
    decreases attempts.len(),
{
    let version = store.labels[name].version;
    let i = choose|i: int|
        0 <= i < attempts.len() && #[trigger] attempts[i].expected_version == version;
    let next = after_attempt(store, name, attempts[0]);
    lemma_attempt_step(store, name, attempts[0]);
    if attempts[0].expected_version == version {
        lemma_passed_version_never_applies(next, name, attempts.drop_first(), version);
    } else {
        assert(attempts.drop_first()[i - 1] == attempts[i]);
        lemma_exactly_one_swap_for_current_version(next, name, attempts.drop_first());
    }
}

/// Where every attempt of a race expects the version at which the label
/// stands, exactly one applies and the version ends one higher.
pub proof fn lemma_race_has_one_winner(
    store: StoreModel,
    name: Seq<char>,
    attempts: Seq<SwapAttempt>,
)
    requires
        store.holds(name),
        store.labels[name].version < u64::MAX,
        attempts.len() > 0,
        forall|i: int|
            0 <= i < attempts.len() ==> #[trigger] attempts[i].expected_version
                == store.labels[name].version,
    ensures
        applied_count(store, name, attempts) == 1,
        after_attempts(store, name, attempts).labels[name].version == store.labels[name].version
            + 1,
{
    let version = store.labels[name].version;
    assert(attempts[0].expected_version == version);
    lemma_exactly_one_swap_for_current_version(store, name, attempts);
    lemma_all_applied_expect(store, name, attempts, version);
    lemma_version_counts_applied_swaps(store, name, attempts);
}

/// Where every attempt expects the same version, the attempts that apply
/// are those that apply expecting it.
pub proof fn lemma_all_applied_expect(
    store: StoreModel,
    name: Seq<char>,
    attempts: Seq<SwapAttempt>,
    version: u64,
)
    requires
        forall|i: int| 0 <= i < attempts.len() ==> #[trigger] attempts[i].expected_version == version,
    ensures
        applied_count(store, name, attempts) == applied_count_expecting(
            store,
            name,
            attempts,
            version,
        ),
    decreases attempts.len(),
{
    if attempts.len() > 0 {
        assert(attempts[0].expected_version == version);
        assert forall|i: int| 0 <= i < attempts.drop_first().len() implies #[trigger] attempts.drop_first()[i].expected_version
            == version by {
            assert(attempts.drop_first()[i] == attempts[i + 1]);
        }
        lemma_all_applied_expect(
            after_attempt(store, name, attempts[0]),
            name,
            attempts.drop_first(),
            version,
        );
    }
}

/// What a call does to the pool.
pub enum PoolEvent<C> {
    /// A call begins and asks for a connection. Should the pool have none,
    /// the caller connects: `fresh` is the connection that this gives, or
    /// `None` where connecting fails.
    Begin { fresh: Option<C> },
    /// A call ends, well or badly, and hands back the connection it used.
    End { client: C },
}

/// The pool as its users move it: the connections that are ready, as
/// [`crate::client::GrpcLabelStoreState::idle`] gives them, and the number of
/// calls that hold a connection.
pub struct PoolModel<C> {
    pub idle: Seq<C>,
    pub in_use: nat,
}

/// Whether a call that begins on this pool gets a connection.
pub open spec fn call_gets_connection<C>(pool: PoolModel<C>, fresh: Option<C>) -> bool {
    pool.idle.len() > 0 || fresh is Some
}

/// The pool after one event: a call that begins takes the last ready
/// connection or, where there is none, the fresh one and leaves the pool
/// as it is; a call that ends adds its connection.
pub open spec fn pool_after<C>(pool: PoolModel<C>, event: PoolEvent<C>) -> PoolModel<C> {
    match event {
        PoolEvent::Begin { fresh } => if pool.idle.len() > 0 {
            PoolModel { idle: pool.idle.drop_last(), in_use: pool.in_use + 1 }
        } else if fresh is Some {
            PoolModel { idle: pool.idle, in_use: pool.in_use + 1 }
        } else {
            pool
        },
        PoolEvent::End { client } => PoolModel {
            idle: pool.idle.push(client),
            in_use: (pool.in_use - 1) as nat,
        },
    }
}

/// The pool after the events, in their order.
pub open spec fn pool_after_all<C>(pool: PoolModel<C>, events: Seq<PoolEvent<C>>) -> PoolModel<C>
    decreases events.len(),
{
    if events.len() == 0 {
        pool
    } else {
        pool_after_all(pool_after(pool, events[0]), events.drop_first())
    }
}

/// Whether the events can happen on this pool: only a call that holds a
/// connection can end.
pub open spec fn pool_admits<C>(pool: PoolModel<C>, events: Seq<PoolEvent<C>>) -> bool
    decreases events.len(),
{
    if events.len() == 0 {
        true
    } else {
        &&& events[0] is End ==> pool.in_use > 0
        &&& pool_admits(pool_after(pool, events[0]), events.drop_first())
    }
}

/// No call fails for want of a ready connection: whatever the pool holds, a
/// call that begins gets a connection unless connecting fails.
pub proof fn lemma_pool_is_never_exhausted<C>(pool: PoolModel<C>, fresh: Option<C>)
    ensures
        !call_gets_connection(pool, fresh) ==> pool.idle.len() == 0 && fresh is None,
        fresh is Some ==> call_gets_connection(pool, fresh),
{
}

/// The connections that are ready and those that calls hold never become
/// fewer, however calls begin and end.
pub proof fn lemma_pool_loses_no_connection<C>(pool: PoolModel<C>, events: Seq<PoolEvent<C>>)
    requires
        pool_admits(pool, events),
    ensures
        pool_after_all(pool, events).idle.len() + pool_after_all(pool, events).in_use
            >= pool.idle.len() + pool.in_use,
    decreases events.len(),
{
    if events.len() > 0 {
        lemma_pool_loses_no_connection(pool_after(pool, events[0]), events.drop_first());
    }
}

/// A pool that starts with `ready` connections and no call under way holds
/// at least as many once every call has ended, however many calls ran at a
/// time and however many connections had to be made for them.
pub proof fn lemma_pool_keeps_its_connections<C>(ready: Seq<C>, events: Seq<PoolEvent<C>>)
    requires
        pool_admits(PoolModel { idle: ready, in_use: 0 }, events),
        pool_after_all(PoolModel { idle: ready, in_use: 0 }, events).in_use == 0,
    ensures
        pool_after_all(PoolModel { idle: ready, in_use: 0 }, events).idle.len() >= ready.len(),
{
    lemma_pool_loses_no_connection(PoolModel { idle: ready, in_use: 0 }, events);
}

} // verus!
