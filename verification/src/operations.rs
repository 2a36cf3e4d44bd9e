//! What whole operations of the registrar do to a task store.
//!
//! The registrar is stated step by step, one reply at a time. Here the steps
//! are put together: each theorem takes an arbitrary store, lets the
//! registrar carry an operation out against it, and says in closed form what
//! comes of it.

use vstd::prelude::*;
use crate::error::ControlError;
use crate::error::SchedulerFault;
use crate::scheduler::Operation;
use crate::scheduler::Outcome;
use crate::scheduler::Phase;
use crate::scheduler::SchedulerRequestView;
use crate::scheduler::TaskSchedulerView;
use crate::store::lemma_without_occurrences;
use crate::store::lemma_without_twice;
use crate::store::lookup;
use crate::store::occurrences;
use crate::store::settled;
use crate::store::without;
use crate::store::StoredTaskView;
use crate::store::TaskStoreView;
use crate::task::TaskDefinitionView;
use crate::task::TASK_NAME;

verus! {

/// The registrar as `register_task` leaves it.
pub open spec fn registering(definition: TaskDefinitionView) -> TaskSchedulerView {
    TaskSchedulerView {
        phase: Phase::Connecting(Operation::Register),
        definition: Some(definition),
    }
}

/// The registrar as `unregister_task` leaves it.
pub open spec fn unregistering() -> TaskSchedulerView {
    TaskSchedulerView { phase: Phase::Connecting(Operation::Unregister), definition: None }
}

/// The registrar as `is_registered` leaves it.
pub open spec fn querying() -> TaskSchedulerView {
    TaskSchedulerView { phase: Phase::Connecting(Operation::Query), definition: None }
}

/// The store after a registration of `definition`.
pub open spec fn after_register(store: TaskStoreView, definition: TaskDefinitionView) -> TaskStoreView {
    settled(store, registering(definition), SchedulerRequestView::Connect).0
}

/// The store after an unregistration.
pub open spec fn after_unregister(store: TaskStoreView) -> TaskStoreView {
    settled(store, unregistering(), SchedulerRequestView::Connect).0
}

/// The failure of an operation that found no service.
pub open spec fn no_connection() -> Outcome {
    Outcome::Failed(ControlError::SchedulerServiceError(SchedulerFault::Connection))
}

/// A registration against a store that answers deletes the old task, puts
/// the new definition in its place as the only task of that name, and
/// succeeds. Against a store that does not answer it fails and changes
/// nothing.
pub proof fn theorem_register(store: TaskStoreView, definition: TaskDefinitionView)
    ensures
        store.reachable ==> settled(
            store,
            registering(definition),
            SchedulerRequestView::Connect,
        ) == (
            TaskStoreView {
                reachable: true,
                tasks: without(store.tasks, TASK_NAME@).push(
                    StoredTaskView { name: TASK_NAME@, definition },
                ),
            },
            Some(Outcome::Registered),
        ),
        !store.reachable ==> settled(
            store,
            registering(definition),
            SchedulerRequestView::Connect,
        ) == (store, Some(no_connection())),
{
    reveal_with_fuel(settled, 5);
    lemma_without_twice(store.tasks, TASK_NAME@);
}

/// An unregistration against a store that answers takes the task out and
/// succeeds, whether or not the task was there. Against a store that does
/// not answer it fails and changes nothing.
pub proof fn theorem_unregister(store: TaskStoreView)
    ensures
        store.reachable ==> settled(store, unregistering(), SchedulerRequestView::Connect) == (
            TaskStoreView { reachable: true, tasks: without(store.tasks, TASK_NAME@) },
            Some(Outcome::Unregistered),
        ),
        !store.reachable ==> settled(store, unregistering(), SchedulerRequestView::Connect)
            == (store, Some(no_connection())),
{
    reveal_with_fuel(settled, 4);
}

/// A query never fails and never changes the store. It answers that the
/// task is registered exactly when the store answers and holds the task.
pub proof fn theorem_query(store: TaskStoreView)
    ensures
        settled(store, querying(), SchedulerRequestView::Connect) == (
            store,
            Some(Outcome::Status(store.reachable && store.holds_task())),
        ),
{
    reveal_with_fuel(settled, 4);
}

/// Registration is idempotent: after a registration the store holds exactly
/// one task of the fixed name, and a second registration with the same
/// definition succeeds and leaves the store as the first one left it. Tasks
/// of other names are not touched.
pub proof fn theorem_register_idempotent(
    store: TaskStoreView,
    definition: TaskDefinitionView,
    other: Seq<char>,
)
    requires
        store.reachable,
    ensures
        occurrences(after_register(store, definition).tasks, TASK_NAME@) == 1,
        settled(
            after_register(store, definition),
            registering(definition),
            SchedulerRequestView::Connect,
        ) == (after_register(store, definition), Some(Outcome::Registered)),
        other != TASK_NAME@ ==> occurrences(after_register(store, definition).tasks, other)
            == occurrences(store.tasks, other),
{
    let kept = without(store.tasks, TASK_NAME@);
    let task = StoredTaskView { name: TASK_NAME@, definition };
    theorem_register(store, definition);
    theorem_register(after_register(store, definition), definition);
    lemma_without_occurrences(store.tasks, TASK_NAME@, other);
    lemma_without_twice(store.tasks, TASK_NAME@);
    assert(kept.push(task).drop_last() =~= kept);
}

/// After a registration the task is defined by the new definition alone:
/// whatever was registered under its name before is gone with every field.
pub proof fn theorem_register_replaces(store: TaskStoreView, definition: TaskDefinitionView)
    requires
        store.reachable,
    ensures
        lookup(after_register(store, definition).tasks, TASK_NAME@) == Some(definition),
{
    let kept = without(store.tasks, TASK_NAME@);
    let task = StoredTaskView { name: TASK_NAME@, definition };
    theorem_register(store, definition);
    assert(kept.push(task).last() == task);
}

/// After an unregistration a query answers that the task is not registered,
/// whatever the store held and whether or not it answers.
pub proof fn theorem_unregister_then_query(store: TaskStoreView)
    ensures
        settled(after_unregister(store), querying(), SchedulerRequestView::Connect).1 == Some(
            Outcome::Status(false),
        ),
{
    theorem_unregister(store);
    theorem_query(after_unregister(store));
    lemma_without_occurrences(store.tasks, TASK_NAME@, TASK_NAME@);
}

/// An unregistration that follows an unregistration does not fail: against a
/// store that answers, the second one succeeds although the task is gone,
/// and changes nothing.
pub proof fn theorem_unregister_twice(store: TaskStoreView)
    requires
        store.reachable,
    ensures
        settled(after_unregister(store), unregistering(), SchedulerRequestView::Connect) == (
            after_unregister(store),
            Some(Outcome::Unregistered),
        ),
{
    theorem_unregister(store);
    theorem_unregister(after_unregister(store));
    lemma_without_twice(store.tasks, TASK_NAME@);
}

/// A registration followed by a query answers that the task is registered.
pub proof fn theorem_register_then_query(store: TaskStoreView, definition: TaskDefinitionView)
    requires
        store.reachable,
    ensures
        settled(after_register(store, definition), querying(), SchedulerRequestView::Connect).1
            == Some(Outcome::Status(true)),
{
    theorem_register_idempotent(store, definition, TASK_NAME@);
    theorem_register(store, definition);
    theorem_query(after_register(store, definition));
}

} // verus!
