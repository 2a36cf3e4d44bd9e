//! A task store in memory.
//!
//! The operating system owns the real task store. This one follows the same
//! rules for the calls that the registrar makes: a task is found by its name,
//! deleting removes it, registering creates it or replaces it. It says what
//! the registrar's requests mean, so that whole operations can be stated and
//! proved, and it lets a program be tried without touching the real store.

use vstd::prelude::*;
use crate::scheduler::Outcome;
use crate::scheduler::Phase;
use crate::scheduler::Progress;
use crate::scheduler::ProgressView;
use crate::scheduler::Reply;
use crate::scheduler::SchedulerRequest;
use crate::scheduler::SchedulerRequestView;
use crate::scheduler::TaskScheduler;
use crate::scheduler::TaskSchedulerView;
use crate::task::TaskDefinition;
use crate::task::TaskDefinitionView;
use crate::task::TASK_NAME;

verus! {

/// A task as the store keeps it.
#[derive(Debug, PartialEq, Eq)]
pub struct StoredTask {
    pub name: String,
    pub definition: TaskDefinition,
}

/// What a `StoredTask` says.
pub struct StoredTaskView {
    pub name: Seq<char>,
    pub definition: TaskDefinitionView,
}

impl View for StoredTask {
    type V = StoredTaskView;

    open spec fn view(&self) -> StoredTaskView {
        StoredTaskView { name: self.name@, definition: self.definition@ }
    }
}

/// The store: whether the scheduler service answers, and the tasks it holds
/// in the order in which they were registered.
#[derive(Debug)]
pub struct TaskStore {
    reachable: bool,
    tasks: Vec<StoredTask>,
}

/// What a `TaskStore` holds.
pub struct TaskStoreView {
    pub reachable: bool,
    pub tasks: Seq<StoredTaskView>,
}

impl View for TaskStore {
    type V = TaskStoreView;

    closed spec fn view(&self) -> TaskStoreView {
        TaskStoreView { reachable: self.reachable, tasks: task_views(self.tasks@) }
    }
}

/// What a sequence of stored tasks says.
pub open spec fn task_views(tasks: Seq<StoredTask>) -> Seq<StoredTaskView> {
    tasks.map_values(|t: StoredTask| t@)
}

/// The tasks that are left when every task called `name` is taken out.
pub open spec fn without(tasks: Seq<StoredTaskView>, name: Seq<char>) -> Seq<StoredTaskView>
    decreases tasks.len(),
{
    if tasks.len() == 0 {
        tasks
    } else if tasks.last().name == name {
        without(tasks.drop_last(), name)
    } else {
        without(tasks.drop_last(), name).push(tasks.last())
    }
}

/// How many tasks are called `name`.
pub open spec fn occurrences(tasks: Seq<StoredTaskView>, name: Seq<char>) -> nat
    decreases tasks.len(),
{
    if tasks.len() == 0 {
        0
    } else if tasks.last().name == name {
        occurrences(tasks.drop_last(), name) + 1
    } else {
        occurrences(tasks.drop_last(), name)
    }
}

/// The definition of the task called `name` that was registered last.
pub open spec fn lookup(tasks: Seq<StoredTaskView>, name: Seq<char>) -> Option<
    TaskDefinitionView,
>
    decreases tasks.len(),
{
    if tasks.len() == 0 {
        None
    } else if tasks.last().name == name {
        Some(tasks.last().definition)
    } else {
        lookup(tasks.drop_last(), name)
    }
}

/// A task can be looked up exactly when at least one task has its name.
pub proof fn lemma_lookup_occurrences(tasks: Seq<StoredTaskView>, name: Seq<char>)
    ensures
        lookup(tasks, name) is Some <==> occurrences(tasks, name) > 0,
    decreases tasks.len(),
{
    if tasks.len() > 0 {
        lemma_lookup_occurrences(tasks.drop_last(), name);
    }
}

/// Taking out the tasks called `name` leaves none of that name and every
/// task of another name.
pub proof fn lemma_without_occurrences(
    tasks: Seq<StoredTaskView>,
    name: Seq<char>,
    other: Seq<char>,
)
    ensures
        occurrences(without(tasks, name), name) == 0,
        other != name ==> occurrences(without(tasks, name), other) == occurrences(tasks, other),
    decreases tasks.len(),
{
    if tasks.len() > 0 {
        lemma_without_occurrences(tasks.drop_last(), name, other);
        if tasks.last().name != name {
            let rest = without(tasks.drop_last(), name);
            assert(rest.push(tasks.last()).drop_last() =~= rest);
        }
    }
}

/// Where no task is called `name`, taking that name out changes nothing.
pub proof fn lemma_without_absent(tasks: Seq<StoredTaskView>, name: Seq<char>)
    requires
        forall|i: int| 0 <= i < tasks.len() ==> (#[trigger] tasks[i]).name != name,
    ensures
        without(tasks, name) == tasks,
    decreases tasks.len(),
{
    if tasks.len() > 0 {
        lemma_without_absent(tasks.drop_last(), name);
        assert(tasks.drop_last().push(tasks.last()) =~= tasks);
    }
}

/// Removing one task called `name` does not change what is left when all of
/// them are taken out.
pub proof fn lemma_without_remove(tasks: Seq<StoredTaskView>, name: Seq<char>, i: int)
    requires
        0 <= i < tasks.len(),
        tasks[i].name == name,
    ensures
        without(tasks.remove(i), name) == without(tasks, name),
    decreases tasks.len(),
{
    if i == tasks.len() - 1 {
        assert(tasks.remove(i) =~= tasks.drop_last());
    } else {
        lemma_without_remove(tasks.drop_last(), name, i);
        assert(tasks.remove(i).drop_last() =~= tasks.drop_last().remove(i));
        assert(tasks.remove(i).last() == tasks.last());
    }
}

/// What is left without `name` holds no task of that name, so taking the
/// name out again changes nothing.
pub proof fn lemma_without_twice(tasks: Seq<StoredTaskView>, name: Seq<char>)
    ensures
        without(without(tasks, name), name) == without(tasks, name),
    decreases tasks.len(),
{
    if tasks.len() > 0 {
        lemma_without_twice(tasks.drop_last(), name);
        if tasks.last().name != name {
            let rest = without(tasks.drop_last(), name);
            assert(rest.push(tasks.last()).drop_last() =~= rest);
        }
    }
}

impl TaskStoreView {
    /// Whether the task of the registrar is in the store.
    pub open spec fn holds_task(self) -> bool {
        occurrences(self.tasks, TASK_NAME@) > 0
    }

    /// The reply of the store to a request. A service that cannot be reached
    /// fails every call; deleting or looking up a task that is not there is
    /// reported as such.
    pub open spec fn reply_to(self, request: SchedulerRequestView) -> Reply {
        if !self.reachable {
            Reply::Failed
        } else {
            match request {
                SchedulerRequestView::DeleteTask | SchedulerRequestView::GetTask => {
                    if self.holds_task() {
                        Reply::Done
                    } else {
                        Reply::NotFound
                    }
                },
                _ => Reply::Done,
            }
        }
    }

    /// The store after a request. Deleting takes the task out; registering
    /// takes it out and puts the new definition in its place; nothing else
    /// changes the store, and nothing changes it while it cannot be reached.
    pub open spec fn changed_by(self, request: SchedulerRequestView) -> TaskStoreView {
        if !self.reachable {
            self
        } else {
            match request {
                SchedulerRequestView::DeleteTask => TaskStoreView {
                    reachable: self.reachable,
                    tasks: without(self.tasks, TASK_NAME@),
                },
                SchedulerRequestView::RegisterTask(definition) => TaskStoreView {
                    reachable: self.reachable,
                    tasks: without(self.tasks, TASK_NAME@).push(
                        StoredTaskView { name: TASK_NAME@, definition },
                    ),
                },
                _ => self,
            }
        }
    }
}

/// How many replies an operation in `phase` still waits for, at most.
pub open spec fn replies_left(phase: Phase) -> nat {
    match phase {
        Phase::Idle => 0,
        Phase::Finished(_) => 0,
        Phase::Committing => 1,
        Phase::Removing => 1,
        Phase::Looking => 1,
        Phase::Replacing => 2,
        Phase::OpeningFolder(_) => 3,
        Phase::Connecting(_) => 4,
    }
}

/// The store and the outcome when the registrar's operation is carried out
/// against the store, starting with `request`. Where the registrar has no
/// operation in progress nothing is performed: the outcome is the one that
/// the registrar has ended with, or `None` if it never began.
pub open spec fn settled(
    store: TaskStoreView,
    scheduler: TaskSchedulerView,
    request: SchedulerRequestView,
) -> (TaskStoreView, Option<Outcome>)
    decreases replies_left(scheduler.phase),
{
    match scheduler.phase {
        Phase::Idle => (store, None),
        Phase::Finished(outcome) => (store, Some(outcome)),
        _ => {
            let reply = store.reply_to(request);
            let store_after = store.changed_by(request);
            match scheduler.answer(reply) {
                ProgressView::Idle => (store_after, None),
                ProgressView::Finished(outcome) => (store_after, Some(outcome)),
                ProgressView::Call(next) => settled(store_after, scheduler.after(reply), next),
            }
        },
    }
}

impl TaskStore {
    /// An empty store behind a service that answers.
    pub fn new() -> (store: TaskStore)
        ensures
            store@ == (TaskStoreView { reachable: true, tasks: Seq::empty() }),
    {
        let store = TaskStore { reachable: true, tasks: Vec::new() };
        assert(task_views(store.tasks@) =~= Seq::empty());
        store
    }

    /// Makes the service answer or fail from now on.
    pub fn set_reachable(&mut self, reachable: bool)
        ensures
            final(self)@ == (TaskStoreView { reachable, tasks: old(self)@.tasks }),
    {
        self.reachable = reachable;
    }

    /// Whether the service answers.
    pub fn is_reachable(&self) -> (reachable: bool)
        ensures
            reachable == self@.reachable,
    {
        self.reachable
    }

    /// The number of tasks in the store.
    pub fn len(&self) -> (n: usize)
        ensures
            n == self@.tasks.len(),
    {
        self.tasks.len()
    }

    /// The number of tasks called `name`.
    pub fn count(&self, name: &str) -> (n: usize)
        ensures
            n == occurrences(self@.tasks, name@),
    {
        let wanted: String = String::from_str(name);
        let mut n: usize = 0;
        let mut i: usize = 0;
        while i < self.tasks.len()
            invariant
                i <= self.tasks.len(),
                wanted@ == name@,
                n == occurrences(task_views(self.tasks@).take(i as int), name@),
                n <= i,
            decreases self.tasks.len() - i,
        {
            proof {
                let views = task_views(self.tasks@);
                assert(views.take(i as int + 1).drop_last() =~= views.take(i as int));
                assert(views.take(i as int + 1).last() == self.tasks@[i as int]@);
            }
            if self.tasks[i].name == wanted {
                n = n + 1;
            }
            i = i + 1;
        }
        proof {
            let views = task_views(self.tasks@);
            assert(views.take(i as int) =~= views);
        }
        n
    }

    /// The definition of the task called `name`; of the one registered last,
    /// should there be several.
    pub fn definition(&self, name: &str) -> (found: Option<&TaskDefinition>)
        ensures
            match found {
                Some(definition) => lookup(self@.tasks, name@) == Some(definition@),
                None => lookup(self@.tasks, name@) is None,
            },
            found is Some <==> occurrences(self@.tasks, name@) > 0,
    {
        let wanted: String = String::from_str(name);
        let mut i: usize = self.tasks.len();
        proof {
            let views = task_views(self.tasks@);
            assert(views.take(i as int) =~= views);
        }
        while i > 0
            invariant
                i <= self.tasks.len(),
                wanted@ == name@,
                lookup(task_views(self.tasks@).take(i as int), name@) == lookup(
                    self@.tasks,
                    name@,
                ),
            decreases i,
        {
            proof {
                let views = task_views(self.tasks@);
                assert(views.take(i as int).drop_last() =~= views.take(i as int - 1));
                assert(views.take(i as int).last() == self.tasks@[i as int - 1]@);
            }
            i = i - 1;
            if self.tasks[i].name == wanted {
                proof {
                    lemma_lookup_occurrences(self@.tasks, name@);
                }
                return Some(&self.tasks[i].definition);
            }
        }
        proof {
            lemma_lookup_occurrences(self@.tasks, name@);
        }
        None
    }

    /// Takes every task called `name` out of the store.
    pub fn remove(&mut self, name: &str)
        ensures
            final(self)@ == (TaskStoreView {
                reachable: old(self)@.reachable,
                tasks: without(old(self)@.tasks, name@),
            }),
    {
        let wanted: String = String::from_str(name);
        let mut i: usize = 0;
        while i < self.tasks.len()
            invariant
                i <= self.tasks.len(),
                wanted@ == name@,
                self.reachable == old(self).reachable,
                without(task_views(self.tasks@), name@) == without(old(self)@.tasks, name@),
                forall|j: int| 0 <= j < i ==> (#[trigger] task_views(self.tasks@)[j]).name != name@,
            decreases self.tasks.len() - i,
        {
            if self.tasks[i].name == wanted {
                let ghost before = task_views(self.tasks@);
                self.tasks.remove(i);
                proof {
                    assert(task_views(self.tasks@) =~= before.remove(i as int));
                    lemma_without_remove(before, name@, i as int);
                }
            } else {
                i = i + 1;
            }
        }
        proof {
            lemma_without_absent(task_views(self.tasks@), name@);
        }
    }

    /// Registers `definition` under `name`: an earlier task of that name is
    /// replaced, and the new one is the last in the store.
    pub fn insert(&mut self, name: &str, definition: TaskDefinition)
        ensures
            final(self)@ == (TaskStoreView {
                reachable: old(self)@.reachable,
                tasks: without(old(self)@.tasks, name@).push(
                    StoredTaskView { name: name@, definition: definition@ },
                ),
            }),
    {
        self.remove(name);
        let ghost before = task_views(self.tasks@);
        let task = StoredTask { name: String::from_str(name), definition };
        self.tasks.push(task);
        assert(task_views(self.tasks@) =~= before.push(task@));
    }

    /// Performs one request of the registrar and gives the reply.
    pub fn perform(&mut self, request: SchedulerRequest) -> (reply: Reply)
        ensures
            reply == old(self)@.reply_to(request@),
            final(self)@ == old(self)@.changed_by(request@),
    {
        if !self.reachable {
            return Reply::Failed;
        }
        match request {
            SchedulerRequest::Connect => Reply::Done,
            SchedulerRequest::OpenFolder => Reply::Done,
            SchedulerRequest::DeleteTask => {
                let present = self.count(TASK_NAME) > 0;
                self.remove(TASK_NAME);
                if present {
                    Reply::Done
                } else {
                    Reply::NotFound
                }
            },
            SchedulerRequest::RegisterTask(definition) => {
                self.insert(TASK_NAME, definition);
                Reply::Done
            },
            SchedulerRequest::GetTask => {
                if self.count(TASK_NAME) > 0 {
                    Reply::Done
                } else {
                    Reply::NotFound
                }
            },
        }
    }

    /// Carries out the operation that `scheduler` has started: performs
    /// `first` and every request that follows, until the operation ends.
    pub fn run(&mut self, scheduler: &mut TaskScheduler, first: SchedulerRequest) -> (outcome:
        Option<Outcome>)
        ensures
            (final(self)@, outcome) == settled(old(self)@, old(scheduler)@, first@),
    {
        let mut request: SchedulerRequest = first;
        loop
            invariant
                settled(self@, scheduler@, request@) == settled(old(self)@, old(scheduler)@, first@),
            decreases replies_left(scheduler@.phase),
        {
            match scheduler.phase() {
                Phase::Idle => {
                    return None;
                },
                Phase::Finished(outcome) => {
                    return Some(outcome);
                },
                _ => {},
            }
            let reply = self.perform(request);
            match scheduler.advance(reply) {
                Progress::Idle => {
                    return None;
                },
                Progress::Finished(outcome) => {
                    return Some(outcome);
                },
                Progress::Call(next) => {
                    request = next;
                },
            }
        }
    }
}

} // verus!
