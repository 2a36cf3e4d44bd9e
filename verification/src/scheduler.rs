//! The scheduled-activation registrar.
//!
//! The registrar decides which calls are made against the task scheduler and
//! in which order, and what their results mean. It makes none of the calls
//! itself: each operation hands out one request at a time, the host performs
//! it and reports the reply, and the registrar answers with the next request
//! or with the outcome of the operation.
//!
//! Every operation opens its own connection. Registering deletes the old
//! task before it commits the new one, so that no field of an earlier
//! definition survives.

use vstd::prelude::*;
use crate::error::ControlError;
use crate::error::SchedulerFault;
use crate::task::optional_text;
use crate::task::volume_task;
use crate::task::TaskDefinition;
use crate::task::TaskDefinitionView;

verus! {

/// One of the three administrative operations.
#[derive(Clone, Copy, Debug, PartialEq, Eq, Structural)]
pub enum Operation {
    /// Replace the task by a fresh definition.
    Register,
    /// Remove the task.
    Unregister,
    /// Ask whether the task is present.
    Query,
}

/// What the host reports after it has performed a request.
#[derive(Clone, Copy, Debug, PartialEq, Eq, Structural)]
pub enum Reply {
    /// The call succeeded.
    Done,
    /// The call failed because the task does not exist.
    NotFound,
    /// The call failed for any other reason.
    Failed,
}

/// How an operation ended.
#[derive(Clone, Copy, Debug, PartialEq, Eq, Structural)]
pub enum Outcome {
    /// The task is registered with the new definition.
    Registered,
    /// The task is gone, whether or not it existed before.
    Unregistered,
    /// The answer to a query. A query that could not be made answers `false`.
    Status(bool),
    /// The operation failed.
    Failed(ControlError),
}

/// Where an operation stands.
#[derive(Clone, Copy, Debug, PartialEq, Eq, Structural)]
pub enum Phase {
    /// No operation was started.
    Idle,
    /// Waiting for the connection to the scheduler service.
    Connecting(Operation),
    /// Waiting for the task folder.
    OpeningFolder(Operation),
    /// Registering: waiting for the old task to be deleted.
    Replacing,
    /// Registering: waiting for the new definition to be committed.
    Committing,
    /// Unregistering: waiting for the task to be deleted.
    Removing,
    /// Querying: waiting for the lookup of the task.
    Looking,
    /// The operation has ended.
    Finished(Outcome),
}

/// One call against the task scheduler, to be performed by the host. The
/// task is always `TASK_NAME`, the folder always `TASK_FOLDER`.
#[derive(Debug, PartialEq, Eq)]
pub enum SchedulerRequest {
    /// Create the service object and connect it to the local service.
    Connect,
    /// Open the task folder.
    OpenFolder,
    /// Delete the task from the folder.
    DeleteTask,
    /// Register the definition under the task's name, creating or updating it.
    RegisterTask(TaskDefinition),
    /// Look the task up in the folder.
    GetTask,
}

/// What a `SchedulerRequest` says.
pub enum SchedulerRequestView {
    Connect,
    OpenFolder,
    DeleteTask,
    RegisterTask(TaskDefinitionView),
    GetTask,
}

impl View for SchedulerRequest {
    type V = SchedulerRequestView;

    open spec fn view(&self) -> SchedulerRequestView {
        match *self {
            SchedulerRequest::Connect => SchedulerRequestView::Connect,
            SchedulerRequest::OpenFolder => SchedulerRequestView::OpenFolder,
            SchedulerRequest::DeleteTask => SchedulerRequestView::DeleteTask,
            SchedulerRequest::RegisterTask(definition) => SchedulerRequestView::RegisterTask(
                definition@,
            ),
            SchedulerRequest::GetTask => SchedulerRequestView::GetTask,
        }
    }
}

/// What the registrar tells the host after a reply.
#[derive(Debug, PartialEq, Eq)]
pub enum Progress {
    /// There is no operation in progress.
    Idle,
    /// Perform this request next and report its reply.
    Call(SchedulerRequest),
    /// The operation has ended with this outcome.
    Finished(Outcome),
}

/// What a `Progress` says.
pub enum ProgressView {
    Idle,
    Call(SchedulerRequestView),
    Finished(Outcome),
}

impl View for Progress {
    type V = ProgressView;

    open spec fn view(&self) -> ProgressView {
        match *self {
            Progress::Idle => ProgressView::Idle,
            Progress::Call(request) => ProgressView::Call(request@),
            Progress::Finished(outcome) => ProgressView::Finished(outcome),
        }
    }
}

/// The registrar: the state of at most one operation.
#[derive(Debug)]
pub struct TaskScheduler {
    phase: Phase,
    definition: Option<TaskDefinition>,
}

/// The state of the registrar: the phase, and the definition that a
/// registration still has to commit.
pub struct TaskSchedulerView {
    pub phase: Phase,
    pub definition: Option<TaskDefinitionView>,
}

/// What an optional definition says.
pub open spec fn optional_definition(definition: Option<TaskDefinition>) -> Option<
    TaskDefinitionView,
> {
    match definition {
        Some(d) => Some(d@),
        None => None,
    }
}

impl View for TaskScheduler {
    type V = TaskSchedulerView;

    closed spec fn view(&self) -> TaskSchedulerView {
        TaskSchedulerView { phase: self.phase, definition: optional_definition(self.definition) }
    }
}

/// The outcome of an operation whose connection or folder could not be had:
/// a query answers "not registered", the others fail with `fault`.
pub open spec fn unreachable_outcome(operation: Operation, fault: SchedulerFault) -> Outcome {
    match operation {
        Operation::Query => Outcome::Status(false),
        _ => Outcome::Failed(ControlError::SchedulerServiceError(fault)),
    }
}

/// The phase that follows `phase` when the host reports `reply`.
pub open spec fn next_phase(phase: Phase, reply: Reply) -> Phase {
    match phase {
        Phase::Idle => Phase::Idle,
        Phase::Connecting(operation) => if reply == Reply::Done {
            Phase::OpeningFolder(operation)
        } else {
            Phase::Finished(unreachable_outcome(operation, SchedulerFault::Connection))
        },
        Phase::OpeningFolder(operation) => if reply == Reply::Done {
            match operation {
                Operation::Register => Phase::Replacing,
                Operation::Unregister => Phase::Removing,
                Operation::Query => Phase::Looking,
            }
        } else {
            Phase::Finished(unreachable_outcome(operation, SchedulerFault::Folder))
        },
        Phase::Replacing => Phase::Committing,
        Phase::Committing => if reply == Reply::Done {
            Phase::Finished(Outcome::Registered)
        } else {
            Phase::Finished(
                Outcome::Failed(
                    ControlError::SchedulerServiceError(SchedulerFault::Registration),
                ),
            )
        },
        Phase::Removing => if reply == Reply::Failed {
            Phase::Finished(
                Outcome::Failed(ControlError::SchedulerServiceError(SchedulerFault::Deletion)),
            )
        } else {
            Phase::Finished(Outcome::Unregistered)
        },
        Phase::Looking => Phase::Finished(Outcome::Status(reply == Reply::Done)),
        Phase::Finished(outcome) => Phase::Finished(outcome),
    }
}

/// Whether the registrar in this phase still holds the definition to commit.
pub open spec fn holds_definition(phase: Phase) -> bool {
    phase == Phase::Connecting(Operation::Register) || phase == Phase::OpeningFolder(
        Operation::Register,
    ) || phase == Phase::Replacing
}

impl TaskSchedulerView {
    /// The states that the registrar can be in.
    pub open spec fn wf(self) -> bool {
        holds_definition(self.phase) <==> self.definition is Some
    }

    /// The state after the host has reported `reply`.
    pub open spec fn after(self, reply: Reply) -> TaskSchedulerView {
        let phase = next_phase(self.phase, reply);
        TaskSchedulerView {
            phase,
            definition: if holds_definition(phase) {
                self.definition
            } else {
                None
            },
        }
    }

    /// What the host is told after it has reported `reply`.
    pub open spec fn answer(self, reply: Reply) -> ProgressView {
        match next_phase(self.phase, reply) {
            Phase::Idle => ProgressView::Idle,
            Phase::Connecting(_) => ProgressView::Call(SchedulerRequestView::Connect),
            Phase::OpeningFolder(_) => ProgressView::Call(SchedulerRequestView::OpenFolder),
            Phase::Replacing => ProgressView::Call(SchedulerRequestView::DeleteTask),
            Phase::Committing => ProgressView::Call(
                SchedulerRequestView::RegisterTask(self.definition->0),
            ),
            Phase::Removing => ProgressView::Call(SchedulerRequestView::DeleteTask),
            Phase::Looking => ProgressView::Call(SchedulerRequestView::GetTask),
            Phase::Finished(outcome) => ProgressView::Finished(outcome),
        }
    }
}

impl TaskScheduler {
    #[verifier::type_invariant]
    spec fn consistent(self) -> bool {
        holds_definition(self.phase) <==> self.definition is Some
    }

    /// A registrar with no operation in progress.
    pub fn new() -> (scheduler: TaskScheduler)
        ensures
            scheduler@ == (TaskSchedulerView { phase: Phase::Idle, definition: None }),
            scheduler@.wf(),
    {
        TaskScheduler { phase: Phase::Idle, definition: None }
    }

    /// Starts the registration of the volume task, whatever was in progress
    /// before. The launcher script at `script_path` must have been written by
    /// then. The first request is the connection.
    pub fn register_task(
        &mut self,
        script_path: &str,
        working_directory: Option<String>,
        interval_minutes: u32,
    ) -> (request: SchedulerRequest)
        ensures
            request@ == SchedulerRequestView::Connect,
            final(self)@ == (TaskSchedulerView {
                phase: Phase::Connecting(Operation::Register),
                definition: Some(
                    volume_task(
                        script_path@,
                        optional_text(working_directory),
                        interval_minutes as nat,
                    ),
                ),
            }),
            final(self)@.wf(),
    {
        let definition = TaskDefinition::volume_task(
            script_path,
            working_directory,
            interval_minutes,
        );
        *self = TaskScheduler {
            phase: Phase::Connecting(Operation::Register),
            definition: Some(definition),
        };
        SchedulerRequest::Connect
    }

    /// Starts the removal of the volume task, whatever was in progress before.
    /// The first request is the connection.
    pub fn unregister_task(&mut self) -> (request: SchedulerRequest)
        ensures
            request@ == SchedulerRequestView::Connect,
            final(self)@ == (TaskSchedulerView {
                phase: Phase::Connecting(Operation::Unregister),
                definition: None,
            }),
            final(self)@.wf(),
    {
        *self = TaskScheduler { phase: Phase::Connecting(Operation::Unregister), definition: None };
        SchedulerRequest::Connect
    }

    /// Starts a query for the volume task, whatever was in progress before.
    /// The first request is the connection; the answer is the `Status` that
    /// the operation ends with.
    pub fn is_registered(&mut self) -> (request: SchedulerRequest)
        ensures
            request@ == SchedulerRequestView::Connect,
            final(self)@ == (TaskSchedulerView {
                phase: Phase::Connecting(Operation::Query),
                definition: None,
            }),
            final(self)@.wf(),
    {
        *self = TaskScheduler { phase: Phase::Connecting(Operation::Query), definition: None };
        SchedulerRequest::Connect
    }

    /// The phase the registrar is in.
    pub fn phase(&self) -> (phase: Phase)
        ensures
            phase == self@.phase,
            self@.wf(),
    {
        proof {
            use_type_invariant(self);
        }
        self.phase
    }

    /// Takes the reply to the request that was handed out last and says how
    /// the operation goes on.
    pub fn advance(&mut self, reply: Reply) -> (progress: Progress)
        ensures
            final(self)@ == old(self)@.after(reply),
            final(self)@.wf(),
            progress@ == old(self)@.answer(reply),
    {
        proof {
            use_type_invariant(&*self);
        }
        let done = match reply {
            Reply::Done => true,
            _ => false,
        };
        match self.phase {
            Phase::Idle => Progress::Idle,
            Phase::Connecting(operation) => {
                if done {
                    self.phase = Phase::OpeningFolder(operation);
                    Progress::Call(SchedulerRequest::OpenFolder)
                } else {
                    self.give_up(operation, SchedulerFault::Connection)
                }
            },
            Phase::OpeningFolder(operation) => {
                if done {
                    match operation {
                        Operation::Register => {
                            self.phase = Phase::Replacing;
                            Progress::Call(SchedulerRequest::DeleteTask)
                        },
                        Operation::Unregister => {
                            self.phase = Phase::Removing;
                            Progress::Call(SchedulerRequest::DeleteTask)
                        },
                        Operation::Query => {
                            self.phase = Phase::Looking;
                            Progress::Call(SchedulerRequest::GetTask)
                        },
                    }
                } else {
                    self.give_up(operation, SchedulerFault::Folder)
                }
            },
            Phase::Replacing => {
                let mut before = TaskScheduler { phase: Phase::Committing, definition: None };
                core::mem::swap(self, &mut before);
                proof {
                    use_type_invariant(&before);
                }
                match before.definition {
                    Some(definition) => Progress::Call(SchedulerRequest::RegisterTask(definition)),
                    None => Progress::Idle,
                }
            },
            Phase::Committing => {
                let outcome = if done {
                    Outcome::Registered
                } else {
                    Outcome::Failed(
                        ControlError::SchedulerServiceError(SchedulerFault::Registration),
                    )
                };
                self.phase = Phase::Finished(outcome);
                Progress::Finished(outcome)
            },
            Phase::Removing => {
                let outcome = match reply {
                    Reply::Failed => Outcome::Failed(
                        ControlError::SchedulerServiceError(SchedulerFault::Deletion),
                    ),
                    _ => Outcome::Unregistered,
                };
                self.phase = Phase::Finished(outcome);
                Progress::Finished(outcome)
            },
            Phase::Looking => {
                let outcome = Outcome::Status(done);
                self.phase = Phase::Finished(outcome);
                Progress::Finished(outcome)
            },
            Phase::Finished(outcome) => Progress::Finished(outcome),
        }
    }

    /// Ends an operation that could not reach the task folder.
    fn give_up(&mut self, operation: Operation, fault: SchedulerFault) -> (progress: Progress)
        ensures
            final(self)@ == (TaskSchedulerView {
                phase: Phase::Finished(unreachable_outcome(operation, fault)),
                definition: None,
            }),
            progress@ == ProgressView::Finished(unreachable_outcome(operation, fault)),
    {
        let outcome = match operation {
            Operation::Query => Outcome::Status(false),
            _ => Outcome::Failed(ControlError::SchedulerServiceError(fault)),
        };
        *self = TaskScheduler { phase: Phase::Finished(outcome), definition: None };
        Progress::Finished(outcome)
    }
}

} // verus!
