//! The scheduled task as a declarative record.
//!
//! A `TaskDefinition` says everything the operating system is told about the
//! task: who registered it, under which principal it runs, what triggers it,
//! what it executes and under which constraints. The host walks the record
//! and hands each field to the task scheduler.

use vstd::prelude::*;
use crate::script::host_arguments;
use crate::script::launcher_arguments;
use crate::script::SCRIPT_HOST;
use crate::text::decimal;
use crate::text::format_decimal;

verus! {

/// The name under which the task is registered.
pub const TASK_NAME: &'static str = "MicrophoneVolumeControl";

/// The task folder that holds the task: the root folder.
pub const TASK_FOLDER: &'static str = "\\";

/// How the task's principal is logged on.
#[derive(Clone, Copy, Debug, PartialEq, Eq, Structural)]
pub enum LogonType {
    /// With a stored password.
    Password,
    /// With the token of the user who is logged on.
    InteractiveToken,
    /// As a service account.
    ServiceAccount,
}

/// The privilege level the task runs with.
#[derive(Clone, Copy, Debug, PartialEq, Eq, Structural)]
pub enum RunLevel {
    /// With the least privileges of the principal.
    LeastPrivilege,
    /// With the highest privileges available to the principal.
    Highest,
}

/// What happens when a trigger fires while an instance is still running.
#[derive(Clone, Copy, Debug, PartialEq, Eq, Structural)]
pub enum InstancesPolicy {
    /// Start a second instance beside the first.
    Parallel,
    /// Start the new instance when the running one has ended.
    Queue,
    /// Do not start a new instance.
    IgnoreNew,
    /// Stop the running instance and start the new one.
    StopExisting,
}

/// The account and privilege under which the task runs.
#[derive(Clone, Copy, Debug, PartialEq, Eq, Structural)]
pub struct Principal {
    pub logon_type: LogonType,
    pub run_level: RunLevel,
}

/// One condition that starts the task.
#[derive(Debug, PartialEq, Eq)]
pub enum Trigger {
    /// Fires when a user logs on, after `delay`.
    Logon { enabled: bool, delay: String },
    /// Fires at `start_boundary` and then every `interval` for `duration`;
    /// an empty duration repeats without end.
    Periodic { enabled: bool, start_boundary: String, interval: String, duration: String },
}

/// What a `Trigger` says, with its texts as character sequences.
pub enum TriggerView {
    Logon { enabled: bool, delay: Seq<char> },
    Periodic {
        enabled: bool,
        start_boundary: Seq<char>,
        interval: Seq<char>,
        duration: Seq<char>,
    },
}

impl View for Trigger {
    type V = TriggerView;

    open spec fn view(&self) -> TriggerView {
        match *self {
            Trigger::Logon { enabled, delay } => TriggerView::Logon { enabled, delay: delay@ },
            Trigger::Periodic { enabled, start_boundary, interval, duration } => {
                TriggerView::Periodic {
                    enabled,
                    start_boundary: start_boundary@,
                    interval: interval@,
                    duration: duration@,
                }
            },
        }
    }
}

/// The program that the task executes.
#[derive(Debug, PartialEq, Eq)]
pub struct ExecAction {
    pub path: String,
    pub arguments: String,
    pub working_directory: Option<String>,
}

/// What an `ExecAction` says, with its texts as character sequences.
pub struct ExecActionView {
    pub path: Seq<char>,
    pub arguments: Seq<char>,
    pub working_directory: Option<Seq<char>>,
}

/// The characters of an optional text.
pub open spec fn optional_text(text: Option<String>) -> Option<Seq<char>> {
    match text {
        Some(t) => Some(t@),
        None => None,
    }
}

impl View for ExecAction {
    type V = ExecActionView;

    open spec fn view(&self) -> ExecActionView {
        ExecActionView {
            path: self.path@,
            arguments: self.arguments@,
            working_directory: optional_text(self.working_directory),
        }
    }
}

/// The constraints under which the task runs.
#[derive(Debug, PartialEq, Eq)]
pub struct TaskSettings {
    pub enabled: bool,
    pub start_when_available: bool,
    pub disallow_start_if_on_batteries: bool,
    pub stop_if_going_on_batteries: bool,
    pub allow_demand_start: bool,
    pub execution_time_limit: String,
    pub multiple_instances: InstancesPolicy,
    pub hidden: bool,
    pub wake_to_run: bool,
    pub priority: i32,
}

/// What `TaskSettings` say, with the time limit as a character sequence.
pub struct TaskSettingsView {
    pub enabled: bool,
    pub start_when_available: bool,
    pub disallow_start_if_on_batteries: bool,
    pub stop_if_going_on_batteries: bool,
    pub allow_demand_start: bool,
    pub execution_time_limit: Seq<char>,
    pub multiple_instances: InstancesPolicy,
    pub hidden: bool,
    pub wake_to_run: bool,
    pub priority: i32,
}

impl View for TaskSettings {
    type V = TaskSettingsView;

    open spec fn view(&self) -> TaskSettingsView {
        TaskSettingsView {
            enabled: self.enabled,
            start_when_available: self.start_when_available,
            disallow_start_if_on_batteries: self.disallow_start_if_on_batteries,
            stop_if_going_on_batteries: self.stop_if_going_on_batteries,
            allow_demand_start: self.allow_demand_start,
            execution_time_limit: self.execution_time_limit@,
            multiple_instances: self.multiple_instances,
            hidden: self.hidden,
            wake_to_run: self.wake_to_run,
            priority: self.priority,
        }
    }
}

/// Everything that is registered for one task.
#[derive(Debug, PartialEq, Eq)]
pub struct TaskDefinition {
    pub author: String,
    pub description: String,
    pub principal: Principal,
    pub triggers: Vec<Trigger>,
    pub actions_context: String,
    pub action: ExecAction,
    pub settings: TaskSettings,
}

/// What a `TaskDefinition` says, with its texts as character sequences.
pub struct TaskDefinitionView {
    pub author: Seq<char>,
    pub description: Seq<char>,
    pub principal: Principal,
    pub triggers: Seq<TriggerView>,
    pub actions_context: Seq<char>,
    pub action: ExecActionView,
    pub settings: TaskSettingsView,
}

impl View for TaskDefinition {
    type V = TaskDefinitionView;

    open spec fn view(&self) -> TaskDefinitionView {
        TaskDefinitionView {
            author: self.author@,
            description: self.description@,
            principal: self.principal,
            triggers: self.triggers@.map_values(|t: Trigger| t@),
            actions_context: self.actions_context@,
            action: self.action@,
            settings: self.settings@,
        }
    }
}

/// A span of whole minutes in the scheduler's duration notation, `PT<n>M`.
pub open spec fn minutes_duration(minutes: nat) -> Seq<char> {
    "PT"@ + decimal(minutes) + "M"@
}

/// The settings of the volume task: it may start on battery and on demand,
/// catches up on a missed start, never runs twice at once, shows no window,
/// does not wake the machine and may run for five minutes.
pub open spec fn volume_task_settings() -> TaskSettingsView {
    TaskSettingsView {
        enabled: true,
        start_when_available: true,
        disallow_start_if_on_batteries: false,
        stop_if_going_on_batteries: false,
        allow_demand_start: true,
        execution_time_limit: "PT5M"@,
        multiple_instances: InstancesPolicy::IgnoreNew,
        hidden: true,
        wake_to_run: false,
        priority: 7,
    }
}

/// The two triggers of the volume task: one minute after logon, and every
/// `interval_minutes` without end.
pub open spec fn volume_task_triggers(interval_minutes: nat) -> Seq<TriggerView> {
    seq![
        TriggerView::Logon { enabled: true, delay: "PT1M"@ },
        TriggerView::Periodic {
            enabled: true,
            start_boundary: "2025-01-01T00:00:00"@,
            interval: minutes_duration(interval_minutes),
            duration: ""@,
        },
    ]
}

/// The task that keeps the volume: the script host runs the launcher at
/// `script_path`, in `working_directory` if one is given.
pub open spec fn volume_task(
    script_path: Seq<char>,
    working_directory: Option<Seq<char>>,
    interval_minutes: nat,
) -> TaskDefinitionView {
    TaskDefinitionView {
        author: "MicVolumeControl"@,
        description: "Automatically sets microphone volume to configured level"@,
        principal: Principal {
            logon_type: LogonType::InteractiveToken,
            run_level: RunLevel::Highest,
        },
        triggers: volume_task_triggers(interval_minutes),
        actions_context: "Author"@,
        action: ExecActionView {
            path: SCRIPT_HOST@,
            arguments: host_arguments(script_path),
            working_directory,
        },
        settings: volume_task_settings(),
    }
}

/// Writes a span of whole minutes as `PT<n>M`.
pub fn format_minutes(minutes: u32) -> (text: String)
    ensures
        text@ == minutes_duration(minutes as nat),
{
    let number: String = format_decimal(minutes as u64);
    let mut text: String = String::from_str("PT");
    text.append(number.as_str());
    text.append("M");
    text
}

impl TaskSettings {
    /// The settings of the volume task.
    pub fn volume_task() -> (settings: TaskSettings)
        ensures
            settings@ == volume_task_settings(),
    {
        TaskSettings {
            enabled: true,
            start_when_available: true,
            disallow_start_if_on_batteries: false,
            stop_if_going_on_batteries: false,
            allow_demand_start: true,
            execution_time_limit: String::from_str("PT5M"),
            multiple_instances: InstancesPolicy::IgnoreNew,
            hidden: true,
            wake_to_run: false,
            priority: 7,
        }
    }
}

impl TaskDefinition {
    /// Builds the definition of the volume task from scratch.
    pub fn volume_task(
        script_path: &str,
        working_directory: Option<String>,
        interval_minutes: u32,
    ) -> (definition: TaskDefinition)
        ensures
            definition@ == volume_task(
                script_path@,
                optional_text(working_directory),
                interval_minutes as nat,
            ),
    {
        let logon = Trigger::Logon { enabled: true, delay: String::from_str("PT1M") };
        let periodic = Trigger::Periodic {
            enabled: true,
            start_boundary: String::from_str("2025-01-01T00:00:00"),
            interval: format_minutes(interval_minutes),
            duration: String::from_str(""),
        };
        let mut triggers: Vec<Trigger> = Vec::new();
        triggers.push(logon);
        triggers.push(periodic);
        assert(triggers@.map_values(|t: Trigger| t@) =~= volume_task_triggers(
            interval_minutes as nat,
        ));
        TaskDefinition {
            author: String::from_str("MicVolumeControl"),
            description: String::from_str(
                "Automatically sets microphone volume to configured level",
            ),
            principal: Principal {
                logon_type: LogonType::InteractiveToken,
                run_level: RunLevel::Highest,
            },
            triggers,
            actions_context: String::from_str("Author"),
            action: ExecAction {
                path: String::from_str(SCRIPT_HOST),
                arguments: launcher_arguments(script_path),
                working_directory,
            },
            settings: TaskSettings::volume_task(),
        }
    }
}

} // verus!
