//! The error kinds of the volume control core.

use vstd::prelude::*;

verus! {

/// Why the capture endpoint could not be used.
#[derive(Clone, Copy, Debug, PartialEq, Eq, Structural)]
pub enum DeviceFault {
    /// The device enumerator could not be created.
    Enumerator,
    /// There is no default capture device.
    NoDefaultDevice,
    /// The volume interface of the device could not be activated.
    Activation,
    /// The device was resolved, but reading its level failed.
    ReadLevel,
    /// The device was resolved, but committing the level failed.
    WriteLevel,
}

/// Which call against the task scheduler failed.
#[derive(Clone, Copy, Debug, PartialEq, Eq, Structural)]
pub enum SchedulerFault {
    /// The scheduler service could not be reached.
    Connection,
    /// The task folder could not be opened.
    Folder,
    /// The task definition was not accepted.
    Registration,
    /// The task could not be deleted.
    Deletion,
}

/// An error of the core, as it is reported to the caller.
#[derive(Clone, Copy, Debug, PartialEq, Eq, Structural)]
pub enum ControlError {
    /// A volume value lies outside `[0.0, 1.0]`. Raised before any device is touched.
    InvalidRange,
    /// The default capture device is missing or could not be activated.
    DeviceUnavailable(DeviceFault),
    /// A call against the operating system's task store failed.
    SchedulerServiceError(SchedulerFault),
}

impl DeviceFault {
    /// The text of `describe`.
    pub open spec fn description(self) -> Seq<char> {
        match self {
            DeviceFault::Enumerator => "Failed to create device enumerator"@,
            DeviceFault::NoDefaultDevice => "Failed to get default microphone"@,
            DeviceFault::Activation => "Failed to activate audio endpoint volume"@,
            DeviceFault::ReadLevel => "Failed to get volume level"@,
            DeviceFault::WriteLevel => "Failed to set volume level"@,
        }
    }

    /// One line that names the failed step.
    pub fn describe(&self) -> (text: &'static str)
        ensures
            text@ == self.description(),
    {
        match self {
            DeviceFault::Enumerator => "Failed to create device enumerator",
            DeviceFault::NoDefaultDevice => "Failed to get default microphone",
            DeviceFault::Activation => "Failed to activate audio endpoint volume",
            DeviceFault::ReadLevel => "Failed to get volume level",
            DeviceFault::WriteLevel => "Failed to set volume level",
        }
    }
}

impl SchedulerFault {
    /// The text of `describe`.
    pub open spec fn description(self) -> Seq<char> {
        match self {
            SchedulerFault::Connection => "Failed to connect to Task Scheduler service"@,
            SchedulerFault::Folder => "Failed to get task folder"@,
            SchedulerFault::Registration => "Failed to register task definition"@,
            SchedulerFault::Deletion => "Failed to delete task"@,
        }
    }

    /// One line that names the failed call.
    pub fn describe(&self) -> (text: &'static str)
        ensures
            text@ == self.description(),
    {
        match self {
            SchedulerFault::Connection => "Failed to connect to Task Scheduler service",
            SchedulerFault::Folder => "Failed to get task folder",
            SchedulerFault::Registration => "Failed to register task definition",
            SchedulerFault::Deletion => "Failed to delete task",
        }
    }
}

impl ControlError {
    /// The text of `message`.
    pub open spec fn description(self) -> Seq<char> {
        match self {
            ControlError::InvalidRange => "Volume must be between 0.0 and 1.0"@,
            ControlError::DeviceUnavailable(fault) => fault.description(),
            ControlError::SchedulerServiceError(fault) => fault.description(),
        }
    }

    /// The single line that is shown to the user for this error.
    pub fn message(&self) -> (text: &'static str)
        ensures
            text@ == self.description(),
    {
        match self {
            ControlError::InvalidRange => "Volume must be between 0.0 and 1.0",
            ControlError::DeviceUnavailable(fault) => fault.describe(),
            ControlError::SchedulerServiceError(fault) => fault.describe(),
        }
    }
}

} // verus!
