//! The volume endpoint accessor.
//!
//! The accessor reads and writes the level of the default capture device.
//! It keeps no device between two calls: every request resolves the default
//! device anew, so that a device that was plugged in or pulled out in the
//! meantime is found or missed as it should be. The accessor states what is
//! asked of the device and what the device's answer means; the host makes
//! the calls.

use vstd::prelude::*;
use crate::drift::LoopEvent;
use crate::error::ControlError;
use crate::error::DeviceFault;
use crate::level::in_range;
use crate::level::Level;

verus! {

/// What is asked of the device.
#[derive(Clone, Copy, Debug, PartialEq, Eq, Structural)]
pub enum EndpointRequest {
    /// Read the scalar level.
    ReadLevel,
    /// Commit this level.
    WriteLevel(Level),
}

/// One call on the way to the device.
#[derive(Clone, Copy, Debug, PartialEq, Eq, Structural)]
pub enum DeviceStep {
    /// Create the device enumerator.
    CreateEnumerator,
    /// Ask the enumerator for the default capture device.
    ResolveDefaultCapture,
    /// Activate the volume interface of the device.
    ActivateVolume,
    /// Read the scalar level from the volume interface.
    ReadScalar,
    /// Write the scalar level to the volume interface.
    WriteScalar,
}

/// What the device answered.
#[derive(Clone, Copy, Debug, PartialEq, Eq, Structural)]
pub enum EndpointReply {
    /// The level that was read, in millionths, as the device gave it.
    Level(i64),
    /// The level was committed.
    Written,
    /// A call on the way failed.
    Failed(DeviceFault),
}

/// The calls that a request consists of, in order: the three that resolve
/// the default device, then the one that reads or writes.
pub open spec fn steps_of(request: EndpointRequest) -> Seq<DeviceStep> {
    seq![
        DeviceStep::CreateEnumerator,
        DeviceStep::ResolveDefaultCapture,
        DeviceStep::ActivateVolume,
        match request {
            EndpointRequest::ReadLevel => DeviceStep::ReadScalar,
            EndpointRequest::WriteLevel(_) => DeviceStep::WriteScalar,
        },
    ]
}

/// The fault that is reported when a call fails.
pub open spec fn fault_of(step: DeviceStep) -> DeviceFault {
    match step {
        DeviceStep::CreateEnumerator => DeviceFault::Enumerator,
        DeviceStep::ResolveDefaultCapture => DeviceFault::NoDefaultDevice,
        DeviceStep::ActivateVolume => DeviceFault::Activation,
        DeviceStep::ReadScalar => DeviceFault::ReadLevel,
        DeviceStep::WriteScalar => DeviceFault::WriteLevel,
    }
}

/// What the answer to a read request means: the level as it was read, or
/// why there is none. An answer that is no answer to a read counts as a
/// failed read.
pub open spec fn reading_of(reply: EndpointReply) -> Result<i64, ControlError> {
    match reply {
        EndpointReply::Level(level) => Ok(level),
        EndpointReply::Failed(fault) => Err(ControlError::DeviceUnavailable(fault)),
        EndpointReply::Written => Err(ControlError::DeviceUnavailable(DeviceFault::ReadLevel)),
    }
}

/// What the answer to a write request means. An answer that is no answer to
/// a write counts as a failed write.
pub open spec fn commit_of(reply: EndpointReply) -> Result<(), ControlError> {
    match reply {
        EndpointReply::Written => Ok(()),
        EndpointReply::Failed(fault) => Err(ControlError::DeviceUnavailable(fault)),
        EndpointReply::Level(_) => Err(ControlError::DeviceUnavailable(DeviceFault::WriteLevel)),
    }
}

/// What the loop is told about the answer to one of its device actions.
pub open spec fn event_of(request: EndpointRequest, reply: EndpointReply) -> LoopEvent {
    match request {
        EndpointRequest::ReadLevel => match reading_of(reply) {
            Ok(level) => LoopEvent::Level(level),
            Err(_) => LoopEvent::ReadFailed,
        },
        EndpointRequest::WriteLevel(_) => match commit_of(reply) {
            Ok(_) => LoopEvent::Written,
            Err(_) => LoopEvent::WriteFailed,
        },
    }
}

impl DeviceStep {
    /// The fault that is reported when this call fails.
    pub fn fault(&self) -> (fault: DeviceFault)
        ensures
            fault == fault_of(*self),
    {
        match self {
            DeviceStep::CreateEnumerator => DeviceFault::Enumerator,
            DeviceStep::ResolveDefaultCapture => DeviceFault::NoDefaultDevice,
            DeviceStep::ActivateVolume => DeviceFault::Activation,
            DeviceStep::ReadScalar => DeviceFault::ReadLevel,
            DeviceStep::WriteScalar => DeviceFault::WriteLevel,
        }
    }
}

impl EndpointRequest {
    /// The calls that this request consists of, in order.
    pub fn steps(&self) -> (steps: Vec<DeviceStep>)
        ensures
            steps@ == steps_of(*self),
    {
        let mut steps: Vec<DeviceStep> = Vec::new();
        steps.push(DeviceStep::CreateEnumerator);
        steps.push(DeviceStep::ResolveDefaultCapture);
        steps.push(DeviceStep::ActivateVolume);
        match self {
            EndpointRequest::ReadLevel => steps.push(DeviceStep::ReadScalar),
            EndpointRequest::WriteLevel(_) => steps.push(DeviceStep::WriteScalar),
        }
        assert(steps@ =~= steps_of(*self));
        steps
    }
}

/// The accessor of the default capture device.
pub struct AudioController;

impl AudioController {
    /// The request that reads the current level.
    pub fn get_current_volume() -> (request: EndpointRequest)
        ensures
            request == EndpointRequest::ReadLevel,
    {
        EndpointRequest::ReadLevel
    }

    /// The request that sets the level to `target` millionths. A target
    /// outside `[0.0, 1.0]` is refused with `InvalidRange`, and then there is
    /// no request: nothing is asked of any device.
    pub fn set_volume(target: i64) -> (r: Result<EndpointRequest, ControlError>)
        ensures
            in_range(target as int) ==> (r matches Ok(EndpointRequest::WriteLevel(level))
                && level@ == target),
            !in_range(target as int) ==> r == Err::<EndpointRequest, ControlError>(
                ControlError::InvalidRange,
            ),
    {
        match Level::new(target) {
            Ok(level) => Ok(EndpointRequest::WriteLevel(level)),
            Err(error) => Err(error),
        }
    }

    /// The level that a read request came back with. The level is passed on
    /// as the device gave it, inside `[0.0, 1.0]` or not.
    pub fn current_volume(reply: EndpointReply) -> (r: Result<i64, ControlError>)
        ensures
            r == reading_of(reply),
    {
        match reply {
            EndpointReply::Level(level) => Ok(level),
            EndpointReply::Failed(fault) => Err(ControlError::DeviceUnavailable(fault)),
            EndpointReply::Written => Err(ControlError::DeviceUnavailable(DeviceFault::ReadLevel)),
        }
    }

    /// Whether a write request went through.
    pub fn volume_set(reply: EndpointReply) -> (r: Result<(), ControlError>)
        ensures
            r == commit_of(reply),
    {
        match reply {
            EndpointReply::Written => Ok(()),
            EndpointReply::Failed(fault) => Err(ControlError::DeviceUnavailable(fault)),
            EndpointReply::Level(_) => Err(
                ControlError::DeviceUnavailable(DeviceFault::WriteLevel),
            ),
        }
    }

    /// Turns the device's answer to a request of the loop into the report
    /// that the loop waits for. Why a call failed is of no account to the
    /// loop: it goes on either way.
    pub fn report(request: EndpointRequest, reply: EndpointReply) -> (event: LoopEvent)
        ensures
            event == event_of(request, reply),
    {
        match request {
            EndpointRequest::ReadLevel => match AudioController::current_volume(reply) {
                Ok(level) => LoopEvent::Level(level),
                Err(_) => LoopEvent::ReadFailed,
            },
            EndpointRequest::WriteLevel(_) => match AudioController::volume_set(reply) {
                Ok(_) => LoopEvent::Written,
                Err(_) => LoopEvent::WriteFailed,
            },
        }
    }
}

} // verus!
