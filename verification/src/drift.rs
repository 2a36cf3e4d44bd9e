//! The drift-correction loop.
//!
//! The loop levels the device once at startup and then, once per interval,
//! reads the level and restores the target if the reading has left the dead
//! band. It ends when it finds the running flag cleared at the start of a
//! pass, and never for any other reason: a device error is noted and the
//! next pass tries again.
//!
//! The loop is a state machine. It says which action comes next; the host
//! performs the action and reports what happened.

use vstd::prelude::*;
use crate::level::deviation;
use crate::level::drift_points;
use crate::level::drifted;
use crate::level::nearest_percent;
use crate::level::needs_correction;
use crate::level::reading_percent;
use crate::level::whole_percent;
use crate::level::Level;
use crate::text::decimal;
use crate::text::format_decimal;
use crate::text::format_signed;
use crate::text::signed_decimal;

verus! {

/// The shortest interval between two passes, in milliseconds.
pub const MIN_INTERVAL_MS: u64 = 100;

/// The interval between two passes where none is configured: five minutes.
pub const DEFAULT_INTERVAL_MS: u64 = 300_000;

/// The time between two passes of the loop: at least `MIN_INTERVAL_MS`.
#[derive(Clone, Copy, Debug, PartialEq, Eq, Structural)]
pub struct CheckInterval {
    millis: u64,
}

impl View for CheckInterval {
    type V = int;

    closed spec fn view(&self) -> int {
        self.millis as int
    }
}

/// The interval that is used for a requested length: the length itself, or
/// the shortest interval where the request is shorter.
pub open spec fn effective_interval(millis: int) -> int {
    if millis < MIN_INTERVAL_MS {
        MIN_INTERVAL_MS as int
    } else {
        millis
    }
}

impl CheckInterval {
    #[verifier::type_invariant]
    spec fn long_enough(self) -> bool {
        self.millis >= MIN_INTERVAL_MS
    }

    /// Every interval that executable code holds is valid; this is what holds of it.
    pub open spec fn wf(self) -> bool {
        self@ >= MIN_INTERVAL_MS
    }

    /// An interval of `millis` milliseconds, raised to the shortest interval
    /// where it is below it.
    pub fn from_millis(millis: u64) -> (interval: CheckInterval)
        ensures
            interval@ == effective_interval(millis as int),
            interval.wf(),
    {
        if millis < MIN_INTERVAL_MS {
            CheckInterval { millis: MIN_INTERVAL_MS }
        } else {
            CheckInterval { millis }
        }
    }

    /// An interval of whole minutes, raised to the shortest interval where it is zero.
    pub fn from_minutes(minutes: u32) -> (interval: CheckInterval)
        ensures
            interval@ == effective_interval(minutes * 60_000),
            interval.wf(),
    {
        CheckInterval::from_millis(minutes as u64 * 60_000)
    }

    /// The interval in milliseconds.
    pub fn millis(&self) -> (millis: u64)
        ensures
            millis == self@,
            self.wf(),
    {
        proof {
            use_type_invariant(self);
        }
        self.millis
    }
}

impl Default for CheckInterval {
    /// Five minutes.
    fn default() -> (interval: CheckInterval)
        ensures
            interval@ == DEFAULT_INTERVAL_MS,
    {
        CheckInterval { millis: DEFAULT_INTERVAL_MS }
    }
}

/// The flag that keeps the loop running. It starts set, and nothing sets it
/// again once it is cleared.
#[derive(Debug)]
pub struct RunningFlag {
    running: bool,
}

impl View for RunningFlag {
    type V = bool;

    closed spec fn view(&self) -> bool {
        self.running
    }
}

impl RunningFlag {
    /// A flag that is set.
    pub fn new() -> (flag: RunningFlag)
        ensures
            flag@,
    {
        RunningFlag { running: true }
    }

    /// Clears the flag. Clearing a cleared flag changes nothing.
    pub fn stop(&mut self)
        ensures
            !final(self)@,
    {
        self.running = false;
    }

    /// Whether the flag is still set.
    pub fn is_running(&self) -> (running: bool)
        ensures
            running == self@,
    {
        self.running
    }
}

/// Where the loop stands: which report it waits for.
#[derive(Clone, Copy, Debug, PartialEq, Eq, Structural)]
pub enum LoopPhase {
    /// Waiting for the result of the startup write.
    Leveling,
    /// At the start of a pass, waiting for the running flag.
    Checking,
    /// Waiting for the reading of the current level.
    Reading,
    /// Waiting for the result of the corrective write; `from` is the reading
    /// that called for it.
    Correcting { from: i64 },
    /// Waiting for the interval to pass.
    Sleeping,
    /// The loop has ended. It does not start again.
    Stopped,
}

/// What the host does next.
#[derive(Clone, Copy, Debug, PartialEq, Eq, Structural)]
pub enum LoopAction {
    /// Write this level to the device and report `Written` or `WriteFailed`.
    WriteLevel(Level),
    /// Load the running flag and report it as `Flag`.
    CheckFlag,
    /// Read the level of the device and report `Level` or `ReadFailed`.
    ReadLevel,
    /// Sleep for this many milliseconds and report `Woke`.
    Sleep(u64),
    /// Leave the loop.
    Exit,
}

/// What the host reports.
#[derive(Clone, Copy, Debug, PartialEq, Eq, Structural)]
pub enum LoopEvent {
    /// The level was written.
    Written,
    /// The level could not be written.
    WriteFailed,
    /// The running flag, as it was just loaded.
    Flag(bool),
    /// The reading of the device, in millionths, as the device gave it.
    Level(i64),
    /// The level could not be read.
    ReadFailed,
    /// The interval has passed.
    Woke,
}

/// What the host writes to the log for a step.
#[derive(Clone, Copy, Debug, PartialEq, Eq, Structural)]
pub enum Note {
    /// Nothing.
    Quiet,
    /// The device was set to the target at startup.
    Leveled { target: Level },
    /// The startup write failed. The loop goes on.
    LevelingFailed,
    /// The reading had drifted from the target and the target was restored.
    Corrected { from: i64, target: Level },
    /// The reading had drifted from the target and the write failed. The loop goes on.
    CorrectionFailed { from: i64 },
    /// The reading was inside the dead band.
    Stable { current: i64 },
    /// The level could not be read. The loop goes on.
    ReadFailed,
    /// The loop found the running flag cleared and ended.
    Stopped,
}

/// How much a note matters.
#[derive(Clone, Copy, Debug, PartialEq, Eq, Structural)]
pub enum Severity {
    /// A reading that called for nothing.
    Debug,
    /// A correction, or the start or the end of the loop.
    Info,
    /// A device error that the loop has absorbed.
    Error,
}

impl Note {
    /// How much this note matters; `None` where there is nothing to log.
    pub open spec fn weight(self) -> Option<Severity> {
        match self {
            Note::Quiet => None,
            Note::Leveled { target } => Some(Severity::Info),
            Note::LevelingFailed => Some(Severity::Error),
            Note::Corrected { from, target } => Some(Severity::Info),
            Note::CorrectionFailed { from } => Some(Severity::Error),
            Note::Stable { current } => Some(Severity::Debug),
            Note::ReadFailed => Some(Severity::Error),
            Note::Stopped => Some(Severity::Info),
        }
    }

    /// The line that is logged for this note; empty where there is nothing
    /// to log. A correction is worded with the size of the drift in whole
    /// percentage points.
    pub open spec fn text(self) -> Seq<char> {
        match self {
            Note::Quiet => ""@,
            Note::Leveled { target } => "Volume set to "@ + decimal(
                nearest_percent(target@) as nat,
            ) + "% at startup"@,
            Note::LevelingFailed => "Failed to set volume at startup"@,
            Note::Corrected { from, target } => "Volume drifted to "@ + signed_decimal(
                nearest_percent(from as int),
            ) + "%, corrected by "@ + decimal(
                whole_percent(deviation(from as int, target@)) as nat,
            ) + " percentage points to "@ + decimal(nearest_percent(target@) as nat) + "%"@,
            Note::CorrectionFailed { from } => "Volume drifted to "@ + signed_decimal(
                nearest_percent(from as int),
            ) + "%, and the correction failed"@,
            Note::Stable { current } => "Volume stable at "@ + signed_decimal(
                nearest_percent(current as int),
            ) + "%"@,
            Note::ReadFailed => "Failed to read volume"@,
            Note::Stopped => "Volume monitoring stopped"@,
        }
    }

    /// How much this note matters; `None` where there is nothing to log.
    pub fn severity(&self) -> (severity: Option<Severity>)
        ensures
            severity == self.weight(),
    {
        match self {
            Note::Quiet => None,
            Note::Leveled { target } => Some(Severity::Info),
            Note::LevelingFailed => Some(Severity::Error),
            Note::Corrected { from, target } => Some(Severity::Info),
            Note::CorrectionFailed { from } => Some(Severity::Error),
            Note::Stable { current } => Some(Severity::Debug),
            Note::ReadFailed => Some(Severity::Error),
            Note::Stopped => Some(Severity::Info),
        }
    }

    /// The line that is logged for this note.
    pub fn message(&self) -> (line: String)
        ensures
            line@ == self.text(),
    {
        match *self {
            Note::Quiet => String::from_str(""),
            Note::Leveled { target } => {
                let percent: String = format_decimal(target.rounded_percent() as u64);
                let mut line: String = String::from_str("Volume set to ");
                line.append(percent.as_str());
                line.append("% at startup");
                line
            },
            Note::LevelingFailed => String::from_str("Failed to set volume at startup"),
            Note::Corrected { from, target } => {
                let reading: String = format_signed(reading_percent(from));
                let points: String = format_decimal(drift_points(from, target));
                let percent: String = format_decimal(target.rounded_percent() as u64);
                let mut line: String = String::from_str("Volume drifted to ");
                line.append(reading.as_str());
                line.append("%, corrected by ");
                line.append(points.as_str());
                line.append(" percentage points to ");
                line.append(percent.as_str());
                line.append("%");
                line
            },
            Note::CorrectionFailed { from } => {
                let reading: String = format_signed(reading_percent(from));
                let mut line: String = String::from_str("Volume drifted to ");
                line.append(reading.as_str());
                line.append("%, and the correction failed");
                line
            },
            Note::Stable { current } => {
                let reading: String = format_signed(reading_percent(current));
                let mut line: String = String::from_str("Volume stable at ");
                line.append(reading.as_str());
                line.append("%");
                line
            },
            Note::ReadFailed => String::from_str("Failed to read volume"),
            Note::Stopped => String::from_str("Volume monitoring stopped"),
        }
    }
}

/// The answer of the loop to a report.
#[derive(Clone, Copy, Debug, PartialEq, Eq, Structural)]
pub struct Step {
    pub action: LoopAction,
    pub note: Note,
}

/// The loop: its target, its interval and where it stands.
#[derive(Clone, Copy, Debug)]
pub struct DriftLoop {
    target: Level,
    interval: CheckInterval,
    phase: LoopPhase,
}

/// The state of a `DriftLoop`.
pub struct DriftLoopView {
    pub target: Level,
    pub interval: CheckInterval,
    pub phase: LoopPhase,
}

impl View for DriftLoop {
    type V = DriftLoopView;

    closed spec fn view(&self) -> DriftLoopView {
        DriftLoopView { target: self.target, interval: self.interval, phase: self.phase }
    }
}

impl DriftLoopView {
    /// The states that a loop can be in.
    pub open spec fn wf(self) -> bool {
        self.target.wf() && self.interval.wf()
    }

    /// The action that the loop waits to hear about.
    pub open spec fn pending(self) -> LoopAction {
        match self.phase {
            LoopPhase::Leveling => LoopAction::WriteLevel(self.target),
            LoopPhase::Checking => LoopAction::CheckFlag,
            LoopPhase::Reading => LoopAction::ReadLevel,
            LoopPhase::Correcting { from } => LoopAction::WriteLevel(self.target),
            LoopPhase::Sleeping => LoopAction::Sleep(self.interval@ as u64),
            LoopPhase::Stopped => LoopAction::Exit,
        }
    }

    /// Whether `event` is a report on the pending action.
    pub open spec fn expects(self, event: LoopEvent) -> bool {
        match self.phase {
            LoopPhase::Leveling => event == LoopEvent::Written || event == LoopEvent::WriteFailed,
            LoopPhase::Checking => event is Flag,
            LoopPhase::Reading => event is Level || event == LoopEvent::ReadFailed,
            LoopPhase::Correcting { from } => event == LoopEvent::Written || event
                == LoopEvent::WriteFailed,
            LoopPhase::Sleeping => event == LoopEvent::Woke,
            LoopPhase::Stopped => false,
        }
    }

    /// The phase after `event`. A report that the loop does not wait for
    /// leaves the phase as it is.
    pub open spec fn next_phase(self, event: LoopEvent) -> LoopPhase {
        match (self.phase, event) {
            (LoopPhase::Leveling, LoopEvent::Written) => LoopPhase::Checking,
            (LoopPhase::Leveling, LoopEvent::WriteFailed) => LoopPhase::Checking,
            (LoopPhase::Checking, LoopEvent::Flag(running)) => if running {
                LoopPhase::Reading
            } else {
                LoopPhase::Stopped
            },
            (LoopPhase::Reading, LoopEvent::Level(current)) => if drifted(
                current as int,
                self.target@,
            ) {
                LoopPhase::Correcting { from: current }
            } else {
                LoopPhase::Sleeping
            },
            (LoopPhase::Reading, LoopEvent::ReadFailed) => LoopPhase::Sleeping,
            (LoopPhase::Correcting { from }, LoopEvent::Written) => LoopPhase::Sleeping,
            (LoopPhase::Correcting { from }, LoopEvent::WriteFailed) => LoopPhase::Sleeping,
            (LoopPhase::Sleeping, LoopEvent::Woke) => LoopPhase::Checking,
            (phase, _) => phase,
        }
    }

    /// What is noted for `event`.
    pub open spec fn note(self, event: LoopEvent) -> Note {
        match (self.phase, event) {
            (LoopPhase::Leveling, LoopEvent::Written) => Note::Leveled { target: self.target },
            (LoopPhase::Leveling, LoopEvent::WriteFailed) => Note::LevelingFailed,
            (LoopPhase::Checking, LoopEvent::Flag(running)) => if running {
                Note::Quiet
            } else {
                Note::Stopped
            },
            (LoopPhase::Reading, LoopEvent::Level(current)) => if drifted(
                current as int,
                self.target@,
            ) {
                Note::Quiet
            } else {
                Note::Stable { current }
            },
            (LoopPhase::Reading, LoopEvent::ReadFailed) => Note::ReadFailed,
            (LoopPhase::Correcting { from }, LoopEvent::Written) => Note::Corrected {
                from,
                target: self.target,
            },
            (LoopPhase::Correcting { from }, LoopEvent::WriteFailed) => Note::CorrectionFailed {
                from,
            },
            _ => Note::Quiet,
        }
    }

    /// The state after `event`: target and interval stay, the phase moves on.
    pub open spec fn after(self, event: LoopEvent) -> DriftLoopView {
        DriftLoopView {
            target: self.target,
            interval: self.interval,
            phase: self.next_phase(event),
        }
    }

    /// The answer to `event`: the action that is pending afterwards, and the note.
    pub open spec fn answer(self, event: LoopEvent) -> Step {
        Step { action: self.after(event).pending(), note: self.note(event) }
    }
}

impl DriftLoop {
    /// A loop that is about to level the device: its first action is the
    /// write of the target.
    pub fn new(target: Level, interval: CheckInterval) -> (drift_loop: DriftLoop)
        ensures
            drift_loop@ == (DriftLoopView { target, interval, phase: LoopPhase::Leveling }),
    {
        DriftLoop { target, interval, phase: LoopPhase::Leveling }
    }

    /// The target of the loop.
    pub fn target(&self) -> (target: Level)
        ensures
            target == self@.target,
    {
        self.target
    }

    /// The interval of the loop.
    pub fn interval(&self) -> (interval: CheckInterval)
        ensures
            interval == self@.interval,
    {
        self.interval
    }

    /// Where the loop stands.
    pub fn phase(&self) -> (phase: LoopPhase)
        ensures
            phase == self@.phase,
    {
        self.phase
    }

    /// Whether the loop has ended.
    pub fn is_stopped(&self) -> (stopped: bool)
        ensures
            stopped == (self@.phase == LoopPhase::Stopped),
    {
        match self.phase {
            LoopPhase::Stopped => true,
            _ => false,
        }
    }

    /// The action that the loop waits to hear about.
    pub fn pending(&self) -> (action: LoopAction)
        ensures
            action == self@.pending(),
    {
        match self.phase {
            LoopPhase::Leveling => LoopAction::WriteLevel(self.target),
            LoopPhase::Checking => LoopAction::CheckFlag,
            LoopPhase::Reading => LoopAction::ReadLevel,
            LoopPhase::Correcting { from } => LoopAction::WriteLevel(self.target),
            LoopPhase::Sleeping => LoopAction::Sleep(self.interval.millis()),
            LoopPhase::Stopped => LoopAction::Exit,
        }
    }

    /// Takes the report on the pending action and says what comes next. A
    /// report that the loop does not wait for is ignored: the state stays
    /// and the pending action is named again.
    pub fn step(&mut self, event: LoopEvent) -> (step: Step)
        ensures
            final(self)@ == old(self)@.after(event),
            step == old(self)@.answer(event),
    {
        let note = match (self.phase, event) {
            (LoopPhase::Leveling, LoopEvent::Written) => {
                self.phase = LoopPhase::Checking;
                Note::Leveled { target: self.target }
            },
            (LoopPhase::Leveling, LoopEvent::WriteFailed) => {
                self.phase = LoopPhase::Checking;
                Note::LevelingFailed
            },
            (LoopPhase::Checking, LoopEvent::Flag(running)) => {
                if running {
                    self.phase = LoopPhase::Reading;
                    Note::Quiet
                } else {
                    self.phase = LoopPhase::Stopped;
                    Note::Stopped
                }
            },
            (LoopPhase::Reading, LoopEvent::Level(current)) => {
                if needs_correction(current, self.target) {
                    self.phase = LoopPhase::Correcting { from: current };
                    Note::Quiet
                } else {
                    self.phase = LoopPhase::Sleeping;
                    Note::Stable { current }
                }
            },
            (LoopPhase::Reading, LoopEvent::ReadFailed) => {
                self.phase = LoopPhase::Sleeping;
                Note::ReadFailed
            },
            (LoopPhase::Correcting { from }, LoopEvent::Written) => {
                self.phase = LoopPhase::Sleeping;
                Note::Corrected { from, target: self.target }
            },
            (LoopPhase::Correcting { from }, LoopEvent::WriteFailed) => {
                self.phase = LoopPhase::Sleeping;
                Note::CorrectionFailed { from }
            },
            (LoopPhase::Sleeping, LoopEvent::Woke) => {
                self.phase = LoopPhase::Checking;
                Note::Quiet
            },
            _ => Note::Quiet,
        };
        Step { action: self.pending(), note }
    }
}

} // verus!
