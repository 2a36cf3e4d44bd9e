//! What a command line asks for, and what is said about it.
//!
//! The supervisor turns the parsed command line into a job, checks the
//! levels in it, and words the lines that the host prints before and after
//! it has done the job.

use vstd::prelude::*;
use crate::config::Cli;
use crate::config::Commands;
use crate::config::Config;
use crate::error::ControlError;
use crate::level::nearest_percent;
use crate::level::reading_percent;
use crate::level::whole_percent;
use crate::level::Level;
use crate::level::POINT;
use crate::scheduler::Outcome;
use crate::text::decimal;
use crate::text::format_decimal;
use crate::text::format_signed;
use crate::text::signed_decimal;
use crate::text::texts;

verus! {

/// What the program is to do in this run.
#[derive(Clone, Copy, Debug, PartialEq, Eq, Structural)]
pub enum Job {
    /// Nothing: no subcommand was given.
    Nothing,
    /// Set the device to this level once.
    SetVolume(Level),
    /// Read the level of the device and show it.
    ShowVolume,
    /// Save this configuration and register the scheduled task for it.
    Install(Config),
    /// Remove the scheduled task if it is registered.
    Uninstall,
    /// Show the configuration and whether the task is registered.
    ShowConfig,
    /// Run the drift-correction loop for the configuration on file.
    Monitor,
}

/// What an uninstallation does once it knows whether the task is registered.
#[derive(Clone, Copy, Debug, PartialEq, Eq, Structural)]
pub enum UninstallStep {
    /// The task is not registered: say so and end.
    NothingToRemove,
    /// The task is registered: unregister it.
    Unregister,
}

/// Whether the command line holds a percentage above 100.
pub open spec fn out_of_range(cli: Cli) -> bool {
    match cli.command {
        Some(Commands::Volume { level: Some(percent) }) => percent > 100,
        Some(Commands::Install { volume, interval }) => volume > 100,
        _ => false,
    }
}

/// The level of a percentage, in millionths.
pub open spec fn percent_level(percent: u8) -> int {
    percent * POINT
}

/// Whether `job` is what the command line asks for.
pub open spec fn is_job_of(cli: Cli, job: Job) -> bool {
    match cli.command {
        None => job == Job::Nothing,
        Some(Commands::Volume { level: Some(percent) }) => job matches Job::SetVolume(level)
            && level@ == percent_level(percent),
        Some(Commands::Volume { level: None }) => job == Job::ShowVolume,
        Some(Commands::Install { volume, interval }) => job matches Job::Install(config)
            && config.target_volume@ == percent_level(volume) && config.run_interval_minutes
            == interval,
        Some(Commands::Uninstall) => job == Job::Uninstall,
        Some(Commands::Config) => job == Job::ShowConfig,
        Some(Commands::Monitor) => job == Job::Monitor,
    }
}

/// The line that reports a one-shot write of `percent` percent.
pub open spec fn volume_set_text(percent: nat) -> Seq<char> {
    "Microphone volume set to: "@ + decimal(percent) + "%"@
}

/// The line that reports a reading.
pub open spec fn current_volume_text(reading: int) -> Seq<char> {
    "Current microphone volume: "@ + signed_decimal(nearest_percent(reading)) + "%"@
}

/// The lines that announce an installation.
pub open spec fn install_banner_text(percent: nat, minutes: nat) -> Seq<Seq<char>> {
    seq![
        "Installing Windows Task Scheduler task..."@,
        "  Target volume: "@ + decimal(percent) + "%"@,
        "  Run interval: "@ + decimal(minutes) + " minutes"@,
    ]
}

/// The lines that report a finished installation.
pub open spec fn install_summary_text(percent: nat, minutes: nat) -> Seq<Seq<char>> {
    seq![
        ""@,
        "Task installed successfully!"@,
        "The task will:"@,
        "  - Run at login (after 1 minute delay)"@,
        "  - Repeat every "@ + decimal(minutes) + " minutes"@,
        "  - Set microphone volume to "@ + decimal(percent) + "%"@,
        ""@,
        "You can manage the task in Windows Task Scheduler."@,
    ]
}

/// The line that announces an uninstallation.
pub const UNINSTALL_BANNER: &'static str = "Uninstalling Windows Task Scheduler task...";

/// The line that is printed where there is no task to remove.
pub const NOT_INSTALLED: &'static str = "Task is not installed.";

/// The line that reports a finished uninstallation.
pub const UNINSTALLED: &'static str = "Task uninstalled successfully!";

/// The line that says whether the task is registered.
pub open spec fn task_status_text(registered: bool) -> Seq<char> {
    if registered {
        "Task Status: Installed"@
    } else {
        "Task Status: Not installed"@
    }
}

impl Cli {
    /// The job that this command line asks for. A percentage above 100 is
    /// refused with `InvalidRange`, before anything is done.
    pub fn job(&self) -> (r: Result<Job, ControlError>)
        ensures
            out_of_range(*self) ==> r == Err::<Job, ControlError>(ControlError::InvalidRange),
            !out_of_range(*self) ==> (r matches Ok(job) && is_job_of(*self, job)),
    {
        match self.command {
            None => Ok(Job::Nothing),
            Some(Commands::Volume { level: Some(percent) }) => {
                match Level::from_percent(percent) {
                    Ok(level) => Ok(Job::SetVolume(level)),
                    Err(error) => Err(error),
                }
            },
            Some(Commands::Volume { level: None }) => Ok(Job::ShowVolume),
            Some(Commands::Install { volume, interval }) => {
                match Level::from_percent(volume) {
                    Ok(level) => Ok(
                        Job::Install(
                            Config { target_volume: level, run_interval_minutes: interval },
                        ),
                    ),
                    Err(error) => Err(error),
                }
            },
            Some(Commands::Uninstall) => Ok(Job::Uninstall),
            Some(Commands::Config) => Ok(Job::ShowConfig),
            Some(Commands::Monitor) => Ok(Job::Monitor),
        }
    }

    /// The line that reports that the device was set to `level`; nothing
    /// where the command line asks for quiet.
    pub fn volume_set_line(&self, level: Level) -> (line: Option<String>)
        ensures
            self.quiet ==> line is None,
            !self.quiet ==> (line matches Some(text) && text@ == volume_set_text(
                whole_percent(level@) as nat,
            )),
    {
        if self.quiet {
            None
        } else {
            let mut text: String = String::from_str("Microphone volume set to: ");
            let number: String = format_decimal(level.percent() as u64);
            text.append(number.as_str());
            text.append("%");
            Some(text)
        }
    }

    /// The line that reports the reading of the device, in whole percent;
    /// nothing where the command line asks for quiet.
    pub fn current_volume_line(&self, reading: i64) -> (line: Option<String>)
        ensures
            self.quiet ==> line is None,
            !self.quiet ==> (line matches Some(text) && text@ == current_volume_text(
                reading as int,
            )),
    {
        if self.quiet {
            None
        } else {
            let mut text: String = String::from_str("Current microphone volume: ");
            let number: String = format_signed(reading_percent(reading));
            text.append(number.as_str());
            text.append("%");
            Some(text)
        }
    }
}

impl Job {
    /// What an uninstallation does after the query for the task: it goes on
    /// only if the query answered that the task is registered.
    pub fn after_status(status: Outcome) -> (step: UninstallStep)
        ensures
            step == (if status == Outcome::Status(true) {
                UninstallStep::Unregister
            } else {
                UninstallStep::NothingToRemove
            }),
    {
        match status {
            Outcome::Status(true) => UninstallStep::Unregister,
            _ => UninstallStep::NothingToRemove,
        }
    }

    /// The result of this run as far as the scheduler decides it: an
    /// operation that failed fails the run, every other outcome lets it pass.
    pub fn result_of(outcome: Outcome) -> (r: Result<(), ControlError>)
        ensures
            r == (match outcome {
                Outcome::Failed(error) => Err::<(), ControlError>(error),
                _ => Ok::<(), ControlError>(()),
            }),
    {
        match outcome {
            Outcome::Failed(error) => Err(error),
            _ => Ok(()),
        }
    }
}

/// The lines that announce the installation of `config`.
pub fn install_banner(config: &Config) -> (lines: Vec<String>)
    ensures
        texts(lines@) == install_banner_text(
            whole_percent(config.target_volume@) as nat,
            config.run_interval_minutes as nat,
        ),
{
    let percent: String = format_decimal(config.target_volume.percent() as u64);
    let minutes: String = format_decimal(config.run_interval_minutes as u64);
    let mut lines: Vec<String> = Vec::new();
    lines.push(String::from_str("Installing Windows Task Scheduler task..."));
    let mut target: String = String::from_str("  Target volume: ");
    target.append(percent.as_str());
    target.append("%");
    lines.push(target);
    let mut interval: String = String::from_str("  Run interval: ");
    interval.append(minutes.as_str());
    interval.append(" minutes");
    lines.push(interval);
    assert(texts(lines@) =~= install_banner_text(
        whole_percent(config.target_volume@) as nat,
        config.run_interval_minutes as nat,
    ));
    lines
}

/// The lines that report that the task for `config` is installed.
pub fn install_summary(config: &Config) -> (lines: Vec<String>)
    ensures
        texts(lines@) == install_summary_text(
            whole_percent(config.target_volume@) as nat,
            config.run_interval_minutes as nat,
        ),
{
    let percent: String = format_decimal(config.target_volume.percent() as u64);
    let minutes: String = format_decimal(config.run_interval_minutes as u64);
    let mut lines: Vec<String> = Vec::new();
    lines.push(String::from_str(""));
    lines.push(String::from_str("Task installed successfully!"));
    lines.push(String::from_str("The task will:"));
    lines.push(String::from_str("  - Run at login (after 1 minute delay)"));
    let mut repeat: String = String::from_str("  - Repeat every ");
    repeat.append(minutes.as_str());
    repeat.append(" minutes");
    lines.push(repeat);
    let mut set: String = String::from_str("  - Set microphone volume to ");
    set.append(percent.as_str());
    set.append("%");
    lines.push(set);
    lines.push(String::from_str(""));
    lines.push(String::from_str("You can manage the task in Windows Task Scheduler."));
    assert(texts(lines@) =~= install_summary_text(
        whole_percent(config.target_volume@) as nat,
        config.run_interval_minutes as nat,
    ));
    lines
}

/// The exit code of the process for the result of a run: 0 where it
/// succeeded, 1 where it failed, whatever the error.
pub fn exit_code<T, E>(outcome: &Result<T, E>) -> (code: i32)
    ensures
        code == (if outcome is Ok {
            0i32
        } else {
            1i32
        }),
{
    match outcome {
        Ok(_) => 0,
        Err(_) => 1,
    }
}

/// The line that says whether the task is registered.
pub fn task_status_line(registered: bool) -> (line: &'static str)
    ensures
        line@ == task_status_text(registered),
{
    if registered {
        "Task Status: Installed"
    } else {
        "Task Status: Not installed"
    }
}

} // verus!
