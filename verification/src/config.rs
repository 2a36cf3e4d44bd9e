//! The command line and the configuration record.
//!
//! The host parses the command line and reads the configuration file; what
//! it finds arrives here as plain values. A level passes this boundary only
//! if it lies in `[0.0, 1.0]`.

use vstd::prelude::*;
use crate::drift::effective_interval;
use crate::drift::CheckInterval;
use crate::drift::DriftLoop;
use crate::drift::LoopPhase;
use crate::error::ControlError;
use crate::level::in_range;
use crate::level::Level;
use crate::level::nearest_percent;
use crate::text::decimal;
use crate::text::format_decimal;
use crate::text::texts;

verus! {

/// The file name of the configuration below the program's directory.
pub const CONFIG_FILE: &'static str = "config.toml";

/// The target where none is configured: 0.95, in millionths.
pub const DEFAULT_VOLUME: i64 = 950_000;

/// The run interval where none is configured, in minutes.
pub const DEFAULT_INTERVAL: u32 = 5;

/// The command line.
#[derive(Clone, Copy, Debug, PartialEq, Eq, Structural)]
pub struct Cli {
    /// Suppress the messages about the volume.
    pub quiet: bool,
    /// The subcommand, if one was given.
    pub command: Option<Commands>,
}

/// The subcommands.
#[derive(Clone, Copy, Debug, PartialEq, Eq, Structural)]
pub enum Commands {
    /// Set the volume to `level` percent, or show it where no level is given.
    Volume { level: Option<u8> },
    /// Install the scheduled task for `volume` percent, run every `interval` minutes.
    Install { volume: u8, interval: u32 },
    /// Remove the scheduled task.
    Uninstall,
    /// Show the configuration and whether the task is installed.
    Config,
    /// Keep the device at the configured level until the program is told to quit.
    Monitor,
}

/// The configuration record.
#[derive(Clone, Copy, Debug, PartialEq, Eq, Structural)]
pub struct Config {
    /// The level that the device is kept at.
    pub target_volume: Level,
    /// The minutes between two runs of the scheduled task.
    pub run_interval_minutes: u32,
}

/// The target where none is configured.
pub fn default_volume() -> (level: Level)
    ensures
        level@ == DEFAULT_VOLUME,
        level.wf(),
{
    match Level::new(DEFAULT_VOLUME) {
        Ok(level) => level,
        Err(_) => unreached(),
    }
}

/// The run interval where none is configured.
pub fn default_interval() -> (minutes: u32)
    ensures
        minutes == DEFAULT_INTERVAL,
{
    DEFAULT_INTERVAL
}

impl Default for Config {
    /// The configuration where nothing is configured.
    fn default() -> (config: Config)
        ensures
            config.target_volume@ == DEFAULT_VOLUME,
            config.run_interval_minutes == DEFAULT_INTERVAL,
    {
        Config { target_volume: default_volume(), run_interval_minutes: default_interval() }
    }
}

/// The lines that show a configuration: the target in whole percent and the
/// run interval, and after an empty line the path of the file, if it is known.
pub open spec fn config_lines(
    percent: nat,
    minutes: nat,
    path: Option<Seq<char>>,
) -> Seq<Seq<char>> {
    let lines = seq![
        "Current Configuration:"@,
        "  Target Volume: "@ + decimal(percent) + "%"@,
        "  Run Interval: "@ + decimal(minutes) + " minutes"@,
    ];
    match path {
        Some(path) => lines + seq![""@, "Config file: "@ + path],
        None => lines,
    }
}

/// The characters of an optional path.
pub open spec fn optional_path(path: Option<&str>) -> Option<Seq<char>> {
    match path {
        Some(path) => Some(path@),
        None => None,
    }
}

impl Config {
    /// The configuration that a file holds. A field that the file does not
    /// hold takes its default. A target outside `[0.0, 1.0]` is refused.
    pub fn from_fields(target_volume: Option<i64>, run_interval_minutes: Option<u32>) -> (r:
        Result<Config, ControlError>)
        ensures
            match target_volume {
                Some(raw) if !in_range(raw as int) => r == Err::<Config, ControlError>(
                    ControlError::InvalidRange,
                ),
                _ => r matches Ok(config) && config.target_volume@ == (match target_volume {
                    Some(raw) => raw as int,
                    None => DEFAULT_VOLUME as int,
                }) && config.run_interval_minutes == (match run_interval_minutes {
                    Some(minutes) => minutes,
                    None => DEFAULT_INTERVAL,
                }),
            },
    {
        let target: Level = match target_volume {
            Some(raw) => match Level::new(raw) {
                Ok(level) => level,
                Err(error) => {
                    return Err(error);
                },
            },
            None => default_volume(),
        };
        let minutes: u32 = match run_interval_minutes {
            Some(minutes) => minutes,
            None => default_interval(),
        };
        Ok(Config { target_volume: target, run_interval_minutes: minutes })
    }

    /// The drift-correction loop for this configuration: it keeps the
    /// configured target and makes a pass every run interval. It has not
    /// begun yet: its first action is the startup write.
    pub fn drift_loop(&self) -> (drift_loop: DriftLoop)
        ensures
            drift_loop@.target == self.target_volume,
            drift_loop@.interval@ == effective_interval(self.run_interval_minutes * 60_000),
            drift_loop@.phase == LoopPhase::Leveling,
            drift_loop@.wf(),
    {
        let interval = CheckInterval::from_minutes(self.run_interval_minutes);
        let target = self.target_volume;
        let _ = target.micros();
        DriftLoop::new(target, interval)
    }

    /// The lines that show this configuration, and the path of its file if
    /// the host could determine it.
    pub fn display(&self, path: Option<&str>) -> (lines: Vec<String>)
        ensures
            texts(lines@) == config_lines(
                nearest_percent(self.target_volume@) as nat,
                self.run_interval_minutes as nat,
                optional_path(path),
            ),
    {
        let mut lines: Vec<String> = Vec::new();
        lines.push(String::from_str("Current Configuration:"));
        let mut target: String = String::from_str("  Target Volume: ");
        let percent: String = format_decimal(self.target_volume.rounded_percent() as u64);
        target.append(percent.as_str());
        target.append("%");
        lines.push(target);
        let mut interval: String = String::from_str("  Run Interval: ");
        let minutes: String = format_decimal(self.run_interval_minutes as u64);
        interval.append(minutes.as_str());
        interval.append(" minutes");
        lines.push(interval);
        match path {
            Some(path) => {
                lines.push(String::from_str(""));
                let mut file: String = String::from_str("Config file: ");
                file.append(path);
                lines.push(file);
            },
            None => {},
        }
        assert(texts(lines@) =~= config_lines(
            nearest_percent(self.target_volume@) as nat,
            self.run_interval_minutes as nat,
            optional_path(path),
        ));
        lines
    }
}

} // verus!
