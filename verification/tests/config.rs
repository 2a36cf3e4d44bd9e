use mic_volume_control::config::default_interval;
use mic_volume_control::config::default_volume;
use mic_volume_control::config::Cli;
use mic_volume_control::config::Commands;
use mic_volume_control::config::Config;
use mic_volume_control::config::CONFIG_FILE;
use mic_volume_control::config::DEFAULT_INTERVAL;
use mic_volume_control::config::DEFAULT_VOLUME;
use mic_volume_control::drift::LoopAction;
use mic_volume_control::error::ControlError;
use mic_volume_control::level::Level;
use mic_volume_control::scheduler::Outcome;
use mic_volume_control::error::SchedulerFault;
use mic_volume_control::supervisor::exit_code;
use mic_volume_control::supervisor::install_banner;
use mic_volume_control::supervisor::install_summary;
use mic_volume_control::supervisor::task_status_line;
use mic_volume_control::supervisor::Job;
use mic_volume_control::supervisor::UninstallStep;
use mic_volume_control::supervisor::NOT_INSTALLED;
use mic_volume_control::supervisor::UNINSTALLED;
use mic_volume_control::supervisor::UNINSTALL_BANNER;

/// The scalar of a level, as the host hands it to the device and to the file.
fn scalar(level: Level) -> f32 {
    level.micros() as f32 / 1_000_000.0
}

/// The level of a scalar in millionths, as the host converts it.
fn to_micros(scalar: f64) -> i64 {
    (scalar * 1_000_000.0).round() as i64
}

/// Reads a configuration file as the host does: the file is parsed as TOML,
/// and the fields that it holds are handed to the library.
fn parse(text: &str) -> Result<Config, ControlError> {
    let table: toml::Table = toml::from_str(text).unwrap();
    let target = table.get("target_volume").map(|value| to_micros(value.as_float().unwrap()));
    let interval =
        table.get("run_interval_minutes").map(|value| value.as_integer().unwrap() as u32);
    Config::from_fields(target, interval)
}

/// Writes a configuration file as the host does.
fn write(config: &Config) -> String {
    let mut table = toml::Table::new();
    table.insert(
        String::from("target_volume"),
        toml::Value::Float(scalar(config.target_volume) as f64),
    );
    table.insert(
        String::from("run_interval_minutes"),
        toml::Value::Integer(config.run_interval_minutes as i64),
    );
    toml::to_string(&table).unwrap()
}

fn cli(command: Option<Commands>) -> Cli {
    Cli { quiet: false, command }
}

#[test]
fn test_default_config() {
    let config = Config::default();
    assert_eq!(scalar(config.target_volume), 0.95);
    assert_eq!(config.run_interval_minutes, 5);
}

#[test]
fn test_toml_serialization() {
    let config = Config::default();
    let serialized = write(&config);
    let deserialized: Config = parse(&serialized).unwrap();

    assert_eq!(scalar(config.target_volume), scalar(deserialized.target_volume));
    assert_eq!(config.run_interval_minutes, deserialized.run_interval_minutes);
}

#[test]
fn test_partial_config() {
    // Config with only target_volume (old format)
    let partial = "target_volume = 0.8";
    let config: Config = parse(partial).unwrap();
    assert_eq!(scalar(config.target_volume), 0.8);
    assert_eq!(config.run_interval_minutes, 5); // default value

    // Empty config
    let empty = "";
    let config: Config = parse(empty).unwrap();
    assert_eq!(scalar(config.target_volume), 0.95); // default value
    assert_eq!(config.run_interval_minutes, 5); // default value
}

#[test]
fn defaults() {
    assert_eq!(DEFAULT_VOLUME, 950_000);
    assert_eq!(DEFAULT_INTERVAL, 5);
    assert_eq!(default_volume().micros(), 950_000);
    assert_eq!(default_interval(), 5);
    assert_eq!(CONFIG_FILE, "config.toml");
    assert_eq!(Config::default(), Config::from_fields(None, None).unwrap());
}

#[test]
fn fields_that_are_given_are_taken() {
    let config = Config::from_fields(Some(800_000), Some(10)).unwrap();
    assert_eq!(config.target_volume.micros(), 800_000);
    assert_eq!(config.run_interval_minutes, 10);
    let config = Config::from_fields(None, Some(0)).unwrap();
    assert_eq!(config.target_volume.micros(), 950_000);
    assert_eq!(config.run_interval_minutes, 0);
    let config = Config::from_fields(Some(0), None).unwrap();
    assert_eq!(config.target_volume.micros(), 0);
    assert_eq!(config.run_interval_minutes, 5);
    let config = Config::from_fields(Some(1_000_000), Some(u32::MAX)).unwrap();
    assert_eq!(config.target_volume.micros(), 1_000_000);
    assert_eq!(config.run_interval_minutes, u32::MAX);
}

#[test]
fn configured_level_outside_the_range_is_refused() {
    assert_eq!(Config::from_fields(Some(1_000_001), Some(10)), Err(ControlError::InvalidRange));
    assert_eq!(Config::from_fields(Some(-1), None), Err(ControlError::InvalidRange));
    assert_eq!(parse("target_volume = 1.5"), Err(ControlError::InvalidRange));
    assert_eq!(parse("target_volume = -0.1\nrun_interval_minutes = 3"), Err(ControlError::InvalidRange));
}

#[test]
fn unknown_fields_are_passed_over() {
    let config = parse("check_interval_ms = 1000\ntarget_volume = 0.5\n").unwrap();
    assert_eq!(config.target_volume.micros(), 500_000);
    assert_eq!(config.run_interval_minutes, 5);
}

#[test]
fn configuration_is_shown_in_lines() {
    let config = Config::default();
    assert_eq!(
        config.display(Some("C:\\Users\\me\\AppData\\Roaming\\mic-volume-control\\config.toml")),
        vec![
            "Current Configuration:",
            "  Target Volume: 95%",
            "  Run Interval: 5 minutes",
            "",
            "Config file: C:\\Users\\me\\AppData\\Roaming\\mic-volume-control\\config.toml",
        ]
    );
    let config = Config::from_fields(Some(504_999), Some(120)).unwrap();
    assert_eq!(
        config.display(None),
        vec!["Current Configuration:", "  Target Volume: 50%", "  Run Interval: 120 minutes"]
    );
}

#[test]
fn no_command_is_no_job() {
    assert_eq!(cli(None).job(), Ok(Job::Nothing));
}

#[test]
fn volume_with_a_level_sets_it() {
    let job = cli(Some(Commands::Volume { level: Some(95) })).job();
    assert_eq!(job, Ok(Job::SetVolume(Level::new(950_000).unwrap())));
    let job = cli(Some(Commands::Volume { level: Some(0) })).job();
    assert_eq!(job, Ok(Job::SetVolume(Level::new(0).unwrap())));
    let job = cli(Some(Commands::Volume { level: Some(100) })).job();
    assert_eq!(job, Ok(Job::SetVolume(Level::new(1_000_000).unwrap())));
}

#[test]
fn volume_without_a_level_shows_it() {
    assert_eq!(cli(Some(Commands::Volume { level: None })).job(), Ok(Job::ShowVolume));
}

#[test]
fn percentages_above_a_hundred_are_refused() {
    let job = cli(Some(Commands::Volume { level: Some(101) })).job();
    assert_eq!(job, Err(ControlError::InvalidRange));
    let job = cli(Some(Commands::Install { volume: 200, interval: 5 })).job();
    assert_eq!(job, Err(ControlError::InvalidRange));
}

#[test]
fn install_carries_its_configuration() {
    let job = cli(Some(Commands::Install { volume: 90, interval: 10 })).job();
    let expected = Config::from_fields(Some(900_000), Some(10)).unwrap();
    assert_eq!(job, Ok(Job::Install(expected)));
}

#[test]
fn monitor_runs_the_loop_for_the_configuration() {
    assert_eq!(cli(Some(Commands::Monitor)).job(), Ok(Job::Monitor));
    let config = Config::from_fields(Some(900_000), Some(2)).unwrap();
    let drift_loop = config.drift_loop();
    assert_eq!(drift_loop.target().micros(), 900_000);
    assert_eq!(drift_loop.interval().millis(), 120_000);
    assert_eq!(drift_loop.pending(), LoopAction::WriteLevel(Level::new(900_000).unwrap()));
    let drift_loop = Config::default().drift_loop();
    assert_eq!(drift_loop.target().micros(), 950_000);
    assert_eq!(drift_loop.interval().millis(), 300_000);
    let drift_loop = Config::from_fields(None, Some(0)).unwrap().drift_loop();
    assert_eq!(drift_loop.interval().millis(), 100);
}

#[test]
fn uninstall_and_config() {
    assert_eq!(cli(Some(Commands::Uninstall)).job(), Ok(Job::Uninstall));
    assert_eq!(cli(Some(Commands::Config)).job(), Ok(Job::ShowConfig));
    let quiet = Cli { quiet: true, command: Some(Commands::Uninstall) };
    assert_eq!(quiet.job(), Ok(Job::Uninstall));
}

#[test]
fn volume_lines() {
    let loud = cli(None);
    let quiet = Cli { quiet: true, command: None };
    let level = Level::from_percent(95).unwrap();
    assert_eq!(loud.volume_set_line(level), Some(String::from("Microphone volume set to: 95%")));
    assert_eq!(quiet.volume_set_line(level), None);
    assert_eq!(
        loud.current_volume_line(800_000),
        Some(String::from("Current microphone volume: 80%"))
    );
    assert_eq!(
        loud.current_volume_line(804_999),
        Some(String::from("Current microphone volume: 80%"))
    );
    assert_eq!(
        loud.current_volume_line(805_000),
        Some(String::from("Current microphone volume: 81%"))
    );
    assert_eq!(
        loud.current_volume_line(-20_000),
        Some(String::from("Current microphone volume: -2%"))
    );
    assert_eq!(quiet.current_volume_line(800_000), None);
}

#[test]
fn install_lines() {
    let config = Config::from_fields(Some(900_000), Some(10)).unwrap();
    assert_eq!(
        install_banner(&config),
        vec![
            "Installing Windows Task Scheduler task...",
            "  Target volume: 90%",
            "  Run interval: 10 minutes",
        ]
    );
    assert_eq!(
        install_summary(&config),
        vec![
            "",
            "Task installed successfully!",
            "The task will:",
            "  - Run at login (after 1 minute delay)",
            "  - Repeat every 10 minutes",
            "  - Set microphone volume to 90%",
            "",
            "You can manage the task in Windows Task Scheduler.",
        ]
    );
}

#[test]
fn uninstall_lines() {
    assert_eq!(UNINSTALL_BANNER, "Uninstalling Windows Task Scheduler task...");
    assert_eq!(NOT_INSTALLED, "Task is not installed.");
    assert_eq!(UNINSTALLED, "Task uninstalled successfully!");
}

#[test]
fn status_line() {
    assert_eq!(task_status_line(true), "Task Status: Installed");
    assert_eq!(task_status_line(false), "Task Status: Not installed");
}

#[test]
fn uninstall_goes_on_only_for_a_registered_task() {
    assert_eq!(Job::after_status(Outcome::Status(true)), UninstallStep::Unregister);
    assert_eq!(Job::after_status(Outcome::Status(false)), UninstallStep::NothingToRemove);
    assert_eq!(Job::after_status(Outcome::Registered), UninstallStep::NothingToRemove);
    assert_eq!(Job::after_status(Outcome::Unregistered), UninstallStep::NothingToRemove);
    assert_eq!(
        Job::after_status(Outcome::Failed(ControlError::InvalidRange)),
        UninstallStep::NothingToRemove
    );
}

#[test]
fn failed_operations_fail_the_run() {
    assert_eq!(Job::result_of(Outcome::Registered), Ok(()));
    assert_eq!(Job::result_of(Outcome::Unregistered), Ok(()));
    assert_eq!(Job::result_of(Outcome::Status(false)), Ok(()));
    assert_eq!(Job::result_of(Outcome::Status(true)), Ok(()));
    let error = ControlError::SchedulerServiceError(SchedulerFault::Registration);
    assert_eq!(Job::result_of(Outcome::Failed(error)), Err(error));
    assert_eq!(exit_code(&Job::result_of(Outcome::Failed(error))), 1);
    assert_eq!(exit_code(&Job::result_of(Outcome::Registered)), 0);
}
