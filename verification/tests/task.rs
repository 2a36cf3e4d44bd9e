use mic_volume_control::level::Level;
use mic_volume_control::script::launcher_arguments;
use mic_volume_control::script::launcher_script;
use mic_volume_control::script::APPLICATION;
use mic_volume_control::script::SCRIPT_FILE;
use mic_volume_control::script::SCRIPT_HOST;
use mic_volume_control::task::format_minutes;
use mic_volume_control::task::InstancesPolicy;
use mic_volume_control::task::LogonType;
use mic_volume_control::task::RunLevel;
use mic_volume_control::task::TaskDefinition;
use mic_volume_control::task::TaskSettings;
use mic_volume_control::task::Trigger;
use mic_volume_control::task::TASK_FOLDER;
use mic_volume_control::task::TASK_NAME;

#[test]
fn task_has_a_fixed_name() {
    assert_eq!(TASK_NAME, "MicrophoneVolumeControl");
    assert_eq!(TASK_FOLDER, "\\");
    assert_eq!(APPLICATION, "mic-volume-control");
    assert_eq!(SCRIPT_FILE, "run-silent.vbs");
    assert_eq!(SCRIPT_HOST, "wscript.exe");
}

#[test]
fn durations_in_minutes() {
    assert_eq!(format_minutes(5), "PT5M");
    assert_eq!(format_minutes(10), "PT10M");
    assert_eq!(format_minutes(0), "PT0M");
    assert_eq!(format_minutes(1440), "PT1440M");
    assert_eq!(format_minutes(u32::MAX), "PT4294967295M");
}

#[test]
fn definition_registration_info_and_principal() {
    let definition = TaskDefinition::volume_task("C:\\run.vbs", None, 10);
    assert_eq!(definition.author, "MicVolumeControl");
    assert_eq!(
        definition.description,
        "Automatically sets microphone volume to configured level"
    );
    assert_eq!(definition.principal.logon_type, LogonType::InteractiveToken);
    assert_eq!(definition.principal.run_level, RunLevel::Highest);
}

#[test]
fn definition_has_a_logon_and_a_periodic_trigger() {
    let definition = TaskDefinition::volume_task("C:\\run.vbs", None, 10);
    assert_eq!(
        definition.triggers,
        vec![
            Trigger::Logon { enabled: true, delay: String::from("PT1M") },
            Trigger::Periodic {
                enabled: true,
                start_boundary: String::from("2025-01-01T00:00:00"),
                interval: String::from("PT10M"),
                duration: String::new(),
            },
        ]
    );
    let definition = TaskDefinition::volume_task("C:\\run.vbs", None, 5);
    match &definition.triggers[1] {
        Trigger::Periodic { interval, duration, .. } => {
            assert_eq!(interval, "PT5M");
            assert_eq!(duration, "");
        }
        other => panic!("unexpected trigger: {:?}", other),
    }
}

#[test]
fn definition_runs_the_launcher_through_the_script_host() {
    let definition = TaskDefinition::volume_task(
        "C:\\Users\\me\\AppData\\Roaming\\mic-volume-control\\run-silent.vbs",
        Some(String::from("C:\\Program Files\\Mic")),
        10,
    );
    assert_eq!(definition.actions_context, "Author");
    assert_eq!(definition.action.path, "wscript.exe");
    assert_eq!(
        definition.action.arguments,
        "//B //Nologo \"C:\\Users\\me\\AppData\\Roaming\\mic-volume-control\\run-silent.vbs\""
    );
    assert_eq!(definition.action.working_directory, Some(String::from("C:\\Program Files\\Mic")));
    let definition = TaskDefinition::volume_task("x", None, 10);
    assert_eq!(definition.action.working_directory, None);
    assert_eq!(definition.action.arguments, "//B //Nologo \"x\"");
}

#[test]
fn definition_settings() {
    let settings = TaskDefinition::volume_task("C:\\run.vbs", None, 10).settings;
    assert!(settings.enabled);
    assert!(settings.start_when_available);
    assert!(!settings.disallow_start_if_on_batteries);
    assert!(!settings.stop_if_going_on_batteries);
    assert!(settings.allow_demand_start);
    assert_eq!(settings.execution_time_limit, "PT5M");
    assert_eq!(settings.multiple_instances, InstancesPolicy::IgnoreNew);
    assert!(settings.hidden);
    assert!(!settings.wake_to_run);
    assert_eq!(settings.priority, 7);
    assert_eq!(settings, TaskSettings::volume_task());
}

#[test]
fn launcher_script_text() {
    let target = Level::from_percent(95).unwrap();
    assert_eq!(
        launcher_script("C:\\Tools\\mic-volume-control.exe", target),
        "Set WshShell = CreateObject(\"WScript.Shell\")\nWshShell.Run \"\"\"C:\\Tools\\mic-volume-control.exe\"\" volume 95\", 0, True\n"
    );
    let expected = format!(
        r#"Set WshShell = CreateObject("WScript.Shell")
WshShell.Run """{}"" volume {}", 0, True
"#,
        "D:\\a b\\m.exe", 0
    );
    assert_eq!(launcher_script("D:\\a b\\m.exe", Level::new(0).unwrap()), expected);
}

#[test]
fn launcher_script_cuts_the_level_to_whole_percent() {
    assert!(launcher_script("m.exe", Level::new(959_999).unwrap()).contains(" volume 95\""));
    assert!(launcher_script("m.exe", Level::new(1_000_000).unwrap()).contains(" volume 100\""));
    assert!(launcher_script("m.exe", Level::new(9_999).unwrap()).contains(" volume 0\""));
}

#[test]
fn launcher_arguments_quote_the_path() {
    assert_eq!(launcher_arguments("C:\\a b\\run-silent.vbs"), "//B //Nologo \"C:\\a b\\run-silent.vbs\"");
    assert_eq!(launcher_arguments(""), "//B //Nologo \"\"");
}
