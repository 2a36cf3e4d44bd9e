use mic_volume_control::drift::CheckInterval;
use mic_volume_control::drift::DriftLoop;
use mic_volume_control::drift::LoopAction;
use mic_volume_control::drift::LoopEvent;
use mic_volume_control::drift::LoopPhase;
use mic_volume_control::drift::Note;
use mic_volume_control::drift::RunningFlag;
use mic_volume_control::drift::Severity;
use mic_volume_control::drift::Step;
use mic_volume_control::drift::DEFAULT_INTERVAL_MS;
use mic_volume_control::drift::MIN_INTERVAL_MS;
use mic_volume_control::level::Level;

fn level(raw: i64) -> Level {
    Level::new(raw).unwrap()
}

/// A loop that has levelled the device and stands at the start of a pass.
fn at_boundary(target: i64, millis: u64) -> DriftLoop {
    let mut drift_loop = DriftLoop::new(level(target), CheckInterval::from_millis(millis));
    let step = drift_loop.step(LoopEvent::Written);
    assert_eq!(step.action, LoopAction::CheckFlag);
    drift_loop
}

/// Runs the loop against a scripted device and returns the levels written
/// after startup, one list per pass.
fn writes_per_pass(target: i64, readings: &[Option<i64>]) -> Vec<Vec<u32>> {
    let mut drift_loop = DriftLoop::new(level(target), CheckInterval::from_millis(1_000));
    let mut action = drift_loop.pending();
    let mut passes: Vec<Vec<u32>> = Vec::new();
    let mut next_reading = 0;
    let mut started = false;
    loop {
        let event = match action {
            LoopAction::WriteLevel(written) => {
                if started {
                    passes.last_mut().unwrap().push(written.micros());
                }
                LoopEvent::Written
            }
            LoopAction::CheckFlag => {
                started = true;
                let running = next_reading < readings.len();
                if running {
                    passes.push(Vec::new());
                }
                LoopEvent::Flag(running)
            }
            LoopAction::ReadLevel => {
                let reading = readings[next_reading];
                next_reading += 1;
                match reading {
                    Some(current) => LoopEvent::Level(current),
                    None => LoopEvent::ReadFailed,
                }
            }
            LoopAction::Sleep(millis) => {
                assert_eq!(millis, 1_000);
                LoopEvent::Woke
            }
            LoopAction::Exit => break,
        };
        action = drift_loop.step(event).action;
    }
    assert!(drift_loop.is_stopped());
    passes
}

#[test]
fn intervals_have_a_minimum() {
    assert_eq!(MIN_INTERVAL_MS, 100);
    assert_eq!(CheckInterval::from_millis(0).millis(), 100);
    assert_eq!(CheckInterval::from_millis(99).millis(), 100);
    assert_eq!(CheckInterval::from_millis(100).millis(), 100);
    assert_eq!(CheckInterval::from_millis(101).millis(), 101);
    assert_eq!(CheckInterval::from_millis(u64::MAX).millis(), u64::MAX);
}

#[test]
fn intervals_from_minutes() {
    assert_eq!(CheckInterval::from_minutes(5).millis(), 300_000);
    assert_eq!(CheckInterval::from_minutes(1).millis(), 60_000);
    assert_eq!(CheckInterval::from_minutes(0).millis(), 100);
    assert_eq!(CheckInterval::from_minutes(u32::MAX).millis(), u32::MAX as u64 * 60_000);
}

#[test]
fn default_interval_is_five_minutes() {
    assert_eq!(DEFAULT_INTERVAL_MS, 300_000);
    assert_eq!(CheckInterval::default().millis(), 300_000);
    assert_eq!(CheckInterval::default(), CheckInterval::from_minutes(5));
}

#[test]
fn running_flag_goes_one_way() {
    let mut flag = RunningFlag::new();
    assert!(flag.is_running());
    flag.stop();
    assert!(!flag.is_running());
    flag.stop();
    assert!(!flag.is_running());
}

#[test]
fn loop_starts_with_the_write_of_the_target() {
    let drift_loop = DriftLoop::new(level(950_000), CheckInterval::from_millis(500));
    assert_eq!(drift_loop.phase(), LoopPhase::Leveling);
    assert_eq!(drift_loop.pending(), LoopAction::WriteLevel(level(950_000)));
    assert_eq!(drift_loop.target(), level(950_000));
    assert_eq!(drift_loop.interval().millis(), 500);
    assert!(!drift_loop.is_stopped());
}

#[test]
fn startup_write_leads_to_the_first_check() {
    let mut drift_loop = DriftLoop::new(level(950_000), CheckInterval::from_millis(500));
    let step = drift_loop.step(LoopEvent::Written);
    assert_eq!(
        step,
        Step { action: LoopAction::CheckFlag, note: Note::Leveled { target: level(950_000) } }
    );
    assert_eq!(drift_loop.phase(), LoopPhase::Checking);

    let mut drift_loop = DriftLoop::new(level(950_000), CheckInterval::from_millis(500));
    let step = drift_loop.step(LoopEvent::WriteFailed);
    assert_eq!(step, Step { action: LoopAction::CheckFlag, note: Note::LevelingFailed });
    assert_eq!(drift_loop.phase(), LoopPhase::Checking);
}

#[test]
fn drift_of_fifteen_points_is_corrected_with_one_write() {
    let mut drift_loop = at_boundary(950_000, 1_000);
    let step = drift_loop.step(LoopEvent::Flag(true));
    assert_eq!(step, Step { action: LoopAction::ReadLevel, note: Note::Quiet });
    let step = drift_loop.step(LoopEvent::Level(800_000));
    assert_eq!(
        step,
        Step { action: LoopAction::WriteLevel(level(950_000)), note: Note::Quiet }
    );
    assert_eq!(drift_loop.phase(), LoopPhase::Correcting { from: 800_000 });
    let step = drift_loop.step(LoopEvent::Written);
    assert_eq!(step.action, LoopAction::Sleep(1_000));
    assert_eq!(step.note, Note::Corrected { from: 800_000, target: level(950_000) });
    assert_eq!(step.note.severity(), Some(Severity::Info));
    assert_eq!(
        step.note.message(),
        "Volume drifted to 80%, corrected by 15 percentage points to 95%"
    );
    let step = drift_loop.step(LoopEvent::Woke);
    assert_eq!(step, Step { action: LoopAction::CheckFlag, note: Note::Quiet });

    assert_eq!(writes_per_pass(950_000, &[Some(800_000)]), vec![vec![950_000]]);
}

#[test]
fn reading_within_tolerance_is_left_alone() {
    let mut drift_loop = at_boundary(500_000, 1_000);
    drift_loop.step(LoopEvent::Flag(true));
    let step = drift_loop.step(LoopEvent::Level(505_000));
    assert_eq!(step.action, LoopAction::Sleep(1_000));
    assert_eq!(step.note, Note::Stable { current: 505_000 });
    assert_eq!(step.note.severity(), Some(Severity::Debug));
    assert_eq!(step.note.message(), "Volume stable at 51%");
    assert_eq!(drift_loop.phase(), LoopPhase::Sleeping);

    assert_eq!(writes_per_pass(500_000, &[Some(505_000)]), vec![Vec::<u32>::new()]);
}

#[test]
fn each_pass_writes_once_if_and_only_if_the_reading_drifted() {
    let readings = [
        Some(500_000),
        Some(510_000),
        Some(510_001),
        Some(489_999),
        Some(490_000),
        None,
        Some(0),
        Some(1_000_000),
        Some(-3),
        Some(2_000_000),
        Some(500_001),
    ];
    let expected: Vec<Vec<u32>> = vec![
        vec![],
        vec![],
        vec![500_000],
        vec![500_000],
        vec![],
        vec![],
        vec![500_000],
        vec![500_000],
        vec![500_000],
        vec![500_000],
        vec![],
    ];
    assert_eq!(writes_per_pass(500_000, &readings), expected);
}

#[test]
fn stable_readings_never_produce_a_write() {
    let readings = [Some(950_000); 50];
    let passes = writes_per_pass(950_000, &readings);
    assert_eq!(passes.len(), 50);
    assert!(passes.iter().all(|writes| writes.is_empty()));
}

#[test]
fn read_failure_is_absorbed() {
    let mut drift_loop = at_boundary(950_000, 250);
    drift_loop.step(LoopEvent::Flag(true));
    let step = drift_loop.step(LoopEvent::ReadFailed);
    assert_eq!(step, Step { action: LoopAction::Sleep(250), note: Note::ReadFailed });
    assert_eq!(step.note.severity(), Some(Severity::Error));
    assert_eq!(step.note.message(), "Failed to read volume");
    assert!(!drift_loop.is_stopped());
    let step = drift_loop.step(LoopEvent::Woke);
    assert_eq!(step.action, LoopAction::CheckFlag);
    let step = drift_loop.step(LoopEvent::Flag(true));
    assert_eq!(step.action, LoopAction::ReadLevel);
}

#[test]
fn write_failure_is_absorbed() {
    let mut drift_loop = at_boundary(950_000, 250);
    drift_loop.step(LoopEvent::Flag(true));
    drift_loop.step(LoopEvent::Level(100_000));
    let step = drift_loop.step(LoopEvent::WriteFailed);
    assert_eq!(
        step,
        Step { action: LoopAction::Sleep(250), note: Note::CorrectionFailed { from: 100_000 } }
    );
    assert_eq!(step.note.severity(), Some(Severity::Error));
    assert_eq!(step.note.message(), "Volume drifted to 10%, and the correction failed");
    assert!(!drift_loop.is_stopped());
}

#[test]
fn cleared_flag_ends_the_loop_at_the_boundary() {
    let mut drift_loop = at_boundary(950_000, 1_000);
    let step = drift_loop.step(LoopEvent::Flag(false));
    assert_eq!(step, Step { action: LoopAction::Exit, note: Note::Stopped });
    assert_eq!(step.note.severity(), Some(Severity::Info));
    assert_eq!(step.note.message(), "Volume monitoring stopped");
    assert!(drift_loop.is_stopped());
    assert_eq!(drift_loop.pending(), LoopAction::Exit);
}

#[test]
fn flag_is_only_looked_at_after_the_sleep() {
    let mut drift_loop = at_boundary(950_000, 1_000);
    drift_loop.step(LoopEvent::Flag(true));
    // The flag is cleared now, but the pass goes on to its end.
    let step = drift_loop.step(LoopEvent::Flag(false));
    assert_eq!(step, Step { action: LoopAction::ReadLevel, note: Note::Quiet });
    let step = drift_loop.step(LoopEvent::Level(950_000));
    assert_eq!(step.action, LoopAction::Sleep(1_000));
    let step = drift_loop.step(LoopEvent::Woke);
    assert_eq!(step.action, LoopAction::CheckFlag);
    let step = drift_loop.step(LoopEvent::Flag(false));
    assert_eq!(step.action, LoopAction::Exit);
}

#[test]
fn stopped_loop_never_acts_again() {
    let mut drift_loop = at_boundary(950_000, 1_000);
    drift_loop.step(LoopEvent::Flag(false));
    let events = [
        LoopEvent::Flag(true),
        LoopEvent::Level(0),
        LoopEvent::Written,
        LoopEvent::WriteFailed,
        LoopEvent::ReadFailed,
        LoopEvent::Woke,
        LoopEvent::Flag(false),
        LoopEvent::Level(950_000),
    ];
    for event in events {
        let step = drift_loop.step(event);
        assert_eq!(step, Step { action: LoopAction::Exit, note: Note::Quiet });
        assert!(drift_loop.is_stopped());
    }
}

#[test]
fn reports_that_are_not_waited_for_are_ignored() {
    let mut drift_loop = at_boundary(950_000, 1_000);
    for event in [LoopEvent::Level(0), LoopEvent::Written, LoopEvent::Woke, LoopEvent::ReadFailed]
    {
        let step = drift_loop.step(event);
        assert_eq!(step, Step { action: LoopAction::CheckFlag, note: Note::Quiet });
        assert_eq!(drift_loop.phase(), LoopPhase::Checking);
    }
    drift_loop.step(LoopEvent::Flag(true));
    let step = drift_loop.step(LoopEvent::Woke);
    assert_eq!(step, Step { action: LoopAction::ReadLevel, note: Note::Quiet });
    drift_loop.step(LoopEvent::Level(950_000));
    let step = drift_loop.step(LoopEvent::Level(0));
    assert_eq!(step, Step { action: LoopAction::Sleep(1_000), note: Note::Quiet });
    assert_eq!(drift_loop.phase(), LoopPhase::Sleeping);
}

#[test]
fn notes_are_worded() {
    assert_eq!(Note::Quiet.severity(), None);
    assert_eq!(Note::Quiet.message(), "");
    let note = Note::Leveled { target: level(950_000) };
    assert_eq!(note.severity(), Some(Severity::Info));
    assert_eq!(note.message(), "Volume set to 95% at startup");
    assert_eq!(Note::LevelingFailed.severity(), Some(Severity::Error));
    assert_eq!(Note::LevelingFailed.message(), "Failed to set volume at startup");
    let note = Note::Corrected { from: 1_200_000, target: level(1_000_000) };
    assert_eq!(
        note.message(),
        "Volume drifted to 120%, corrected by 20 percentage points to 100%"
    );
    let note = Note::Corrected { from: -20_000, target: level(0) };
    assert_eq!(note.message(), "Volume drifted to -2%, corrected by 2 percentage points to 0%");
    let note = Note::Stable { current: 0 };
    assert_eq!(note.message(), "Volume stable at 0%");
}
