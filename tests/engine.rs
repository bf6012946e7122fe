use pomodorust::command::UserCommand;
use pomodorust::timer::{
    ConfigurationError, Phase, PhaseTransition, SessionConfig, TimerEngine, TimerSnapshot,
};

fn engine(work: u32, rest: u32) -> TimerEngine {
    TimerEngine::new(SessionConfig::new(work, rest).unwrap()).unwrap()
}

#[test]
fn new_engine_starts_at_work() {
    let e = engine(10, 5);
    assert_eq!(
        e.snapshot(),
        TimerSnapshot {
            phase: Phase::Work,
            elapsed_seconds: 0,
            total_for_phase: 10,
            paused: false,
            completed_work_sessions: 0,
        }
    );
    assert_eq!(e.timer_state().last_observed_second, None);
}

#[test]
fn zero_durations_are_refused() {
    assert_eq!(SessionConfig::new(0, 5), Err(ConfigurationError::NonPositiveDuration));
    assert_eq!(SessionConfig::new(5, 0), Err(ConfigurationError::NonPositiveDuration));
    let bad = SessionConfig { work_duration_seconds: 3, rest_duration_seconds: 0 };
    assert!(matches!(TimerEngine::new(bad), Err(ConfigurationError::NonPositiveDuration)));
}

#[test]
fn minutes_become_seconds() {
    assert_eq!(
        SessionConfig::from_minutes(25, 5),
        Ok(SessionConfig { work_duration_seconds: 1500, rest_duration_seconds: 300 })
    );
    assert_eq!(SessionConfig::from_minutes(0, 5), Err(ConfigurationError::NonPositiveDuration));
    assert_eq!(
        SessionConfig::from_minutes(u32::MAX / 60 + 1, 5),
        Err(ConfigurationError::DurationTooLong)
    );
    assert_eq!(
        SessionConfig::default(),
        SessionConfig { work_duration_seconds: 1500, rest_duration_seconds: 300 }
    );
}

#[test]
fn each_new_second_counts_once() {
    let mut e = engine(100, 5);
    for s in 0..70u32 {
        assert_eq!(e.on_tick(s % 60), None);
        assert_eq!(e.snapshot().elapsed_seconds, s + 1);
    }
}

#[test]
fn same_second_counts_once() {
    let mut e = engine(100, 5);
    assert_eq!(e.on_tick(7), None);
    assert_eq!(e.on_tick(7), None);
    assert_eq!(e.snapshot().elapsed_seconds, 1);
    assert_eq!(e.timer_state().last_observed_second, Some(7));
}

#[test]
fn work_of_two_seconds_flips_to_rest() {
    let mut e = engine(2, 5);
    assert_eq!(e.on_tick(0), None);
    assert_eq!(e.snapshot().elapsed_seconds, 1);
    assert_eq!(e.on_tick(1), Some(PhaseTransition { new_phase: Phase::Rest, chime: false }));
    assert_eq!(e.snapshot().phase, Phase::Rest);
    assert_eq!(e.snapshot().elapsed_seconds, 0);
    assert_eq!(e.snapshot().completed_work_sessions, 0);
    assert_eq!(e.on_tick(2), None);
    assert_eq!(e.snapshot().phase, Phase::Rest);
    assert_eq!(e.snapshot().elapsed_seconds, 1);
    assert_eq!(e.snapshot().completed_work_sessions, 0);
}

#[test]
fn paused_ticks_change_nothing() {
    let mut e = engine(10, 5);
    e.on_tick(0);
    e.toggle_pause();
    assert!(e.snapshot().paused);
    for s in 1..40u32 {
        assert_eq!(e.on_tick(s), None);
    }
    let snap = e.snapshot();
    assert_eq!(snap.elapsed_seconds, 1);
    assert_eq!(snap.phase, Phase::Work);
    assert_eq!(snap.completed_work_sessions, 0);
    e.toggle_pause();
    assert_eq!(e.on_tick(41), None);
    assert_eq!(e.snapshot().elapsed_seconds, 2);
}

#[test]
fn reset_returns_to_fresh_work() {
    let mut e = engine(2, 1);
    for s in 0..7u32 {
        e.on_tick(s);
    }
    e.toggle_pause();
    e.reset();
    let snap = e.snapshot();
    assert_eq!(snap.phase, Phase::Work);
    assert_eq!(snap.elapsed_seconds, 0);
    assert_eq!(snap.completed_work_sessions, 0);
    assert!(snap.paused);
}

#[test]
fn skip_does_not_complete_a_session() {
    let mut e = engine(10, 5);
    e.on_tick(0);
    e.skip_phase();
    assert_eq!(e.snapshot().phase, Phase::Rest);
    assert_eq!(e.snapshot().elapsed_seconds, 0);
    e.skip_phase();
    assert_eq!(e.snapshot().phase, Phase::Work);
    assert_eq!(e.snapshot().completed_work_sessions, 0);
}

#[test]
fn adjust_is_held_inside_the_phase() {
    let mut e = engine(100, 5);
    e.adjust_elapsed(30);
    assert_eq!(e.snapshot().elapsed_seconds, 30);
    e.adjust_elapsed(1000);
    assert_eq!(e.snapshot().elapsed_seconds, 99);
    assert_eq!(e.snapshot().phase, Phase::Work);
    e.adjust_elapsed(-5);
    assert_eq!(e.snapshot().elapsed_seconds, 94);
    e.adjust_elapsed(i32::MIN);
    assert_eq!(e.snapshot().elapsed_seconds, 0);
    e.adjust_elapsed(i32::MAX);
    assert_eq!(e.snapshot().elapsed_seconds, 99);
    assert_eq!(e.on_tick(0), Some(PhaseTransition { new_phase: Phase::Rest, chime: false }));
}

#[test]
fn work_then_rest_then_work_counts_a_session() {
    let mut e = engine(2, 1);
    assert_eq!(e.on_tick(0), None);
    assert_eq!(e.on_tick(1), Some(PhaseTransition { new_phase: Phase::Rest, chime: false }));
    assert_eq!(e.snapshot().elapsed_seconds, 0);
    assert_eq!(e.on_tick(2), Some(PhaseTransition { new_phase: Phase::Work, chime: true }));
    assert_eq!(e.snapshot().completed_work_sessions, 1);
    assert_eq!(e.on_tick(3), None);
    assert_eq!(e.on_tick(4), Some(PhaseTransition { new_phase: Phase::Rest, chime: false }));
    assert_eq!(e.snapshot().completed_work_sessions, 1);
}

#[test]
fn keys_map_to_commands() {
    assert_eq!(UserCommand::from_key(' '), Some(UserCommand::TogglePause));
    assert_eq!(UserCommand::from_key('q'), Some(UserCommand::Quit));
    assert_eq!(UserCommand::from_key('r'), Some(UserCommand::Reset));
    assert_eq!(UserCommand::from_key('n'), Some(UserCommand::SkipPhase));
    assert_eq!(UserCommand::from_key('h'), Some(UserCommand::DecreaseMinute));
    assert_eq!(UserCommand::from_key('l'), Some(UserCommand::IncreaseMinute));
    assert_eq!(UserCommand::from_key('x'), None);
}

#[test]
fn commands_drive_the_engine() {
    let mut e = engine(600, 300);
    assert!(!e.apply_command(UserCommand::IncreaseMinute));
    assert_eq!(e.snapshot().elapsed_seconds, 60);
    assert!(!e.apply_command(UserCommand::DecreaseMinute));
    assert!(!e.apply_command(UserCommand::DecreaseMinute));
    assert_eq!(e.snapshot().elapsed_seconds, 0);
    assert!(!e.apply_command(UserCommand::SkipPhase));
    assert_eq!(e.snapshot().phase, Phase::Rest);
    assert!(!e.apply_command(UserCommand::TogglePause));
    assert!(e.snapshot().paused);
    assert!(!e.apply_command(UserCommand::Reset));
    assert_eq!(e.snapshot().phase, Phase::Work);
    assert!(e.apply_command(UserCommand::Quit));
    assert!(e.snapshot().paused);
}
