use vstd::prelude::*;
use crate::command::{command_state, UserCommand};

verus! {

/// Number of seconds in one minute.
pub const SECONDS_PER_MINUTE: u32 = 60;

/// Length of a work phase, in minutes, when nothing else is configured.
pub const DEFAULT_WORK_MINUTES: u32 = 25;

/// Length of a rest phase, in minutes, when nothing else is configured.
pub const DEFAULT_REST_MINUTES: u32 = 5;

/// The interval the timer is counting within.
#[derive(Clone, Copy, Debug, PartialEq, Eq, Structural)]
pub enum Phase {
    Work,
    Rest,
}

/// The phase that follows `p`.
pub open spec fn other_phase(p: Phase) -> Phase {
    match p {
        Phase::Work => Phase::Rest,
        Phase::Rest => Phase::Work,
    }
}

impl Phase {
    /// The phase that follows this one: work gives way to rest and back.
    pub fn other(self) -> (r: Phase)
        ensures
            r == other_phase(self),
    {
        match self {
            Phase::Work => Phase::Rest,
            Phase::Rest => Phase::Work,
        }
    }
}

/// Why a configuration was refused.
#[derive(Clone, Copy, Debug, PartialEq, Eq, Structural)]
pub enum ConfigurationError {
    /// A phase was given a length of zero.
    NonPositiveDuration,
    /// A length in minutes does not fit in a `u32` count of seconds.
    DurationTooLong,
}

/// The lengths of the two phases, in seconds.
#[derive(Clone, Copy, Debug, PartialEq, Eq, Structural)]
pub struct SessionConfig {
    pub work_duration_seconds: u32,
    pub rest_duration_seconds: u32,
}

impl SessionConfig {
    /// Both phases last at least one second.
    pub open spec fn wf(self) -> bool {
        self.work_duration_seconds > 0 && self.rest_duration_seconds > 0
    }

    /// The configured length of phase `p`.
    pub open spec fn duration_spec(self, p: Phase) -> u32 {
        match p {
            Phase::Work => self.work_duration_seconds,
            Phase::Rest => self.rest_duration_seconds,
        }
    }

    /// A configuration with the given lengths in seconds; both must be positive.
    pub fn new(work_duration_seconds: u32, rest_duration_seconds: u32) -> (r: Result<
        SessionConfig,
        ConfigurationError,
    >)
        ensures
            r is Ok <==> work_duration_seconds > 0 && rest_duration_seconds > 0,
            r matches Ok(c) ==> c.wf() && c.work_duration_seconds == work_duration_seconds
                && c.rest_duration_seconds == rest_duration_seconds,
            r matches Err(e) ==> e == ConfigurationError::NonPositiveDuration,
    {
        if work_duration_seconds == 0 || rest_duration_seconds == 0 {
            Err(ConfigurationError::NonPositiveDuration)
        } else {
            Ok(SessionConfig { work_duration_seconds, rest_duration_seconds })
        }
    }

    /// A configuration with the given lengths in whole minutes.
    pub fn from_minutes(work_minutes: u32, rest_minutes: u32) -> (r: Result<
        SessionConfig,
        ConfigurationError,
    >)
        ensures
            r is Ok <==> work_minutes > 0 && rest_minutes > 0 && work_minutes * 60 <= u32::MAX
                && rest_minutes * 60 <= u32::MAX,
            r matches Ok(c) ==> c.wf() && c.work_duration_seconds == work_minutes * 60
                && c.rest_duration_seconds == rest_minutes * 60,
            r == Err::<SessionConfig, _>(ConfigurationError::NonPositiveDuration) <==> (
            work_minutes == 0 || rest_minutes == 0),
            r == Err::<SessionConfig, _>(ConfigurationError::DurationTooLong) <==> (work_minutes
                > 0 && rest_minutes > 0 && (work_minutes * 60 > u32::MAX || rest_minutes * 60
                > u32::MAX)),
    {
        if work_minutes == 0 || rest_minutes == 0 {
            return Err(ConfigurationError::NonPositiveDuration);
        }
        let work = work_minutes.checked_mul(SECONDS_PER_MINUTE);
        let rest = rest_minutes.checked_mul(SECONDS_PER_MINUTE);
        match (work, rest) {
            (Some(w), Some(r)) => Ok(SessionConfig { work_duration_seconds: w, rest_duration_seconds: r }),
            _ => Err(ConfigurationError::DurationTooLong),
        }
    }

    /// The configured length of phase `p`, in seconds.
    pub fn duration_for(&self, p: Phase) -> (r: u32)
        ensures
            r == self.duration_spec(p),
    {
        match p {
            Phase::Work => self.work_duration_seconds,
            Phase::Rest => self.rest_duration_seconds,
        }
    }
}

impl Default for SessionConfig {
    /// Twenty-five minutes of work, five of rest.
    fn default() -> (r: SessionConfig)
        ensures
            r.wf(),
            r.work_duration_seconds == DEFAULT_WORK_MINUTES * 60,
            r.rest_duration_seconds == DEFAULT_REST_MINUTES * 60,
    {
        SessionConfig {
            work_duration_seconds: DEFAULT_WORK_MINUTES * SECONDS_PER_MINUTE,
            rest_duration_seconds: DEFAULT_REST_MINUTES * SECONDS_PER_MINUTE,
        }
    }
}

/// The mutable state of the timer.
#[derive(Clone, Copy, Debug)]
pub struct TimerState {
    pub phase: Phase,
    /// Seconds spent in the current phase.
    pub elapsed_seconds: u32,
    pub paused: bool,
    /// Work phases completed since start or the last reset.
    pub completed_work_sessions: u32,
    /// The second-of-minute of the last counted tick, so that several
    /// ticks within one wall-clock second count once.
    pub last_observed_second: Option<u32>,
}

/// What a tick reports when it ends a phase.
#[derive(Clone, Copy, Debug, PartialEq, Eq, Structural)]
pub struct PhaseTransition {
    /// The phase that has just begun.
    pub new_phase: Phase,
    /// Whether the completion chime should play.
    pub chime: bool,
}

/// A read-only copy of the engine's state for presentation.
#[derive(Clone, Copy, Debug, PartialEq, Eq, Structural)]
pub struct TimerSnapshot {
    pub phase: Phase,
    pub elapsed_seconds: u32,
    /// The configured length of the current phase.
    pub total_for_phase: u32,
    pub paused: bool,
    pub completed_work_sessions: u32,
}

/// The state every engine starts from.
pub open spec fn initial_state() -> TimerState {
    TimerState {
        phase: Phase::Work,
        elapsed_seconds: 0,
        paused: false,
        completed_work_sessions: 0,
        last_observed_second: None,
    }
}

/// A valid configuration, and a state inside its current phase.
pub open spec fn consistent(cfg: SessionConfig, s: TimerState) -> bool {
    cfg.wf() && s.elapsed_seconds < cfg.duration_spec(s.phase)
}

/// One more completed session, held at the largest `u32`.
pub open spec fn bumped(n: u32) -> u32 {
    if n < u32::MAX {
        (n + 1) as u32
    } else {
        n
    }
}

/// Whether a tick at `second` counts: the timer runs and the second is new.
pub open spec fn counts_tick(s: TimerState, second: u32) -> bool {
    !s.paused && s.last_observed_second != Some(second)
}

/// The state after a tick at second-of-minute `second`.
pub open spec fn tick_state(cfg: SessionConfig, s: TimerState, second: u32) -> TimerState {
    if !counts_tick(s, second) {
        s
    } else if s.elapsed_seconds + 1 >= cfg.duration_spec(s.phase) {
        let next = other_phase(s.phase);
        TimerState {
            phase: next,
            elapsed_seconds: 0,
            completed_work_sessions: if next == Phase::Work {
                bumped(s.completed_work_sessions)
            } else {
                s.completed_work_sessions
            },
            last_observed_second: Some(second),
            ..s
        }
    } else {
        TimerState {
            elapsed_seconds: (s.elapsed_seconds + 1) as u32,
            last_observed_second: Some(second),
            ..s
        }
    }
}

/// What a tick at `second` reports.
pub open spec fn tick_result(cfg: SessionConfig, s: TimerState, second: u32) -> Option<
    PhaseTransition,
> {
    if counts_tick(s, second) && s.elapsed_seconds + 1 >= cfg.duration_spec(s.phase) {
        let next = other_phase(s.phase);
        Some(PhaseTransition { new_phase: next, chime: next == Phase::Work })
    } else {
        None
    }
}

/// The state with the pause flag flipped.
pub open spec fn toggled(s: TimerState) -> TimerState {
    TimerState { paused: !s.paused, ..s }
}

/// The state with `delta` seconds added to the elapsed count, held inside
/// the current phase of configuration `cfg`.
pub open spec fn adjusted(cfg: SessionConfig, s: TimerState, delta: int) -> TimerState {
    TimerState {
        elapsed_seconds: clamp(s.elapsed_seconds + delta, 0, cfg.duration_spec(s.phase) - 1) as u32,
        ..s
    }
}

/// `v` held inside `[lo, hi]`.
pub open spec fn clamp(v: int, lo: int, hi: int) -> int {
    if v < lo {
        lo
    } else if v > hi {
        hi
    } else {
        v
    }
}

/// Owns a configuration and the timer state, and applies ticks and commands.
pub struct TimerEngine {
    config: SessionConfig,
    state: TimerState,
}

impl TimerEngine {
    #[verifier::type_invariant]
    spec fn inv(self) -> bool {
        consistent(self.config, self.state)
    }

    /// The configuration the engine was made with.
    pub closed spec fn config(self) -> SessionConfig {
        self.config
    }

    /// The engine's current state.
    pub closed spec fn state(self) -> TimerState {
        self.state
    }

    /// An engine at the start of a work phase; refused unless both lengths are positive.
    pub fn new(config: SessionConfig) -> (r: Result<TimerEngine, ConfigurationError>)
        ensures
            r is Ok <==> config.wf(),
            r matches Ok(e) ==> e.config() == config && e.state() == initial_state() && consistent(
                e.config(),
                e.state(),
            ),
            r matches Err(e) ==> e == ConfigurationError::NonPositiveDuration,
    {
        if config.work_duration_seconds == 0 || config.rest_duration_seconds == 0 {
            return Err(ConfigurationError::NonPositiveDuration);
        }
        Ok(
            TimerEngine {
                config,
                state: TimerState {
                    phase: Phase::Work,
                    elapsed_seconds: 0,
                    paused: false,
                    completed_work_sessions: 0,
                    last_observed_second: None,
                },
            },
        )
    }

    /// Counts a wall-clock sample whose second-of-minute is `current_second`.
    /// A paused timer, or a second already counted, leaves everything as it was.
    /// Otherwise one second is added; when that fills the phase, the phase
    /// flips, the count restarts at zero and the flip is reported; entering a
    /// work phase completes a session and asks for the chime. The session
    /// count stops at the largest `u32` rather than wrapping.
    pub fn on_tick(&mut self, current_second: u32) -> (r: Option<PhaseTransition>)
        ensures
            final(self).config() == old(self).config(),
            consistent(final(self).config(), final(self).state()),
            final(self).state() == tick_state(old(self).config(), old(self).state(), current_second),
            r == tick_result(old(self).config(), old(self).state(), current_second),
    {
        proof {
            use_type_invariant(&*self);
        }
        let s = self.state;
        if s.paused {
            return None;
        }
        if let Some(prev) = s.last_observed_second {
            if prev == current_second {
                return None;
            }
        }
        let count = s.elapsed_seconds + 1;
        if count >= self.config.duration_for(s.phase) {
            let next = s.phase.other();
            let sessions = if next == Phase::Work {
                s.completed_work_sessions.saturating_add(1)
            } else {
                s.completed_work_sessions
            };
            self.state = TimerState {
                phase: next,
                elapsed_seconds: 0,
                paused: s.paused,
                completed_work_sessions: sessions,
                last_observed_second: Some(current_second),
            };
            Some(PhaseTransition { new_phase: next, chime: next == Phase::Work })
        } else {
            self.state = TimerState {
                phase: s.phase,
                elapsed_seconds: count,
                paused: s.paused,
                completed_work_sessions: s.completed_work_sessions,
                last_observed_second: Some(current_second),
            };
            None
        }
    }

    /// Stops or resumes counting; nothing else changes.
    pub fn toggle_pause(&mut self)
        ensures
            final(self).config() == old(self).config(),
            consistent(final(self).config(), final(self).state()),
            final(self).state() == toggled(old(self).state()),
    {
        proof {
            use_type_invariant(&*self);
        }
        let s = self.state;
        self.state = TimerState {
            phase: s.phase,
            elapsed_seconds: s.elapsed_seconds,
            paused: !s.paused,
            completed_work_sessions: s.completed_work_sessions,
            last_observed_second: s.last_observed_second,
        };
    }

    /// Back to the start of a work phase with no completed sessions; the
    /// pause flag is kept.
    pub fn reset(&mut self)
        ensures
            final(self).config() == old(self).config(),
            consistent(final(self).config(), final(self).state()),
            final(self).state() == (TimerState {
                phase: Phase::Work,
                elapsed_seconds: 0,
                completed_work_sessions: 0,
                ..old(self).state()
            }),
    {
        proof {
            use_type_invariant(&*self);
        }
        let s = self.state;
        self.state = TimerState {
            phase: Phase::Work,
            elapsed_seconds: 0,
            paused: s.paused,
            completed_work_sessions: 0,
            last_observed_second: s.last_observed_second,
        };
    }

    /// Moves to the start of the other phase; a skipped phase is not a
    /// completed session.
    pub fn skip_phase(&mut self)
        ensures
            final(self).config() == old(self).config(),
            consistent(final(self).config(), final(self).state()),
            final(self).state() == (TimerState {
                phase: other_phase(old(self).state().phase),
                elapsed_seconds: 0,
                ..old(self).state()
            }),
    {
        proof {
            use_type_invariant(&*self);
        }
        let s = self.state;
        self.state = TimerState {
            phase: s.phase.other(),
            elapsed_seconds: 0,
            paused: s.paused,
            completed_work_sessions: s.completed_work_sessions,
            last_observed_second: s.last_observed_second,
        };
    }

    /// Adds `delta_seconds` to the elapsed count, held inside the current
    /// phase: never below zero, never at or past its length, so that an
    /// adjustment never ends a phase by itself.
    pub fn adjust_elapsed(&mut self, delta_seconds: i32)
        ensures
            final(self).config() == old(self).config(),
            consistent(final(self).config(), final(self).state()),
            final(self).state() == adjusted(old(self).config(), old(self).state(), delta_seconds as int),
    {
        proof {
            use_type_invariant(&*self);
        }
        let s = self.state;
        let last: i64 = self.config.duration_for(s.phase) as i64 - 1;
        let wanted: i64 = s.elapsed_seconds as i64 + delta_seconds as i64;
        let held: i64 = if wanted < 0 {
            0
        } else if wanted > last {
            last
        } else {
            wanted
        };
        self.state = TimerState {
            phase: s.phase,
            elapsed_seconds: held as u32,
            paused: s.paused,
            completed_work_sessions: s.completed_work_sessions,
            last_observed_second: s.last_observed_second,
        };
    }

    /// A copy of the state for display, with the length of the current phase.
    pub fn snapshot(&self) -> (r: TimerSnapshot)
        ensures
            r == snapshot_of(self.config(), self.state()),
            r.elapsed_seconds < r.total_for_phase,
    {
        proof {
            use_type_invariant(self);
        }
        TimerSnapshot {
            phase: self.state.phase,
            elapsed_seconds: self.state.elapsed_seconds,
            total_for_phase: self.config.duration_for(self.state.phase),
            paused: self.state.paused,
            completed_work_sessions: self.state.completed_work_sessions,
        }
    }

    /// The configuration the engine was made with.
    pub fn session_config(&self) -> (r: SessionConfig)
        ensures
            r == self.config(),
    {
        self.config
    }

    /// The engine's current state.
    pub fn timer_state(&self) -> (r: TimerState)
        ensures
            r == self.state(),
    {
        self.state
    }
}

impl TimerEngine {
    /// Applies `c` to the engine; returns whether the program should end.
    pub fn apply_command(&mut self, c: UserCommand) -> (quit: bool)
        ensures
            quit == (c == UserCommand::Quit),
            final(self).config() == old(self).config(),
            consistent(final(self).config(), final(self).state()),
            final(self).state() == command_state(old(self).config(), old(self).state(), c),
    {
        match c {
            UserCommand::TogglePause => self.toggle_pause(),
            UserCommand::Quit => {
                proof {
                    use_type_invariant(&*self);
                }
                return true;
            },
            UserCommand::Reset => self.reset(),
            UserCommand::SkipPhase => self.skip_phase(),
            UserCommand::DecreaseMinute => self.adjust_elapsed(-60),
            UserCommand::IncreaseMinute => self.adjust_elapsed(60),
        }
        false
    }
}

/// The snapshot of state `s` under configuration `cfg`.
pub open spec fn snapshot_of(cfg: SessionConfig, s: TimerState) -> TimerSnapshot {
    TimerSnapshot {
        phase: s.phase,
        elapsed_seconds: s.elapsed_seconds,
        total_for_phase: cfg.duration_spec(s.phase),
        paused: s.paused,
        completed_work_sessions: s.completed_work_sessions,
    }
}

} // verus!
