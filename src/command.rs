use vstd::prelude::*;
use crate::timer::{adjusted, other_phase, toggled, Phase, SessionConfig, TimerState};

verus! {

/// A discrete request from the user.
#[derive(Clone, Copy, Debug, PartialEq, Eq, Structural)]
pub enum UserCommand {
    TogglePause,
    /// Ends the program; the engine is left as it is.
    Quit,
    Reset,
    SkipPhase,
    /// Takes one minute off the elapsed count.
    DecreaseMinute,
    /// Adds one minute to the elapsed count.
    IncreaseMinute,
}

/// The command bound to key `ch`, if any.
pub open spec fn command_for_key(ch: char) -> Option<UserCommand> {
    if ch == ' ' {
        Some(UserCommand::TogglePause)
    } else if ch == 'q' {
        Some(UserCommand::Quit)
    } else if ch == 'r' {
        Some(UserCommand::Reset)
    } else if ch == 'n' {
        Some(UserCommand::SkipPhase)
    } else if ch == 'h' {
        Some(UserCommand::DecreaseMinute)
    } else if ch == 'l' {
        Some(UserCommand::IncreaseMinute)
    } else {
        None
    }
}

/// The state after command `c` under configuration `cfg`.
pub open spec fn command_state(cfg: SessionConfig, s: TimerState, c: UserCommand) -> TimerState {
    match c {
        UserCommand::TogglePause => toggled(s),
        UserCommand::Quit => s,
        UserCommand::Reset => TimerState {
            phase: Phase::Work,
            elapsed_seconds: 0,
            completed_work_sessions: 0,
            ..s
        },
        UserCommand::SkipPhase => TimerState { phase: other_phase(s.phase), elapsed_seconds: 0, ..s },
        UserCommand::DecreaseMinute => adjusted(cfg, s, -60),
        UserCommand::IncreaseMinute => adjusted(cfg, s, 60),
    }
}

impl UserCommand {
    /// Space pauses or resumes, `q` quits, `r` resets, `n` skips to the next
    /// phase, `h` and `l` take off or add one minute; other keys mean nothing.
    pub fn from_key(ch: char) -> (r: Option<UserCommand>)
        ensures
            r == command_for_key(ch),
    {
        match ch {
            ' ' => Some(UserCommand::TogglePause),
            'q' => Some(UserCommand::Quit),
            'r' => Some(UserCommand::Reset),
            'n' => Some(UserCommand::SkipPhase),
            'h' => Some(UserCommand::DecreaseMinute),
            'l' => Some(UserCommand::IncreaseMinute),
            _ => None,
        }
    }
}

} // verus!
