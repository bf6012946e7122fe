use vstd::prelude::*;
use crate::timer::{
    adjusted, consistent, counts_tick, other_phase, tick_result, tick_state,
    toggled, Phase, PhaseTransition, SessionConfig, TimerState,
};

verus! {

/// The state after ticks at the seconds of `secs`, in order.
pub open spec fn run(cfg: SessionConfig, s: TimerState, secs: Seq<u32>) -> TimerState
    decreases secs.len(),
{
    if secs.len() == 0 {
        s
    } else {
        run(cfg, tick_state(cfg, s, secs[0]), secs.drop_first())
    }
}

/// No two neighbours in `secs` are equal.
pub open spec fn neighbours_differ(secs: Seq<u32>) -> bool {
    forall|i: int| 0 < i < secs.len() ==> #[trigger] secs[i] != secs[i - 1]
}

/// Every tick keeps the state consistent with its configuration.
pub proof fn lemma_tick_keeps_consistent(cfg: SessionConfig, s: TimerState, second: u32)
    requires
        consistent(cfg, s),
    ensures
        consistent(cfg, tick_state(cfg, s, second)),
{
}

/// A counted tick adds exactly one second: either the phase goes on with one
/// more elapsed second, or that second fills the phase and the next one
/// begins at zero.
pub proof fn lemma_counted_tick_adds_one(cfg: SessionConfig, s: TimerState, second: u32)
    requires
        consistent(cfg, s),
        counts_tick(s, second),
    ensures
        ({
            let t = tick_state(cfg, s, second);
            (t.phase == s.phase && t.elapsed_seconds == s.elapsed_seconds + 1) || (t.phase
                == other_phase(s.phase) && t.elapsed_seconds == 0 && s.elapsed_seconds + 1
                == cfg.duration_spec(s.phase))
        }),
        tick_state(cfg, s, second).last_observed_second == Some(second),
{
}

/// While the timer runs, ticks on seconds that each differ from the one
/// before add exactly one elapsed second each, as long as the phase is not
/// filled.
pub proof fn lemma_distinct_seconds_count_once(cfg: SessionConfig, s: TimerState, secs: Seq<u32>)
    requires
        consistent(cfg, s),
        !s.paused,
        neighbours_differ(secs),
        secs.len() > 0 ==> s.last_observed_second != Some(secs[0]),
        s.elapsed_seconds + secs.len() < cfg.duration_spec(s.phase),
    ensures
        run(cfg, s, secs).elapsed_seconds == s.elapsed_seconds + secs.len(),
        run(cfg, s, secs).phase == s.phase,
        run(cfg, s, secs).completed_work_sessions == s.completed_work_sessions,
    decreases secs.len(),
{
    if secs.len() > 0 {
        let t = tick_state(cfg, s, secs[0]);
        let rest = secs.drop_first();
        assert(neighbours_differ(rest)) by {
            assert forall|i: int| 0 < i < rest.len() implies #[trigger] rest[i] != rest[i - 1] by {
                assert(rest[i] == secs[i + 1] && rest[i - 1] == secs[i]);
            }
        }
        if rest.len() > 0 {
            assert(rest[0] == secs[1]);
            assert(secs[1] != secs[0]);
        }
        lemma_distinct_seconds_count_once(cfg, t, rest);
    }
}

/// A second tick at the same second changes nothing and reports nothing.
pub proof fn lemma_same_second_idempotent(cfg: SessionConfig, s: TimerState, second: u32)
    ensures
        tick_state(cfg, tick_state(cfg, s, second), second) == tick_state(cfg, s, second),
        tick_result(cfg, tick_state(cfg, s, second), second) is None,
{
}

/// While paused, any ticks leave the state as it was.
pub proof fn lemma_paused_ticks_change_nothing(cfg: SessionConfig, s: TimerState, secs: Seq<u32>)
    requires
        s.paused,
    ensures
        run(cfg, s, secs) == s,
    decreases secs.len(),
{
    if secs.len() > 0 {
        lemma_paused_ticks_change_nothing(cfg, s, secs.drop_first());
    }
}

/// After a pause is lifted, a tick at a new second counts again.
pub proof fn lemma_resume_counts(cfg: SessionConfig, s: TimerState, second: u32)
    requires
        consistent(cfg, s),
        s.paused,
        s.last_observed_second != Some(second),
    ensures
        counts_tick(toggled(s), second),
        tick_state(cfg, toggled(s), second).elapsed_seconds == s.elapsed_seconds + 1 || (
        tick_state(cfg, toggled(s), second).elapsed_seconds == 0 && tick_state(
            cfg,
            toggled(s),
            second,
        ).phase == other_phase(s.phase)),
{
}

/// An adjustment keeps the elapsed count inside the current phase and never
/// ends it: the phase, the pause flag and the session count stay.
pub proof fn lemma_adjust_stays_in_phase(cfg: SessionConfig, s: TimerState, delta: int)
    requires
        consistent(cfg, s),
    ensures
        ({
            let t = adjusted(cfg, s, delta);
            &&& 0 <= t.elapsed_seconds < cfg.duration_spec(s.phase)
            &&& t.phase == s.phase
            &&& t.paused == s.paused
            &&& t.completed_work_sessions == s.completed_work_sessions
            &&& consistent(cfg, t)
        }),
{
}

/// Only the return to work completes a session: leaving work for rest, or
/// any tick that does not flip the phase, keeps the count.
pub proof fn lemma_sessions_count_returns_to_work(cfg: SessionConfig, s: TimerState, second: u32)
    requires
        consistent(cfg, s),
        s.completed_work_sessions < u32::MAX,
    ensures
        tick_state(cfg, s, second).completed_work_sessions == if tick_result(
            cfg,
            s,
            second,
        ) == Some(PhaseTransition { new_phase: Phase::Work, chime: true }) {
            s.completed_work_sessions + 1
        } else {
            s.completed_work_sessions as int
        },
{
}

} // verus!
