//! Laws of the count-up state machine, stated over its transitions.
use vstd::prelude::*;
use crate::curve::{lemma_phase_value_monotonic, lemma_phase_value_spans};
use crate::engine::{
    pause_or_resume_step, quiet, reset_step, tick_step, update_step, CountUpModel, Status,
};

verus! {

/// Two ticks of one phase, delivered in time order, move the frame value only
/// toward the phase's end: it never decreases in a phase that counts up and never
/// increases in one that counts down. The first tick must leave the phase in
/// flight; the second may end it.
pub proof fn lemma_ticks_move_toward_end(m: CountUpModel, now1: u64, now2: u64)
    requires
        m.wf(),
        m.status == Status::Running,
        now1 <= now2,
        m.progress(now1) < m.phase.duration_ms,
    ensures
        ({
            let (m1, _) = tick_step(m, now1);
            let (m2, _) = tick_step(m1, now2);
            &&& m1.status == Status::Running
            &&& m1.phase == m.phase
            &&& !m.phase.counts_down() ==> m1.frame_value <= m2.frame_value
            &&& m.phase.counts_down() ==> m1.frame_value >= m2.frame_value
        }),
{
    let (m1, _) = tick_step(m, now1);
    assert(m1.progress(now2) >= m.progress(now1));
    lemma_phase_value_spans(m.phase, m.progress(now1));
    lemma_phase_value_spans(m.phase, m1.progress(now2));
    lemma_phase_value_monotonic(m.phase, m.progress(now1), m1.progress(now2));
}

/// A tick at which the phase's duration has passed, with no settling phase to
/// follow, shows the run's target exactly and completes the run. More generally,
/// a tick completes the run only by showing its target.
pub proof fn lemma_last_tick_shows_target(m: CountUpModel, now: u64)
    requires
        m.wf(),
    ensures
        ({
            let (m1, e) = tick_step(m, now);
            &&& e.completed ==> m1.frame_value == m.target() && e.display == Some(m.target())
            &&& (m.status == Status::Running && m.progress(now) >= m.phase.duration_ms
                && m.final_end_value is None) ==> {
                &&& m1.frame_value == m.target()
                &&& e.display == Some(m.target())
                &&& e.completed
                &&& m1.status == Status::Finished
            }
        }),
{
    lemma_phase_value_spans(m.phase, m.progress(now));
}

/// A split run has at most two phases: a tick never begins a phase that is split
/// again, so the settling phase after the fast one is the last.
pub proof fn lemma_settling_phase_is_last(m: CountUpModel, now: u64)
    requires
        m.wf(),
    ensures
        ({
            let (m1, _) = tick_step(m, now);
            m1.final_end_value is Some ==> m1.phase == m.phase && m1.final_end_value == m.final_end_value
        }),
{
    lemma_phase_value_spans(m.phase, m.progress(now));
}

/// Once a tick has completed the run, later ticks change nothing and complete
/// nothing again.
pub proof fn lemma_completion_fires_once(m: CountUpModel, now1: u64, now2: u64)
    requires
        m.wf(),
    ensures
        ({
            let (m1, e1) = tick_step(m, now1);
            e1.completed ==> tick_step(m1, now2) == (m1, quiet())
        }),
{
}

/// However far an animation has gone, a reset brings its frame value back to the
/// configured start value and shows it, and no tick moves it until the next start.
pub proof fn lemma_reset_returns_to_start(m: CountUpModel, now: u64)
    requires
        m.wf(),
    ensures
        ({
            let (m1, e) = reset_step(m);
            &&& m1.frame_value == m.config.start_value
            &&& e.display == Some(m.config.start_value)
            &&& m1.status == Status::Idle
            &&& tick_step(m1, now) == (m1, quiet())
        }),
{
}

/// Pausing a running animation keeps its frame value and target, ticks while
/// paused change nothing, and resuming runs on from that same frame value toward
/// that same target.
pub proof fn lemma_pause_then_resume(m: CountUpModel, now: u64)
    requires
        m.wf(),
        m.status == Status::Running,
    ensures
        ({
            let (paused, _) = pause_or_resume_step(m);
            let (resumed, e) = pause_or_resume_step(paused);
            &&& paused.status == Status::Paused
            &&& paused.frame_value == m.frame_value
            &&& paused.target() == m.target()
            &&& tick_step(paused, now) == (paused, quiet())
            &&& resumed.status == Status::Running
            &&& resumed.frame_value == m.frame_value
            &&& resumed.phase.start == m.frame_value
            &&& resumed.target() == m.target()
            &&& e.schedule_tick
        }),
{
}

/// Updating toward the current frame value changes nothing and has no effect.
pub proof fn lemma_update_to_frame_is_noop(m: CountUpModel)
    ensures
        update_step(m, m.frame_value) == (m, Ok::<_, crate::engine::CountUpError>(quiet())),
{
}

} // verus!
