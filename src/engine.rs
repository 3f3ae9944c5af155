//! The count-up state machine.
//!
//! Each operation of [`CountUp`] is specified as a transition of the abstract
//! state [`CountUpModel`]: a spec function from the state before (and the
//! operation's argument) to the state after and the [`Effects`] that the host
//! must carry out.
use vstd::prelude::*;
use crate::curve::{in_phase_range, phase_value, lemma_phase_value_spans, Phase};

verus! {

/// The largest magnitude of a configured start value, end value or target.
pub const MAX_VALUE: i64 = 1_000_000_000_000_000;

pub open spec fn in_value_range(v: int) -> bool {
    -MAX_VALUE <= v <= MAX_VALUE
}

/// The settings of one animation.
///
/// Values are fixed-point: `v` stands for `v * 10^-decimal_places`, so every
/// value the engine shows is already rounded to `decimal_places` places.
#[derive(Clone, Copy, Debug, PartialEq, Eq, Structural)]
pub struct AnimationConfig {
    pub start_value: i64,
    pub end_value: i64,
    pub duration_ms: u32,
    /// How many decimal places the display shows; the engine carries it for
    /// the display and does not scale by it.
    pub decimal_places: u32,
    pub use_easing: bool,
    /// A distance above which an eased run is split into a fast linear phase
    /// past the target and an eased phase back to it.
    pub smart_easing_threshold: u64,
    /// How far past the target the fast phase of a split run goes.
    pub smart_easing_amount: u64,
}

/// Why a configuration or a target was refused.
#[derive(Clone, Copy, Debug, PartialEq, Eq, Structural)]
pub enum CountUpError {
    /// A start value, end value or target has a magnitude above `MAX_VALUE`.
    ValueOutOfRange,
    /// The smart-easing amount exceeds `MAX_VALUE` or the smart-easing
    /// threshold; a larger amount would make the settling phase split again.
    SmartEasingAmountTooLarge,
}

impl AnimationConfig {
    pub open spec fn values_in_range(self) -> bool {
        in_value_range(self.start_value as int) && in_value_range(self.end_value as int)
    }

    pub open spec fn amount_allowed(self) -> bool {
        self.smart_easing_amount <= MAX_VALUE && self.smart_easing_amount <= self.smart_easing_threshold
    }

    pub open spec fn valid(self) -> bool {
        self.values_in_range() && self.amount_allowed()
    }

    /// Checks the configuration.
    pub fn check(&self) -> (r: Result<(), CountUpError>)
        ensures
            r is Ok <==> self.valid(),
            r == Err::<(), CountUpError>(CountUpError::ValueOutOfRange) <==> !self.values_in_range(),
            r == Err::<(), CountUpError>(CountUpError::SmartEasingAmountTooLarge) <==> (
            self.values_in_range() && !self.amount_allowed()),
    {
        if self.start_value < -MAX_VALUE || self.start_value > MAX_VALUE || self.end_value
            < -MAX_VALUE || self.end_value > MAX_VALUE {
            Err(CountUpError::ValueOutOfRange)
        } else if self.smart_easing_amount > MAX_VALUE as u64 || self.smart_easing_amount
            > self.smart_easing_threshold {
            Err(CountUpError::SmartEasingAmountTooLarge)
        } else {
            Ok(())
        }
    }
}

/// Where an animation stands.
#[derive(Clone, Copy, Debug, PartialEq, Eq, Structural)]
pub enum Status {
    /// Created or reset, and not started.
    Idle,
    /// Ticking: exactly one tick is scheduled.
    Running,
    /// Stopped in flight by a pause; no tick is scheduled.
    Paused,
    /// The last phase reached its end; no tick is scheduled.
    Finished,
}

/// What the host must do after an operation.
#[derive(Clone, Copy, Debug, PartialEq, Eq, Structural)]
pub struct Effects {
    /// Fire the start notification.
    pub started: bool,
    /// Hand this value to the display.
    pub display: Option<i64>,
    /// Schedule one tick, in place of any pending one.
    pub schedule_tick: bool,
    /// Cancel the pending tick, if any.
    pub cancel_tick: bool,
    /// Fire the completion notification.
    pub completed: bool,
}

/// No effect at all.
pub open spec fn quiet() -> Effects {
    Effects { started: false, display: None, schedule_tick: false, cancel_tick: false, completed: false }
}

impl Effects {
    pub fn quiet() -> (r: Effects)
        ensures
            r == quiet(),
    {
        Effects { started: false, display: None, schedule_tick: false, cancel_tick: false, completed: false }
    }
}

/// The abstract state of an animation.
pub struct CountUpModel {
    pub config: AnimationConfig,
    /// The phase in flight, or the one a start or resume would run.
    pub phase: Phase,
    pub frame_value: i64,
    pub status: Status,
    /// The target of a run that smart easing split, while its first phase runs.
    pub final_end_value: Option<i64>,
    /// When the phase in flight had its first tick.
    pub start_time_ms: Option<u64>,
    /// How long the phase in flight still runs, as of its last tick.
    pub remaining_ms: u32,
}

impl CountUpModel {
    /// The value the whole run ends at.
    pub open spec fn target(self) -> i64 {
        match self.final_end_value {
            Some(f) => f,
            None => self.phase.end,
        }
    }

    pub open spec fn wf(self) -> bool {
        &&& self.config.valid()
        &&& self.phase.in_range()
        &&& self.phase.spans(self.frame_value as int)
        &&& in_value_range(self.target() as int)
        &&& self.remaining_ms <= self.phase.duration_ms
        &&& self.final_end_value matches Some(f) ==> {
            ||| self.phase.end == f + self.config.smart_easing_amount
            ||| self.phase.end == f - self.config.smart_easing_amount
        }
    }

    /// Milliseconds since the phase's first tick, for a tick at `now_ms`; the
    /// first tick of a phase is its origin, and a clock that went back counts as
    /// no time.
    pub open spec fn progress(self, now_ms: u64) -> int {
        let origin = match self.start_time_ms {
            Some(s) => s,
            None => now_ms,
        };
        if now_ms >= origin {
            now_ms - origin
        } else {
            0
        }
    }
}

/// The phase that carries a run from `start` toward `target` in `duration_ms`,
/// and the target still to reach after it when smart easing splits the run: an
/// eased run over a distance above the threshold first goes linearly, in half the
/// time, to `smart_easing_amount` past the target.
pub open spec fn plan(cfg: AnimationConfig, start: i64, target: i64, duration_ms: u32) -> (
    Phase,
    Option<i64>,
) {
    let down = start > target;
    let distance = if down {
        start - target
    } else {
        target - start
    };
    if cfg.use_easing && distance > cfg.smart_easing_threshold {
        let end = if down {
            target - cfg.smart_easing_amount
        } else {
            target + cfg.smart_easing_amount
        };
        (Phase { start, end: end as i64, duration_ms: (duration_ms / 2) as u32, eased: false }, Some(target))
    } else {
        (Phase { start, end: target, duration_ms, eased: cfg.use_easing }, None)
    }
}

/// Begins a run from `start` toward `target`: the planned phase is in flight and
/// its first tick will be its origin.
pub open spec fn begin(m: CountUpModel, start: i64, target: i64, duration_ms: u32) -> CountUpModel {
    let (phase, final_end_value) = plan(m.config, start, target, duration_ms);
    CountUpModel {
        phase,
        frame_value: start,
        status: Status::Running,
        final_end_value,
        start_time_ms: None,
        remaining_ms: phase.duration_ms,
        ..m
    }
}

pub open spec fn initial(cfg: AnimationConfig) -> CountUpModel {
    CountUpModel {
        config: cfg,
        phase: Phase {
            start: cfg.start_value,
            end: cfg.end_value,
            duration_ms: cfg.duration_ms,
            eased: cfg.use_easing,
        },
        frame_value: cfg.start_value,
        status: Status::Idle,
        final_end_value: None,
        start_time_ms: None,
        remaining_ms: cfg.duration_ms,
    }
}

/// Start: a run from the configured start value, over the configured duration,
/// toward the target; with no duration, an instant jump to the target.
pub open spec fn start_step(m: CountUpModel) -> (CountUpModel, Effects) {
    let cfg = m.config;
    if cfg.duration_ms > 0 {
        (
            begin(m, cfg.start_value, m.target(), cfg.duration_ms),
            Effects { started: true, schedule_tick: true, ..quiet() },
        )
    } else {
        (
            CountUpModel {
                phase: Phase {
                    start: cfg.start_value,
                    end: m.target(),
                    duration_ms: 0,
                    eased: cfg.use_easing,
                },
                frame_value: m.target(),
                status: Status::Finished,
                final_end_value: None,
                start_time_ms: None,
                remaining_ms: 0,
                ..m
            },
            Effects {
                started: true,
                display: Some(m.target()),
                cancel_tick: true,
                completed: true,
                ..quiet()
            },
        )
    }
}

/// Pause a running animation, keeping what remains of its phase; resume a
/// paused one from its frame value over that remaining time.
pub open spec fn pause_or_resume_step(m: CountUpModel) -> (CountUpModel, Effects) {
    match m.status {
        Status::Running => (
            CountUpModel { status: Status::Paused, ..m },
            Effects { cancel_tick: true, ..quiet() },
        ),
        Status::Paused => (
            begin(m, m.frame_value, m.target(), m.remaining_ms),
            Effects { schedule_tick: true, ..quiet() },
        ),
        _ => (m, quiet()),
    }
}

/// Reset: back to the configured start value and duration, keeping the target.
pub open spec fn reset_step(m: CountUpModel) -> (CountUpModel, Effects) {
    let cfg = m.config;
    (
        CountUpModel {
            phase: Phase {
                start: cfg.start_value,
                end: m.target(),
                duration_ms: cfg.duration_ms,
                eased: cfg.use_easing,
            },
            frame_value: cfg.start_value,
            status: Status::Idle,
            final_end_value: None,
            start_time_ms: None,
            remaining_ms: cfg.duration_ms,
            ..m
        },
        Effects { display: Some(cfg.start_value), cancel_tick: true, ..quiet() },
    )
}

/// Update: re-target toward `new_end` from the frame value. The run gets the
/// configured duration again, except in the first phase of a split run, whose
/// duration it keeps.
pub open spec fn update_step(m: CountUpModel, new_end: i64) -> (
    CountUpModel,
    Result<Effects, CountUpError>,
) {
    if new_end == m.frame_value {
        (m, Ok(quiet()))
    } else if !in_value_range(new_end as int) {
        (m, Err(CountUpError::ValueOutOfRange))
    } else {
        let duration_ms = match m.final_end_value {
            Some(_) => m.phase.duration_ms,
            None => m.config.duration_ms,
        };
        (
            begin(m, m.frame_value, new_end, duration_ms),
            Ok(Effects { schedule_tick: true, ..quiet() }),
        )
    }
}

/// Tick at `now_ms`: show the phase's value at its progress; then go on ticking,
/// begin the settling phase of a split run, or finish.
pub open spec fn tick_step(m: CountUpModel, now_ms: u64) -> (CountUpModel, Effects) {
    if m.status != Status::Running {
        (m, quiet())
    } else {
        let progress = m.progress(now_ms);
        let origin = match m.start_time_ms {
            Some(s) => s,
            None => now_ms,
        };
        let elapsed = if progress < m.phase.duration_ms {
            progress
        } else {
            m.phase.duration_ms as int
        };
        let frame = phase_value(m.phase, progress) as i64;
        let ticked = CountUpModel {
            frame_value: frame,
            start_time_ms: Some(origin),
            remaining_ms: (m.phase.duration_ms - elapsed) as u32,
            ..m
        };
        let shown = Effects { display: Some(frame), ..quiet() };
        if progress < m.phase.duration_ms {
            (ticked, Effects { schedule_tick: true, ..shown })
        } else {
            match m.final_end_value {
                Some(f) if f != frame => (
                    begin(ticked, frame, f, m.phase.duration_ms),
                    Effects { schedule_tick: true, ..shown },
                ),
                _ => (
                    CountUpModel { status: Status::Finished, final_end_value: None, ..ticked },
                    Effects { completed: true, ..shown },
                ),
            }
        }
    }
}

proof fn lemma_begin_wf(m: CountUpModel, start: i64, target: i64, duration_ms: u32)
    requires
        m.config.valid(),
        in_phase_range(start as int),
        in_value_range(target as int),
    ensures
        begin(m, start, target, duration_ms).wf(),
        begin(m, start, target, duration_ms).phase.start == start,
{
}

proof fn lemma_start_wf(m: CountUpModel)
    requires
        m.wf(),
    ensures
        start_step(m).0.wf(),
{
    lemma_begin_wf(m, m.config.start_value, m.target(), m.config.duration_ms);
}

proof fn lemma_pause_or_resume_wf(m: CountUpModel)
    requires
        m.wf(),
    ensures
        pause_or_resume_step(m).0.wf(),
{
    lemma_begin_wf(m, m.frame_value, m.target(), m.remaining_ms);
}

proof fn lemma_reset_wf(m: CountUpModel)
    requires
        m.wf(),
    ensures
        reset_step(m).0.wf(),
{
}

proof fn lemma_update_wf(m: CountUpModel, new_end: i64)
    requires
        m.wf(),
    ensures
        update_step(m, new_end).0.wf(),
{
    let duration_ms = match m.final_end_value {
        Some(_) => m.phase.duration_ms,
        None => m.config.duration_ms,
    };
    if in_value_range(new_end as int) {
        lemma_begin_wf(m, m.frame_value, new_end, duration_ms);
    }
}

proof fn lemma_tick_wf(m: CountUpModel, now_ms: u64)
    requires
        m.wf(),
    ensures
        tick_step(m, now_ms).0.wf(),
{
    let progress = m.progress(now_ms);
    lemma_phase_value_spans(m.phase, progress);
    let frame = phase_value(m.phase, progress) as i64;
    if progress >= m.phase.duration_ms {
        if let Some(f) = m.final_end_value {
            let origin = match m.start_time_ms {
                Some(s) => s,
                None => now_ms,
            };
            let elapsed = m.phase.duration_ms as int;
            let ticked = CountUpModel {
                frame_value: frame,
                start_time_ms: Some(origin),
                remaining_ms: (m.phase.duration_ms - elapsed) as u32,
                ..m
            };
            lemma_begin_wf(ticked, frame, f, m.phase.duration_ms);
        }
    }
}

/// A count-up animation: one run at a time, driven by the host's ticks.
pub struct CountUp {
    config: AnimationConfig,
    phase: Phase,
    frame_value: i64,
    status: Status,
    final_end_value: Option<i64>,
    start_time_ms: Option<u64>,
    remaining_ms: u32,
}

impl View for CountUp {
    type V = CountUpModel;

    closed spec fn view(&self) -> CountUpModel {
        CountUpModel {
            config: self.config,
            phase: self.phase,
            frame_value: self.frame_value,
            status: self.status,
            final_end_value: self.final_end_value,
            start_time_ms: self.start_time_ms,
            remaining_ms: self.remaining_ms,
        }
    }
}

/// The exec form of `plan`.
fn plan_phase(cfg: &AnimationConfig, start: i64, target: i64, duration_ms: u32) -> (r: (
    Phase,
    Option<i64>,
))
    requires
        cfg.valid(),
        in_phase_range(start as int),
        in_value_range(target as int),
    ensures
        r == plan(*cfg, start, target, duration_ms),
{
    let down = start > target;
    let distance: u64 = if down {
        (start - target) as u64
    } else {
        (target - start) as u64
    };
    if cfg.use_easing && distance > cfg.smart_easing_threshold {
        let amount = cfg.smart_easing_amount as i64;
        let end = if down {
            target - amount
        } else {
            target + amount
        };
        (Phase { start, end, duration_ms: duration_ms / 2, eased: false }, Some(target))
    } else {
        (Phase { start, end: target, duration_ms, eased: cfg.use_easing }, None)
    }
}

impl CountUp {
    pub open spec fn wf(&self) -> bool {
        self@.wf()
    }

    /// A new animation at its configured start value, not started.
    pub fn new(config: AnimationConfig) -> (r: Result<CountUp, CountUpError>)
        ensures
            r is Ok <==> config.valid(),
            r matches Ok(c) ==> c@ == initial(config) && c.wf(),
            r == Err::<CountUp, CountUpError>(CountUpError::ValueOutOfRange) <==> !config.values_in_range(),
            r == Err::<CountUp, CountUpError>(CountUpError::SmartEasingAmountTooLarge) <==> (
            config.values_in_range() && !config.amount_allowed()),
    {
        match config.check() {
            Err(e) => Err(e),
            Ok(()) => Ok(
                CountUp {
                    config,
                    phase: Phase {
                        start: config.start_value,
                        end: config.end_value,
                        duration_ms: config.duration_ms,
                        eased: config.use_easing,
                    },
                    frame_value: config.start_value,
                    status: Status::Idle,
                    final_end_value: None,
                    start_time_ms: None,
                    remaining_ms: config.duration_ms,
                },
            ),
        }
    }

    /// The value shown last.
    pub fn frame_value(&self) -> (r: i64)
        ensures
            r == self@.frame_value,
    {
        self.frame_value
    }

    pub fn status(&self) -> (r: Status)
        ensures
            r == self@.status,
    {
        self.status
    }

    /// Whether no tick is scheduled.
    pub fn is_paused(&self) -> (r: bool)
        ensures
            r == (self@.status != Status::Running),
    {
        self.status != Status::Running
    }

    pub fn config(&self) -> (r: AnimationConfig)
        ensures
            r == self@.config,
    {
        self.config
    }

    /// The phase in flight, or the one a start or resume would run.
    pub fn phase(&self) -> (r: Phase)
        ensures
            r == self@.phase,
    {
        self.phase
    }

    /// Whether the phase in flight counts down.
    pub fn count_down(&self) -> (r: bool)
        ensures
            r == self@.phase.counts_down(),
    {
        self.phase.start > self.phase.end
    }

    /// The target of a run that smart easing split, while its first phase runs.
    pub fn final_end_value(&self) -> (r: Option<i64>)
        ensures
            r == self@.final_end_value,
    {
        self.final_end_value
    }

    /// When the phase in flight had its first tick.
    pub fn start_time_ms(&self) -> (r: Option<u64>)
        ensures
            r == self@.start_time_ms,
    {
        self.start_time_ms
    }

    /// How long the phase in flight still runs, as of its last tick.
    pub fn remaining_ms(&self) -> (r: u32)
        ensures
            r == self@.remaining_ms,
    {
        self.remaining_ms
    }

    /// The value the whole run ends at.
    pub fn target(&self) -> (r: i64)
        ensures
            r == self@.target(),
    {
        match self.final_end_value {
            Some(f) => f,
            None => self.phase.end,
        }
    }

    /// Begins a run from `start` toward `target`.
    fn begin(&mut self, start: i64, target: i64, duration_ms: u32)
        requires
            old(self).config.valid(),
            in_phase_range(start as int),
            in_value_range(target as int),
        ensures
            final(self)@ == begin(old(self)@, start, target, duration_ms),
    {
        let (phase, final_end_value) = plan_phase(&self.config, start, target, duration_ms);
        self.phase = phase;
        self.frame_value = start;
        self.status = Status::Running;
        self.final_end_value = final_end_value;
        self.start_time_ms = None;
        self.remaining_ms = phase.duration_ms;
    }

    /// Starts a run from the configured start value over the configured
    /// duration, or jumps to the target at once when the duration is zero.
    pub fn start(&mut self) -> (r: Effects)
        requires
            old(self).wf(),
        ensures
            (final(self)@, r) == start_step(old(self)@),
            final(self).wf(),
    {
        proof {
            lemma_start_wf(self@);
        }
        let target = self.target();
        if self.config.duration_ms > 0 {
            let start = self.config.start_value;
            let duration_ms = self.config.duration_ms;
            self.begin(start, target, duration_ms);
            Effects { started: true, schedule_tick: true, ..Effects::quiet() }
        } else {
            self.phase = Phase {
                start: self.config.start_value,
                end: target,
                duration_ms: 0,
                eased: self.config.use_easing,
            };
            self.frame_value = target;
            self.status = Status::Finished;
            self.final_end_value = None;
            self.start_time_ms = None;
            self.remaining_ms = 0;
            Effects {
                started: true,
                display: Some(target),
                cancel_tick: true,
                completed: true,
                ..Effects::quiet()
            }
        }
    }

    /// Pauses a running animation, or resumes a paused one; does nothing to an
    /// animation that is idle or finished.
    pub fn pause_or_resume(&mut self) -> (r: Effects)
        requires
            old(self).wf(),
        ensures
            (final(self)@, r) == pause_or_resume_step(old(self)@),
            final(self).wf(),
    {
        proof {
            lemma_pause_or_resume_wf(self@);
        }
        match self.status {
            Status::Running => {
                self.status = Status::Paused;
                Effects { cancel_tick: true, ..Effects::quiet() }
            },
            Status::Paused => {
                let frame = self.frame_value;
                let target = self.target();
                let remaining = self.remaining_ms;
                self.begin(frame, target, remaining);
                Effects { schedule_tick: true, ..Effects::quiet() }
            },
            _ => Effects::quiet(),
        }
    }

    /// Stops ticking and returns to the configured start value and duration.
    pub fn reset(&mut self) -> (r: Effects)
        requires
            old(self).wf(),
        ensures
            (final(self)@, r) == reset_step(old(self)@),
            final(self).wf(),
    {
        proof {
            lemma_reset_wf(self@);
        }
        let target = self.target();
        self.phase = Phase {
            start: self.config.start_value,
            end: target,
            duration_ms: self.config.duration_ms,
            eased: self.config.use_easing,
        };
        self.frame_value = self.config.start_value;
        self.status = Status::Idle;
        self.final_end_value = None;
        self.start_time_ms = None;
        self.remaining_ms = self.config.duration_ms;
        Effects { display: Some(self.config.start_value), cancel_tick: true, ..Effects::quiet() }
    }

    /// Re-targets the animation toward `new_end` from its frame value; does
    /// nothing when `new_end` is the frame value.
    pub fn update(&mut self, new_end: i64) -> (r: Result<Effects, CountUpError>)
        requires
            old(self).wf(),
        ensures
            (final(self)@, r) == update_step(old(self)@, new_end),
            final(self).wf(),
    {
        proof {
            lemma_update_wf(self@, new_end);
        }
        if new_end == self.frame_value {
            Ok(Effects::quiet())
        } else if new_end < -MAX_VALUE || new_end > MAX_VALUE {
            Err(CountUpError::ValueOutOfRange)
        } else {
            let duration_ms = match self.final_end_value {
                Some(_) => self.phase.duration_ms,
                None => self.config.duration_ms,
            };
            let frame = self.frame_value;
            self.begin(frame, new_end, duration_ms);
            Ok(Effects { schedule_tick: true, ..Effects::quiet() })
        }
    }

    /// Handles the tick that the host delivers at `now_ms`.
    pub fn tick(&mut self, now_ms: u64) -> (r: Effects)
        requires
            old(self).wf(),
        ensures
            (final(self)@, r) == tick_step(old(self)@, now_ms),
            final(self).wf(),
    {
        proof {
            lemma_tick_wf(self@, now_ms);
        }
        if self.status != Status::Running {
            return Effects::quiet();
        }
        let origin = match self.start_time_ms {
            Some(s) => s,
            None => now_ms,
        };
        let progress: u64 = if now_ms >= origin {
            now_ms - origin
        } else {
            0
        };
        let duration = self.phase.duration_ms;
        let elapsed: u32 = if progress < duration as u64 {
            progress as u32
        } else {
            duration
        };
        let frame = self.phase.value_at(progress);
        self.frame_value = frame;
        self.start_time_ms = Some(origin);
        self.remaining_ms = duration - elapsed;
        if progress < duration as u64 {
            Effects { display: Some(frame), schedule_tick: true, ..Effects::quiet() }
        } else {
            match self.final_end_value {
                Some(f) if f != frame => {
                    self.begin(frame, f, duration);
                    Effects { display: Some(frame), schedule_tick: true, ..Effects::quiet() }
                },
                _ => {
                    self.status = Status::Finished;
                    self.final_end_value = None;
                    Effects { display: Some(frame), completed: true, ..Effects::quiet() }
                },
            }
        }
    }
}

} // verus!
