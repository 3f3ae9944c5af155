use count_up::{AnimationConfig, CountUp, CountUpError, Effects, Phase, Status, MAX_VALUE};

fn config(start: i64, end: i64, duration_ms: u32, use_easing: bool) -> AnimationConfig {
    AnimationConfig {
        start_value: start,
        end_value: end,
        duration_ms,
        decimal_places: 0,
        use_easing,
        smart_easing_threshold: 999,
        smart_easing_amount: 333,
    }
}

fn quiet() -> Effects {
    Effects { started: false, display: None, schedule_tick: false, cancel_tick: false, completed: false }
}

fn shown(v: i64) -> Effects {
    Effects { display: Some(v), schedule_tick: true, ..quiet() }
}

fn finished(v: i64) -> Effects {
    Effects { display: Some(v), completed: true, ..quiet() }
}

/// Ticks from `from` to `to` (both included) every `step` ms and collects the values shown.
fn run(c: &mut CountUp, from: u64, to: u64, step: u64) -> Vec<i64> {
    let mut shown = Vec::new();
    let mut now = from;
    while now <= to {
        if let Some(v) = c.tick(now).display {
            shown.push(v);
        }
        now += step;
    }
    shown
}

#[test]
fn linear_run_is_halfway_at_half_time_and_completes_once() {
    let mut c = CountUp::new(config(0, 100, 1000, false)).unwrap();
    let e = c.start();
    assert_eq!(e, Effects { started: true, schedule_tick: true, ..quiet() });
    assert_eq!(c.tick(2000), shown(0));
    assert_eq!(c.tick(2500), shown(50));
    assert_eq!(c.frame_value(), 50);
    assert_eq!(c.tick(3000), finished(100));
    assert_eq!(c.status(), Status::Finished);
    assert_eq!(c.tick(3100), quiet());
    assert_eq!(c.frame_value(), 100);
}

#[test]
fn progress_past_duration_still_ends_at_end_value() {
    let mut c = CountUp::new(config(0, 100, 1000, false)).unwrap();
    c.start();
    c.tick(0);
    assert_eq!(c.tick(5000), finished(100));
}

#[test]
fn linear_values_round_to_nearest() {
    let mut c = CountUp::new(config(0, 7, 3, false)).unwrap();
    c.start();
    assert_eq!(c.tick(10), shown(0));
    assert_eq!(c.tick(11), shown(2));
    assert_eq!(c.tick(12), shown(5));
    assert_eq!(c.tick(13), finished(7));
}

#[test]
fn eased_run_follows_quadratic_ease_out() {
    let mut c = CountUp::new(config(0, 100, 1000, true)).unwrap();
    c.start();
    c.tick(0);
    assert_eq!(c.tick(500), shown(75));
    assert_eq!(c.tick(1000), finished(100));
}

#[test]
fn eased_count_down_mirrors_count_up() {
    let mut c = CountUp::new(config(100, 0, 1000, true)).unwrap();
    c.start();
    assert!(c.count_down());
    c.tick(0);
    assert_eq!(c.tick(500), shown(25));
    assert_eq!(c.tick(1000), finished(0));
}

#[test]
fn ticks_never_decrease_when_counting_up() {
    let mut c = CountUp::new(config(-40, 900, 777, true)).unwrap();
    c.start();
    let values = run(&mut c, 100, 1000, 13);
    assert!(values.windows(2).all(|w| w[0] <= w[1]));
    assert_eq!(*values.last().unwrap(), 900);
}

#[test]
fn ticks_never_increase_when_counting_down() {
    let mut c = CountUp::new(config(500, -300, 640, false)).unwrap();
    c.start();
    let values = run(&mut c, 0, 700, 7);
    assert!(values.windows(2).all(|w| w[0] >= w[1]));
    assert_eq!(*values.last().unwrap(), -300);
}

#[test]
fn smart_easing_overshoots_then_settles() {
    let mut cfg = config(0, 1000, 1000, true);
    cfg.smart_easing_threshold = 50;
    cfg.smart_easing_amount = 10;
    let mut c = CountUp::new(cfg).unwrap();
    c.start();
    assert_eq!(c.phase(), Phase { start: 0, end: 1010, duration_ms: 500, eased: false });
    assert_eq!(c.final_end_value(), Some(1000));
    assert_eq!(c.target(), 1000);
    c.tick(0);
    assert_eq!(c.tick(250), shown(505));
    assert_eq!(c.tick(500), shown(1010));
    assert_eq!(c.phase(), Phase { start: 1010, end: 1000, duration_ms: 500, eased: true });
    assert_eq!(c.final_end_value(), None);
    assert!(c.count_down());
    assert_eq!(c.tick(500), shown(1010));
    assert_eq!(c.tick(1000), finished(1000));
    assert_eq!(c.tick(1100), quiet());
}

#[test]
fn smart_easing_when_counting_down_undershoots_then_settles() {
    let mut cfg = config(1000, 0, 400, true);
    cfg.smart_easing_threshold = 50;
    cfg.smart_easing_amount = 10;
    let mut c = CountUp::new(cfg).unwrap();
    c.start();
    assert_eq!(c.phase(), Phase { start: 1000, end: -10, duration_ms: 200, eased: false });
    c.tick(0);
    assert_eq!(c.tick(200), shown(-10));
    assert_eq!(c.phase(), Phase { start: -10, end: 0, duration_ms: 200, eased: true });
    c.tick(200);
    assert_eq!(c.tick(400), finished(0));
}

#[test]
fn small_distance_is_not_split() {
    let mut cfg = config(0, 40, 1000, true);
    cfg.smart_easing_threshold = 50;
    cfg.smart_easing_amount = 10;
    let mut c = CountUp::new(cfg).unwrap();
    c.start();
    assert_eq!(c.phase(), Phase { start: 0, end: 40, duration_ms: 1000, eased: true });
    assert_eq!(c.final_end_value(), None);
}

#[test]
fn reset_returns_to_start_value() {
    let mut c = CountUp::new(config(20, 100, 1000, false)).unwrap();
    c.start();
    c.tick(0);
    c.tick(600);
    assert_eq!(c.frame_value(), 68);
    let e = c.reset();
    assert_eq!(e, Effects { display: Some(20), cancel_tick: true, ..quiet() });
    assert_eq!(c.frame_value(), 20);
    assert_eq!(c.status(), Status::Idle);
    assert_eq!(c.tick(700), quiet());
    assert_eq!(c.frame_value(), 20);
}

#[test]
fn reset_after_finish_and_restart_runs_again() {
    let mut c = CountUp::new(config(0, 10, 100, false)).unwrap();
    c.start();
    c.tick(0);
    c.tick(100);
    c.reset();
    assert_eq!(c.frame_value(), 0);
    c.start();
    c.tick(1000);
    assert_eq!(c.tick(1050), shown(5));
    assert_eq!(c.tick(1100), finished(10));
}

#[test]
fn pause_keeps_frame_and_resume_reaches_same_end() {
    let mut c = CountUp::new(config(0, 100, 1000, false)).unwrap();
    c.start();
    c.tick(0);
    c.tick(400);
    assert_eq!(c.frame_value(), 40);
    assert_eq!(c.pause_or_resume(), Effects { cancel_tick: true, ..quiet() });
    assert!(c.is_paused());
    assert_eq!(c.remaining_ms(), 600);
    assert_eq!(c.tick(900), quiet());
    assert_eq!(c.frame_value(), 40);
    assert_eq!(c.pause_or_resume(), Effects { schedule_tick: true, ..quiet() });
    assert_eq!(c.phase(), Phase { start: 40, end: 100, duration_ms: 600, eased: false });
    assert_eq!(c.frame_value(), 40);
    assert_eq!(c.tick(5000), shown(40));
    assert_eq!(c.tick(5300), shown(70));
    assert_eq!(c.tick(5600), finished(100));
}

#[test]
fn pause_or_resume_does_nothing_when_idle_or_finished() {
    let mut c = CountUp::new(config(0, 100, 10, false)).unwrap();
    assert_eq!(c.pause_or_resume(), quiet());
    assert_eq!(c.status(), Status::Idle);
    c.start();
    c.tick(0);
    c.tick(10);
    assert_eq!(c.pause_or_resume(), quiet());
    assert_eq!(c.status(), Status::Finished);
}

#[test]
fn update_to_frame_value_is_a_no_op() {
    let mut c = CountUp::new(config(0, 100, 1000, false)).unwrap();
    c.start();
    c.tick(0);
    c.tick(300);
    let phase = c.phase();
    assert_eq!(c.update(30), Ok(quiet()));
    assert_eq!(c.phase(), phase);
    assert_eq!(c.start_time_ms(), Some(0));
    assert_eq!(c.tick(1000), finished(100));
    assert_eq!(c.update(100), Ok(quiet()));
    assert_eq!(c.status(), Status::Finished);
}

#[test]
fn update_retargets_from_frame_value() {
    let mut c = CountUp::new(config(0, 100, 1000, false)).unwrap();
    c.start();
    c.tick(0);
    c.tick(500);
    assert_eq!(c.update(200), Ok(Effects { schedule_tick: true, ..quiet() }));
    assert_eq!(c.phase(), Phase { start: 50, end: 200, duration_ms: 1000, eased: false });
    assert_eq!(c.start_time_ms(), None);
    c.tick(600);
    assert_eq!(c.tick(1100), shown(125));
    assert_eq!(c.tick(1600), finished(200));
}

#[test]
fn update_in_fast_phase_keeps_its_duration() {
    let mut cfg = config(0, 1000, 1000, true);
    cfg.smart_easing_threshold = 50;
    cfg.smart_easing_amount = 10;
    let mut c = CountUp::new(cfg).unwrap();
    c.start();
    c.tick(0);
    c.tick(250);
    assert_eq!(c.frame_value(), 505);
    c.update(530).unwrap();
    assert_eq!(c.phase(), Phase { start: 505, end: 530, duration_ms: 500, eased: true });
}

#[test]
fn update_after_finish_starts_a_new_run() {
    let mut c = CountUp::new(config(0, 100, 1000, false)).unwrap();
    c.start();
    c.tick(0);
    c.tick(1000);
    c.update(50).unwrap();
    assert_eq!(c.status(), Status::Running);
    assert!(c.count_down());
    c.tick(2000);
    assert_eq!(c.tick(3000), finished(50));
}

#[test]
fn update_out_of_range_is_refused() {
    let mut c = CountUp::new(config(0, 100, 1000, false)).unwrap();
    c.start();
    assert_eq!(c.update(MAX_VALUE + 1), Err(CountUpError::ValueOutOfRange));
    assert_eq!(c.update(-MAX_VALUE - 1), Err(CountUpError::ValueOutOfRange));
    assert_eq!(c.target(), 100);
    assert_eq!(c.update(MAX_VALUE), Ok(Effects { schedule_tick: true, ..quiet() }));
}

#[test]
fn zero_duration_jumps_to_end() {
    let mut c = CountUp::new(config(0, 100, 0, true)).unwrap();
    let e = c.start();
    assert_eq!(
        e,
        Effects { started: true, display: Some(100), cancel_tick: true, completed: true, ..quiet() }
    );
    assert_eq!(c.frame_value(), 100);
    assert_eq!(c.status(), Status::Finished);
    assert_eq!(c.tick(5), quiet());
}

#[test]
fn start_notifies_each_time() {
    let mut c = CountUp::new(config(0, 100, 1000, false)).unwrap();
    assert!(c.start().started);
    c.tick(0);
    c.tick(500);
    assert!(c.start().started);
    assert_eq!(c.frame_value(), 0);
    assert_eq!(c.start_time_ms(), None);
}

#[test]
fn clock_going_back_counts_as_no_time() {
    let mut c = CountUp::new(config(0, 100, 1000, false)).unwrap();
    c.start();
    c.tick(500);
    assert_eq!(c.tick(100), shown(0));
    assert_eq!(c.remaining_ms(), 1000);
}

#[test]
fn config_values_out_of_range_are_refused() {
    assert_eq!(
        CountUp::new(config(MAX_VALUE + 1, 0, 10, false)).err(),
        Some(CountUpError::ValueOutOfRange)
    );
    assert_eq!(
        CountUp::new(config(0, -MAX_VALUE - 1, 10, false)).err(),
        Some(CountUpError::ValueOutOfRange)
    );
    assert!(CountUp::new(config(-MAX_VALUE, MAX_VALUE, 10, false)).is_ok());
}

#[test]
fn smart_easing_amount_too_large_is_refused() {
    let mut cfg = config(0, 100, 10, true);
    cfg.smart_easing_threshold = 5;
    cfg.smart_easing_amount = 6;
    assert_eq!(CountUp::new(cfg).err(), Some(CountUpError::SmartEasingAmountTooLarge));
    cfg.smart_easing_threshold = u64::MAX;
    cfg.smart_easing_amount = MAX_VALUE as u64 + 1;
    assert_eq!(CountUp::new(cfg).err(), Some(CountUpError::SmartEasingAmountTooLarge));
    cfg.smart_easing_amount = MAX_VALUE as u64;
    assert!(CountUp::new(cfg).is_ok());
}

#[test]
fn largest_values_and_duration_do_not_overflow() {
    let mut cfg = config(-MAX_VALUE, MAX_VALUE, u32::MAX, true);
    cfg.smart_easing_threshold = MAX_VALUE as u64;
    cfg.smart_easing_amount = MAX_VALUE as u64;
    let mut c = CountUp::new(cfg).unwrap();
    c.start();
    let half = u32::MAX / 2;
    assert_eq!(c.phase(), Phase { start: -MAX_VALUE, end: 2 * MAX_VALUE, duration_ms: half, eased: false });
    c.tick(0);
    let mid = c.tick(half as u64 / 2).display.unwrap();
    assert!(mid > -MAX_VALUE && mid < 2 * MAX_VALUE);
    assert_eq!(c.tick(half as u64), shown(2 * MAX_VALUE));
    c.tick(half as u64);
    let settling = c.tick(half as u64 + half as u64 / 2).display.unwrap();
    assert!(settling < 2 * MAX_VALUE && settling > MAX_VALUE);
    assert_eq!(c.tick(2 * half as u64), finished(MAX_VALUE));
}

#[test]
fn phase_value_at_start_middle_and_end() {
    let p = Phase { start: 10, end: -10, duration_ms: 4, eased: false };
    assert_eq!(p.value_at(0), 10);
    assert_eq!(p.value_at(1), 5);
    assert_eq!(p.value_at(2), 0);
    assert_eq!(p.value_at(4), -10);
    assert_eq!(p.value_at(99), -10);
    let q = Phase { start: 0, end: 1000, duration_ms: 10, eased: true };
    assert_eq!(q.value_at(1), 190);
    assert_eq!(q.value_at(5), 750);
    assert_eq!(q.value_at(9), 990);
}

#[test]
fn check_reports_validity() {
    assert_eq!(config(0, 1, 1, false).check(), Ok(()));
    assert_eq!(config(0, MAX_VALUE + 7, 1, false).check(), Err(CountUpError::ValueOutOfRange));
}
