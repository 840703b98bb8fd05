use stage_timer::{RunState, Stage, Stages, Timer};

fn timer_of(stages: &[(&str, u64)]) -> Timer {
    Timer::new(Stages::new(stages.iter().map(|(n, d)| Stage::new(n, *d)).collect()))
}

#[test]
fn new_timer_is_not_started() {
    let t = timer_of(&[("A", 5)]);
    assert!(!t.has_stared());
    assert!(!t.is_paused());
    assert_eq!(t.state, RunState::NotStarted);
    assert_eq!(t.time_left(123_456), 5000);
}

#[test]
fn time_left_counts_down_while_running() {
    let mut t = timer_of(&[("A", 5)]);
    t.toggle_play(1000);
    assert!(t.has_stared());
    assert_eq!(t.time_left(1000), 5000);
    assert_eq!(t.time_left(2500), 3500);
    assert_eq!(t.time_left(6000), 0);
    assert_eq!(t.time_left(60_000), 0);
}

#[test]
fn time_left_is_zero_without_a_stage() {
    let mut t = timer_of(&[]);
    assert_eq!(t.time_left(0), 0);
    t.toggle_play(0);
    assert_eq!(t.time_left(10), 0);
}

#[test]
fn time_left_never_rises_while_running_and_holds_while_paused() {
    let mut t = timer_of(&[("A", 10)]);
    t.toggle_play(0);
    let mut last = t.time_left(0);
    for now in (0..12_000).step_by(500) {
        let left = t.time_left(now);
        assert!(left <= last);
        last = left;
    }
    t.toggle_play(4000);
    assert!(t.is_paused());
    assert_eq!(t.time_left(4000), 6000);
    assert_eq!(t.time_left(9000), 6000);
    assert_eq!(t.time_left(900_000), 6000);
}

#[test]
fn single_stage_expiry_without_loop_resets_everything() {
    let mut t = timer_of(&[("A", 5)]);
    t.toggle_play(0);
    assert!(t.check_progress(false, 6000));
    assert_eq!(t.state, RunState::NotStarted);
    assert!(!t.has_stared());
    assert_eq!(t.stages.get_current().unwrap().name, "A");
}

#[test]
fn expiry_moves_to_next_stage_and_keeps_running() {
    let mut t = timer_of(&[("A", 5), ("B", 10)]);
    t.toggle_play(0);
    assert!(!t.check_progress(false, 4999));
    assert_eq!(t.stages.get_current().unwrap().name, "A");
    assert!(t.check_progress(false, 5000));
    assert_eq!(t.stages.get_current().unwrap().name, "B");
    assert_eq!(t.time_left(5000), 10_000);
    assert_eq!(t.state, RunState::Running { since: 5000, banked: 0 });
}

#[test]
fn loop_restarts_from_first_stage() {
    let mut t = timer_of(&[("A", 5), ("B", 10)]);
    t.toggle_play(0);
    assert!(t.check_progress(true, 5000));
    assert!(t.check_progress(true, 15_000));
    assert_eq!(t.stages.get_current().unwrap().name, "A");
    assert!(t.has_stared());
    assert_eq!(t.state, RunState::Running { since: 15_000, banked: 0 });
    assert_eq!(t.time_left(16_000), 4000);
}

#[test]
fn resume_keeps_time_run_before_pause() {
    let mut t = timer_of(&[("A", 5)]);
    t.toggle_play(10_000);
    t.toggle_play(13_000);
    assert!(t.is_paused());
    t.toggle_play(500_000);
    assert!(!t.is_paused());
    assert_eq!(t.time_left(500_000), 2000);
    assert_eq!(t.time_left(501_000), 1000);
}

#[test]
fn reset_without_all_keeps_cursor() {
    let mut t = timer_of(&[("A", 5), ("B", 10)]);
    t.toggle_play(0);
    t.check_progress(false, 5000);
    t.reset(false);
    assert_eq!(t.state, RunState::NotStarted);
    assert_eq!(t.stages.get_current().unwrap().name, "B");
    assert_eq!(t.time_left(99_999), 10_000);
}

#[test]
fn reset_all_rewinds_cursor() {
    let mut t = timer_of(&[("A", 5), ("B", 10)]);
    t.toggle_play(0);
    t.check_progress(false, 5000);
    t.reset(true);
    assert_eq!(t.state, RunState::NotStarted);
    assert_eq!(t.stages.get_current().unwrap().name, "A");
}

#[test]
fn zero_length_stage_is_over_at_once() {
    let mut t = timer_of(&[("A", 0), ("B", 3)]);
    assert!(t.check_progress(false, 42));
    assert_eq!(t.stages.get_current().unwrap().name, "B");
    assert_eq!(t.state, RunState::Running { since: 42, banked: 0 });
}

#[test]
fn empty_list_progress_resets() {
    let mut t = timer_of(&[]);
    t.toggle_play(0);
    assert!(t.check_progress(false, 1));
    assert_eq!(t.state, RunState::NotStarted);
}

#[test]
fn huge_durations_do_not_overflow() {
    let mut t = timer_of(&[("A", u64::MAX)]);
    t.toggle_play(0);
    assert_eq!(t.time_left(u64::MAX), (u64::MAX as u128) * 1000 - u64::MAX as u128);
}

#[test]
fn has_stared_only_while_running() {
    let mut t = timer_of(&[("A", 5), ("B", 5)]);
    assert!(!t.has_stared());
    t.toggle_play(0);
    assert!(t.has_stared());
    t.toggle_play(1000);
    assert!(t.is_paused());
    assert!(!t.has_stared());
    t.toggle_play(2000);
    assert!(t.has_stared());
    t.reset(false);
    assert!(!t.has_stared());
}
