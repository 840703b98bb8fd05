use stage_timer::{format_time, RunState, Stage, Stages, TimerApp};

fn app_of(stages: &[(&str, u64)]) -> TimerApp {
    TimerApp::new(Stages::new(stages.iter().map(|(n, d)| Stage::new(n, *d)).collect()))
}

#[test]
fn format_time_pads_minutes_and_seconds() {
    assert_eq!(format_time(0), "00:00");
    assert_eq!(format_time(65), "01:05");
    assert_eq!(format_time(600), "10:00");
    assert_eq!(format_time(3599), "59:59");
    assert_eq!(format_time(6000), "100:00");
    assert_eq!(format_time(u32::MAX), "71582788:15");
}

#[test]
fn new_app_is_idle() {
    let app = app_of(&[("Pausa", 300)]);
    assert!(!app.show_config);
    assert!(!app.loop_is_enabled);
    assert!(app.editing_stage_name.is_none());
    assert!(app.editing_text.is_empty());
    assert!(app.shows_play());
    assert_eq!(app.repaint_after_ms(), 256);
}

#[test]
fn running_app_repaints_fast_and_shows_pause() {
    let mut app = app_of(&[("Pausa", 300)]);
    app.timer.toggle_play(0);
    assert!(!app.shows_play());
    assert_eq!(app.repaint_after_ms(), 64);
    app.timer.toggle_play(10);
    assert!(app.shows_play());
    assert_eq!(app.repaint_after_ms(), 256);
}

#[test]
fn tick_follows_loop_switch() {
    let mut app = app_of(&[("A", 1), ("B", 1)]);
    app.loop_is_enabled = true;
    app.timer.toggle_play(0);
    assert!(!app.tick(500));
    assert!(app.tick(1000));
    assert!(app.tick(2000));
    assert_eq!(app.timer.stages.get_current().unwrap().name, "A");
    assert_eq!(app.timer.state, RunState::Running { since: 2000, banked: 0 });
}

#[test]
fn editing_a_name_commits_typed_text() {
    let mut app = app_of(&[("A", 1), ("B", 1)]);
    app.begin_edit(1);
    assert_eq!(app.editing_stage_name, Some(1));
    assert_eq!(app.editing_text, "B");
    app.editing_text = "Break".to_string();
    app.commit_edit();
    assert!(app.editing_stage_name.is_none());
    assert!(app.editing_text.is_empty());
    assert_eq!(app.timer.stages.snapshot()[1].name, "Break");
}

#[test]
fn begin_edit_out_of_range_does_nothing() {
    let mut app = app_of(&[("A", 1)]);
    app.begin_edit(4);
    assert!(app.editing_stage_name.is_none());
}

#[test]
fn set_minutes_and_add_stage() {
    let mut app = app_of(&[("A", 1)]);
    app.set_stage_minutes(0, 25);
    app.add_stage();
    let s = app.timer.stages.snapshot();
    assert_eq!(s[0].duration, 1500);
    assert_eq!(s[1].name, "stage");
    assert_eq!(s[1].duration, 0);
}
