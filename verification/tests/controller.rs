use sickle::color::Config;
use sickle::controller::{Action, Controller, DragState};
use sickle::frac::FRAC_UNIT;
use sickle::timeline::{Intent, TimelineEvent};

#[test]
fn a_fresh_controller_selects_the_first_half() {
    let c = Controller::new(120_000);
    assert_eq!(c.start, 0);
    assert_eq!(c.end, FRAC_UNIT / 2);
    assert_eq!(c.cursor_position, 0);
    assert_eq!(c.drag, DragState::Idle);
    assert!(!c.moving);
}

#[test]
fn grab_sets_the_drag_state_without_moving_anything() {
    let mut c = Controller::new(120_000);
    let a = c.reduce(Intent::GrabStart);
    assert_eq!(a, Action::Stay);
    assert_eq!(c.drag, DragState::DraggingStart);
    assert_eq!(c.start, 0);
    assert_eq!(c.end, 500_000);

    let a = c.reduce(Intent::GrabEnd);
    assert_eq!(a, Action::Stay);
    assert_eq!(c.drag, DragState::DraggingEnd);

    let a = c.reduce(Intent::BeginScrub);
    assert_eq!(a, Action::Stay);
    assert_eq!(c.drag, DragState::Scrubbing);
}

#[test]
fn update_start_moves_start_and_seeks() {
    let mut c = Controller::new(120_000);
    let a = c.reduce(Intent::UpdateStart(100_000));
    assert_eq!(a, Action::Seek(100_000));
    assert_eq!(c.start, 100_000);
    assert_eq!(c.cursor_position, 100_000);
    assert_eq!(c.mouse, 100_000);
    assert_eq!(c.position_value, 100_000);
    assert!(c.moving);
    // 0.1 of 120 s is 12 s
    assert_eq!(c.mouse_content, "00:12.000");
}

#[test]
fn set_playback_time_leaves_the_selection_alone() {
    let mut c = Controller::new(120_000);
    let a = c.reduce(Intent::SetPlaybackTime(750_000));
    assert_eq!(a, Action::Seek(750_000));
    assert_eq!(c.cursor_position, 750_000);
    assert_eq!(c.start, 0);
    assert_eq!(c.end, 500_000);
}

#[test]
fn toggle_play_pause_is_handed_to_the_host() {
    let mut c = Controller::new(120_000);
    let a = c.reduce(Intent::TogglePlayPause);
    assert_eq!(a, Action::TogglePause);
    assert_eq!(c.drag, DragState::Idle);
}

#[test]
fn restart_stream_is_a_reserved_hook() {
    let mut c = Controller::new(120_000);
    let before_start = c.start;
    let a = c.reduce(Intent::RestartStream);
    assert_eq!(a, Action::Stay);
    assert_eq!(c.start, before_start);
}

#[test]
fn hover_updates_display_state_only_and_is_idempotent() {
    let mut c = Controller::new(120_000);
    let a = c.reduce(Intent::HoverMove(300_000));
    assert_eq!(a, Action::Stay);
    assert_eq!(c.mouse, 300_000);
    // 0.3 of 120 s is 36 s
    assert_eq!(c.mouse_content, "00:36.000");
    assert_eq!(c.start, 0);
    assert_eq!(c.end, 500_000);
    assert_eq!(c.cursor_position, 0);
    assert_eq!(c.drag, DragState::Idle);
    assert!(!c.moving);

    let (s, e, cp, m, mc) = (c.start, c.end, c.cursor_position, c.mouse, c.mouse_content.clone());
    let a = c.reduce(Intent::HoverMove(300_000));
    assert_eq!(a, Action::Stay);
    assert_eq!(c.start, s);
    assert_eq!(c.end, e);
    assert_eq!(c.cursor_position, cp);
    assert_eq!(c.mouse, m);
    assert_eq!(c.mouse_content, mc);
}

#[test]
fn release_clears_exactly_the_flag_that_was_set() {
    let mut c = Controller::new(120_000);
    c.reduce(Intent::GrabStart);
    // a release of a different kind leaves the drag alone
    c.reduce(Intent::ReleaseEnd);
    assert_eq!(c.drag, DragState::DraggingStart);
    c.reduce(Intent::EndScrub);
    assert_eq!(c.drag, DragState::DraggingStart);
    // the matching release clears it
    c.reduce(Intent::ReleaseStart);
    assert_eq!(c.drag, DragState::Idle);
}

#[test]
fn press_move_release_ends_idle() {
    let mut c = Controller::new(120_000);
    c.reduce(Intent::GrabEnd);
    for f in [480_000u32, 460_000, 440_000, 420_000, 400_000] {
        c.reduce(Intent::UpdateEnd(f));
    }
    c.reduce(Intent::ReleaseEnd);
    assert_eq!(c.drag, DragState::Idle);
    assert_eq!(c.end, 400_000);
}

#[test]
fn grab_update_release_scenario_trims_the_end() {
    // duration 120 s, initial selection 0 .. 60 s (fractions 0 and 0.5)
    let mut c = Controller::new(120_000);
    assert_eq!(c.start, 0);
    assert_eq!(c.end, 500_000);
    c.reduce(Intent::GrabEnd);
    let a = c.reduce(Intent::UpdateEnd(250_000));
    assert_eq!(a, Action::Seek(250_000));
    c.reduce(Intent::ReleaseEnd);
    // the end now sits at 0.25 (30 s), the start is untouched, nothing is held
    assert_eq!(c.end, 250_000);
    assert_eq!(c.start, 0);
    assert_eq!(c.drag, DragState::Idle);
}

#[test]
fn ticks_fire_only_while_a_drag_is_pending() {
    let mut c = Controller::new(120_000);
    assert!(!c.wants_tick());
    c.reduce(Intent::GrabStart);
    assert!(!c.wants_tick());
    c.reduce(Intent::UpdateStart(200_000));
    assert!(c.wants_tick());
    let a = c.tick();
    assert_eq!(a, Action::Seek(200_000));
    assert_eq!(c.start, 200_000);
    assert!(!c.moving);
    assert!(!c.wants_tick());
    c.reduce(Intent::ReleaseStart);
    assert_eq!(c.drag, DragState::Idle);
}

#[test]
fn a_tick_without_a_drag_does_nothing() {
    let mut c = Controller::new(120_000);
    c.reduce(Intent::SetPlaybackTime(400_000));
    // a pending seek alone, with no drag active, schedules no tick
    assert!(!c.wants_tick());
    let a = c.tick();
    assert_eq!(a, Action::Stay);
    assert_eq!(c.cursor_position, 400_000);
}

#[test]
fn new_frames_advance_the_cursor() {
    let mut c = Controller::new(120_000);
    c.on_new_frame(123_456);
    assert_eq!(c.cursor_position, 123_456);
    assert_eq!(c.start, 0);
    assert_eq!(c.end, 500_000);
}

#[test]
fn a_whole_drag_runs_through_widget_and_controller() {
    let mut c = Controller::new(120_000);
    let width = 1000u32;
    // press on the end handle (the selection ends at 0.5, so at 500 px)
    let t = c.render(Config::default());
    for i in t.on_event(width, TimelineEvent::LeftPressed { x: 498, over: true }) {
        c.reduce(i);
    }
    assert_eq!(c.drag, DragState::DraggingEnd);
    // drag it to 250 px
    let t = c.render(Config::default());
    for i in t.on_event(width, TimelineEvent::CursorMoved { x: 250, over: true }) {
        c.reduce(i);
    }
    assert_eq!(c.end, 250_000);
    // let go
    let t = c.render(Config::default());
    for i in t.on_event(width, TimelineEvent::LeftReleased) {
        c.reduce(i);
    }
    assert_eq!(c.drag, DragState::Idle);
    assert_eq!(c.start, 0);
    assert_eq!(c.end, 250_000);
}

#[test]
fn the_render_view_mirrors_the_drag_state() {
    let mut c = Controller::new(120_000);
    c.reduce(Intent::GrabEnd);
    c.reduce(Intent::UpdateEnd(321_000));
    let t = c.render(Config::default());
    assert_eq!(t.duration_ms, 120_000);
    assert_eq!(t.start, 0);
    assert_eq!(t.end, 321_000);
    assert!(!t.pressed_start);
    assert!(t.pressed_end);
    assert!(!t.pressed_anywhere);
    assert_eq!(t.mouse, 321_000);
    assert_eq!(t.mouse_content, c.mouse_content);
}
