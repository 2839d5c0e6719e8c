use sickle::color::Config;
use sickle::frac::{frac_for, pixel_for, FRAC_UNIT};
use sickle::timeline::{
    in_end_zone, in_start_zone, Intent, Interaction, KeyInput, Timeline, TimelineEvent,
};

fn view(start: u32, end: u32) -> Timeline {
    Timeline {
        duration_ms: 120_000,
        cursor_position: 0,
        start,
        end,
        pressed_start: false,
        pressed_end: false,
        pressed_anywhere: false,
        mouse: 0,
        mouse_content: String::new(),
        config: Config::default(),
    }
}

#[test]
fn pixel_for_maps_fractions_to_offsets() {
    assert_eq!(pixel_for(0, 800), 0);
    assert_eq!(pixel_for(500_000, 800), 400);
    assert_eq!(pixel_for(FRAC_UNIT, 800), 800);
    assert_eq!(pixel_for(250_000, 1000), 250);
}

#[test]
fn frac_for_inverts_and_clamps() {
    assert_eq!(frac_for(400, 800), 500_000);
    assert_eq!(frac_for(-5, 800), 0);
    assert_eq!(frac_for(0, 800), 0);
    assert_eq!(frac_for(800, 800), FRAC_UNIT);
    assert_eq!(frac_for(900, 800), FRAC_UNIT);
}

#[test]
fn pixel_frac_round_trip_is_exact_on_divisible_widths() {
    // 1000 px divides FRAC_UNIT, so the round trip loses nothing.
    for f in [0u32, 1000, 250_000, 999_000, FRAC_UNIT] {
        assert_eq!(frac_for(pixel_for(f, 1000) as i64, 1000), f);
    }
}

#[test]
fn pixel_frac_round_trip_error_is_under_one_pixel() {
    let width = 777u32;
    for f in [1u32, 12_345, 499_999, 876_543] {
        let back = frac_for(pixel_for(f, width) as i64, width);
        assert!(back <= f);
        assert!(f - back <= FRAC_UNIT / width + 1);
    }
}

#[test]
fn track_geometry_positions_markers() {
    let mut t = view(100_000, 500_000);
    t.cursor_position = 250_000;
    let g = t.track_geometry(1000);
    assert_eq!(g.start_px, 100);
    assert_eq!(g.end_px, 500);
    assert_eq!(g.cursor_px, 250);
}

#[test]
fn tooltip_follows_mouse_less_half_its_width() {
    let mut t = view(0, 500_000);
    t.mouse = 500_000;
    assert_eq!(t.tooltip_left(1000), 500 - 60);
    t.mouse = 0;
    assert_eq!(t.tooltip_left(1000), -60);
}

#[test]
fn grab_zones_cover_the_handles_with_tolerance() {
    // start zone: [start_px - 11, start_px + 7]
    assert!(in_start_zone(-11, 0));
    assert!(in_start_zone(7, 0));
    assert!(!in_start_zone(8, 0));
    assert!(!in_start_zone(-12, 0));
    // end zone: [end_px - 18, end_px + 7]
    assert!(in_end_zone(482, 500));
    assert!(in_end_zone(507, 500));
    assert!(!in_end_zone(481, 500));
    assert!(!in_end_zone(508, 500));
}

#[test]
fn press_on_start_handle_grabs_it() {
    let t = view(0, 500_000);
    let r = t.on_event(1000, TimelineEvent::LeftPressed { x: 3, over: true });
    assert_eq!(r, vec![Intent::GrabStart]);
}

#[test]
fn press_on_end_handle_grabs_it() {
    let t = view(0, 500_000);
    let r = t.on_event(1000, TimelineEvent::LeftPressed { x: 495, over: true });
    assert_eq!(r, vec![Intent::GrabEnd]);
}

#[test]
fn press_elsewhere_begins_a_scrub() {
    let t = view(0, 500_000);
    let r = t.on_event(1000, TimelineEvent::LeftPressed { x: 200, over: true });
    assert_eq!(r, vec![Intent::SetPlaybackTime(200_000), Intent::BeginScrub]);
}

#[test]
fn press_outside_the_track_does_nothing() {
    let t = view(0, 500_000);
    let r = t.on_event(1000, TimelineEvent::LeftPressed { x: 200, over: false });
    assert_eq!(r, Vec::<Intent>::new());
}

#[test]
fn dragging_start_cannot_cross_the_end_handle() {
    let mut t = view(0, 500_000);
    t.pressed_start = true;
    // end handle sits at 500 px; the drag stops 20 px short of it.
    let r = t.on_event(1000, TimelineEvent::CursorMoved { x: 600, over: true });
    assert_eq!(r, vec![Intent::UpdateStart(480_000)]);
    // and every published fraction stays at or before the end.
    for x in [-50i64, 0, 100, 499, 500, 2000] {
        match t.on_event(1000, TimelineEvent::CursorMoved { x, over: true })[0] {
            Intent::UpdateStart(f) => assert!(f <= t.end),
            ref other => panic!("unexpected intent {:?}", other),
        }
    }
}

#[test]
fn dragging_end_cannot_cross_the_start_handle() {
    let mut t = view(400_000, 900_000);
    t.pressed_end = true;
    // start handle sits at 400 px; the drag stops 18 px right of it.
    let r = t.on_event(1000, TimelineEvent::CursorMoved { x: 100, over: true });
    assert_eq!(r, vec![Intent::UpdateEnd(418_000)]);
    for x in [-50i64, 0, 401, 700, 2000] {
        match t.on_event(1000, TimelineEvent::CursorMoved { x, over: true })[0] {
            Intent::UpdateEnd(f) => assert!(f >= t.start),
            ref other => panic!("unexpected intent {:?}", other),
        }
    }
}

#[test]
fn scrubbing_follows_the_pointer_clamped_to_the_track() {
    let mut t = view(0, 500_000);
    t.pressed_anywhere = true;
    let r = t.on_event(1000, TimelineEvent::CursorMoved { x: 750, over: false });
    assert_eq!(r, vec![Intent::SetPlaybackTime(750_000)]);
    let r = t.on_event(1000, TimelineEvent::CursorMoved { x: 1500, over: false });
    assert_eq!(r, vec![Intent::SetPlaybackTime(FRAC_UNIT)]);
}

#[test]
fn hovering_emits_only_hover_moves() {
    let t = view(0, 500_000);
    let r = t.on_event(1000, TimelineEvent::CursorMoved { x: 250, over: true });
    assert_eq!(r, vec![Intent::HoverMove(250_000)]);
    let r = t.on_event(1000, TimelineEvent::CursorMoved { x: 250, over: false });
    assert_eq!(r, Vec::<Intent>::new());
}

#[test]
fn release_emits_one_intent_per_active_flag() {
    let mut t = view(0, 500_000);
    t.pressed_start = true;
    let r = t.on_event(1000, TimelineEvent::LeftReleased);
    assert_eq!(r, vec![Intent::ReleaseStart]);

    let mut t = view(0, 500_000);
    t.pressed_anywhere = true;
    t.pressed_end = true;
    let r = t.on_event(1000, TimelineEvent::LeftReleased);
    assert_eq!(r, vec![Intent::EndScrub, Intent::ReleaseEnd]);

    let t = view(0, 500_000);
    let r = t.on_event(1000, TimelineEvent::LeftReleased);
    assert_eq!(r, Vec::<Intent>::new());
}

#[test]
fn space_toggles_play_pause() {
    let t = view(0, 500_000);
    let r = t.on_event(1000, TimelineEvent::KeyPressed(KeyInput::Space));
    assert_eq!(r, vec![Intent::TogglePlayPause]);
}

#[test]
fn arrow_nudges_end_when_end_is_held() {
    let mut t = view(100_000, 500_000);
    t.pressed_end = true;
    // even with start held too, the end takes priority
    t.pressed_start = true;
    let r = t.on_event(1000, TimelineEvent::KeyPressed(KeyInput::ArrowRight));
    assert_eq!(r, vec![Intent::UpdateEnd(501_000)]);
    let r = t.on_event(1000, TimelineEvent::KeyPressed(KeyInput::ArrowLeft));
    assert_eq!(r, vec![Intent::UpdateEnd(499_000)]);
}

#[test]
fn arrow_nudges_start_when_only_start_is_held() {
    let mut t = view(100_000, 500_000);
    t.pressed_start = true;
    let r = t.on_event(1000, TimelineEvent::KeyPressed(KeyInput::ArrowLeft));
    assert_eq!(r, vec![Intent::UpdateStart(99_000)]);
    let r = t.on_event(1000, TimelineEvent::KeyPressed(KeyInput::ArrowRight));
    assert_eq!(r, vec![Intent::UpdateStart(101_000)]);
}

#[test]
fn arrow_nudges_playback_when_nothing_is_held() {
    let mut t = view(100_000, 500_000);
    t.cursor_position = 300_000;
    let r = t.on_event(1000, TimelineEvent::KeyPressed(KeyInput::ArrowRight));
    assert_eq!(r, vec![Intent::SetPlaybackTime(301_000)]);
}

#[test]
fn nudges_clamp_to_the_duration() {
    let mut t = view(0, FRAC_UNIT);
    t.pressed_end = true;
    let r = t.on_event(1000, TimelineEvent::KeyPressed(KeyInput::ArrowRight));
    assert_eq!(r, vec![Intent::UpdateEnd(FRAC_UNIT)]);

    let mut t = view(0, 500_000);
    t.cursor_position = 0;
    let r = t.on_event(1000, TimelineEvent::KeyPressed(KeyInput::ArrowLeft));
    assert_eq!(r, vec![Intent::SetPlaybackTime(0)]);
}

#[test]
fn ctrl_r_restarts_the_stream() {
    let t = view(0, 500_000);
    let r = t.on_event(
        1000,
        TimelineEvent::KeyPressed(KeyInput::Character { ch: 'r', ctrl: true }),
    );
    assert_eq!(r, vec![Intent::RestartStream]);
    let r = t.on_event(
        1000,
        TimelineEvent::KeyPressed(KeyInput::Character { ch: 'r', ctrl: false }),
    );
    assert_eq!(r, Vec::<Intent>::new());
    let r = t.on_event(
        1000,
        TimelineEvent::KeyPressed(KeyInput::Character { ch: 'q', ctrl: true }),
    );
    assert_eq!(r, Vec::<Intent>::new());
}

#[test]
fn interaction_reports_the_affordance() {
    let mut t = view(100_000, 500_000);
    assert_eq!(t.mouse_interaction(1000, Some(101)), Interaction::Grab);
    assert_eq!(t.mouse_interaction(1000, Some(495)), Interaction::Grab);
    assert_eq!(t.mouse_interaction(1000, Some(300)), Interaction::Inert);
    assert_eq!(t.mouse_interaction(1000, None), Interaction::Inert);
    t.pressed_anywhere = true;
    assert_eq!(t.mouse_interaction(1000, Some(300)), Interaction::Resizing);
    t.pressed_start = true;
    assert_eq!(t.mouse_interaction(1000, Some(300)), Interaction::Grabbing);
}
