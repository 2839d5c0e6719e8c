//! The timeline widget: a range bar with two drag handles and a playback
//! cursor. The widget owns no state across frames — the host hands it a fresh
//! view each frame and it turns raw pointer and keyboard input into intent
//! events, clamped so that no out-of-range fraction is ever emitted and a
//! dragged handle can never cross its neighbour.

use vstd::prelude::*;

use crate::color::Config;
use crate::frac::{
    frac_for, pixel_for, spec_frac_for, spec_pixel_for, valid_frac, FRAC_UNIT,
};
use vstd::arithmetic::div_mod::lemma_div_is_ordered;
use vstd::arithmetic::mul::lemma_mul_left_inequality;

verus! {

/// Fixed height of the track, in pixels; the widget spans the full available
/// width.
pub const TRACK_HEIGHT_PX: u32 = 60;

/// Width of a drag handle, in pixels.
pub const HANDLE_WIDTH_PX: u32 = 7;

/// Width of the playback cursor marker, in pixels.
pub const CURSOR_MARKER_WIDTH_PX: u32 = 3;

/// Size of the hover tooltip panel, in pixels.
pub const TOOLTIP_WIDTH_PX: u32 = 120;

/// Height of the hover tooltip panel, in pixels.
pub const TOOLTIP_HEIGHT_PX: u32 = 35;

/// Horizontal tolerance around a handle within which a press grabs it.
pub const GRAB_TOLERANCE_PX: u32 = 11;

/// While the start handle is dragged, its pixel offset is kept at least this
/// far left of the end handle's offset.
pub const START_DRAG_GAP_PX: u32 = 20;

/// While the end handle is dragged, its pixel offset is kept at least this
/// far right of the start handle's offset.
pub const END_DRAG_GAP_PX: u32 = 18;

/// A keyboard nudge moves the active position by this fraction of the whole
/// duration (one thousandth, the seconds-equivalent of `duration * 0.001`).
pub const NUDGE_FRAC: u32 = 1000;

/// The render-time view of the timeline, handed in fresh each frame. All
/// positions are normalized fractions of the duration; the ordering invariant
/// `start <= end` is the caller's to maintain, not the widget's.
pub struct Timeline {
    /// Total duration of the medium, in milliseconds.
    pub duration_ms: u64,
    /// Playback position, as a fraction.
    pub cursor_position: u32,
    /// Selection start, as a fraction.
    pub start: u32,
    /// Selection end, as a fraction.
    pub end: u32,
    /// Whether the start handle is held.
    pub pressed_start: bool,
    /// Whether the end handle is held.
    pub pressed_end: bool,
    /// Whether the track is held anywhere else (a scrub).
    pub pressed_anywhere: bool,
    /// Last hovered position, as a fraction.
    pub mouse: u32,
    /// Precomputed tooltip label for the hovered position.
    pub mouse_content: String,
    /// Display colors.
    pub config: Config,
}

/// The intent events the widget emits; the host reduces them into its own
/// state and hands the result back on the next frame.
#[derive(PartialEq, Eq, Structural, Clone, Copy, Debug)]
pub enum Intent {
    /// The start handle was grabbed.
    GrabStart,
    /// The end handle was grabbed.
    GrabEnd,
    /// A scrub began somewhere else on the track.
    BeginScrub,
    /// The start handle was let go.
    ReleaseStart,
    /// The end handle was let go.
    ReleaseEnd,
    /// The scrub ended.
    EndScrub,
    /// The selection start moves to this fraction.
    UpdateStart(u32),
    /// The selection end moves to this fraction.
    UpdateEnd(u32),
    /// Playback seeks to this fraction.
    SetPlaybackTime(u32),
    /// The pointer hovers this fraction; only display state changes.
    HoverMove(u32),
    /// Playback pauses or resumes.
    TogglePlayPause,
    /// The host may rebuild its decode pipeline.
    RestartStream,
}

/// A key press, after the host has resolved it from the raw event.
#[derive(PartialEq, Eq, Structural, Clone, Copy, Debug)]
pub enum KeyInput {
    Space,
    ArrowLeft,
    ArrowRight,
    Character { ch: char, ctrl: bool },
}

/// A raw input event. Pixel offsets are relative to the track's left edge and
/// may lie outside it; `over` says whether the pointer is within the track's
/// bounds.
#[derive(PartialEq, Eq, Structural, Clone, Copy, Debug)]
pub enum TimelineEvent {
    KeyPressed(KeyInput),
    CursorMoved { x: i64, over: bool },
    LeftPressed { x: i64, over: bool },
    LeftReleased,
}

/// The cursor affordance the widget reports.
#[derive(PartialEq, Eq, Structural, Clone, Copy, Debug)]
pub enum Interaction {
    /// A handle is held.
    Grabbing,
    /// A scrub is in progress.
    Resizing,
    /// The pointer hovers a handle.
    Grab,
    /// Nothing of interest.
    Inert,
}

/// The derived pixel offsets of the three markers on a track of a given
/// width.
#[derive(PartialEq, Eq, Structural, Clone, Copy, Debug)]
pub struct TrackGeometry {
    pub start_px: u32,
    pub end_px: u32,
    pub cursor_px: u32,
}

impl Timeline {
    /// All positions of the view are fractions in range.
    pub open spec fn wf(&self) -> bool {
        &&& valid_frac(self.cursor_position)
        &&& valid_frac(self.start)
        &&& valid_frac(self.end)
        &&& valid_frac(self.mouse)
    }

    /// Pixel offsets of the start handle, end handle and playback cursor.
    pub fn track_geometry(&self, width: u32) -> (g: TrackGeometry)
        requires
            self.wf(),
        ensures
            g.start_px == spec_pixel_for(self.start as int, width as int),
            g.end_px == spec_pixel_for(self.end as int, width as int),
            g.cursor_px == spec_pixel_for(self.cursor_position as int, width as int),
            g.start_px <= width && g.end_px <= width && g.cursor_px <= width,
    {
        TrackGeometry {
            start_px: pixel_for(self.start, width),
            end_px: pixel_for(self.end, width),
            cursor_px: pixel_for(self.cursor_position, width),
        }
    }

    /// Left edge of the hover tooltip: the hovered pixel offset, less half
    /// the tooltip's width.
    pub fn tooltip_left(&self, width: u32) -> (x: i64)
        requires
            self.wf(),
        ensures
            x == spec_pixel_for(self.mouse as int, width as int) - (TOOLTIP_WIDTH_PX / 2) as int,
    {
        pixel_for(self.mouse, width) as i64 - (TOOLTIP_WIDTH_PX / 2) as i64
    }

    /// The cursor affordance for the given pointer position (`Some` x offset
    /// when the pointer is over the track).
    pub fn mouse_interaction(&self, width: u32, cursor: Option<i64>) -> (r: Interaction)
        requires
            self.wf(),
        ensures
            r == spec_interaction(*self, width as int, cursor),
    {
        if self.pressed_start || self.pressed_end {
            return Interaction::Grabbing;
        }
        if self.pressed_anywhere {
            return Interaction::Resizing;
        }
        match cursor {
            Some(x) => {
                let g = self.track_geometry(width);
                if in_start_zone(x, g.start_px) || in_end_zone(x, g.end_px) {
                    Interaction::Grab
                } else {
                    Interaction::Inert
                }
            },
            None => Interaction::Inert,
        }
    }

    /// The start fraction published while the start handle is dragged to the
    /// pixel offset `x`: clamped into the track, kept [`START_DRAG_GAP_PX`]
    /// left of the end handle, and never past the end fraction itself.
    pub fn drag_start_target(&self, width: u32, x: i64) -> (r: u32)
        requires
            self.wf(),
            width > 0,
        ensures
            r == spec_drag_start_target(*self, width as int, x as int),
            r <= self.end,
            valid_frac(r),
    {
        let end_px: u32 = pixel_for(self.end, width);
        let upper: u32 = if end_px >= START_DRAG_GAP_PX {
            end_px - START_DRAG_GAP_PX
        } else {
            0
        };
        let xc: i64 = if x > upper as i64 {
            upper as i64
        } else if x < 0 {
            0
        } else {
            x
        };
        let f: u32 = frac_for(xc, width);
        if f > self.end {
            self.end
        } else {
            f
        }
    }

    /// The end fraction published while the end handle is dragged to the
    /// pixel offset `x`: clamped into the track, kept [`END_DRAG_GAP_PX`]
    /// right of the start handle, and never past the start fraction itself.
    pub fn drag_end_target(&self, width: u32, x: i64) -> (r: u32)
        requires
            self.wf(),
            width > 0,
        ensures
            r == spec_drag_end_target(*self, width as int, x as int),
            r >= self.start,
            valid_frac(r),
    {
        let start_px: u32 = pixel_for(self.start, width);
        let gapped: i64 = start_px as i64 + END_DRAG_GAP_PX as i64;
        let lower: i64 = if gapped > width as i64 {
            width as i64
        } else {
            gapped
        };
        let xc: i64 = if x < lower {
            lower
        } else if x > width as i64 {
            width as i64
        } else {
            x
        };
        let f: u32 = frac_for(xc, width);
        if f < self.start {
            self.start
        } else {
            f
        }
    }

    /// The intent a key press maps to. The arrows nudge whichever position is
    /// active — the end handle first, then the start handle, then the
    /// playback position — by [`NUDGE_FRAC`], clamped to the duration.
    pub fn key_intent(&self, key: KeyInput) -> (r: Option<Intent>)
        requires
            self.wf(),
        ensures
            r == spec_key_intent(*self, key),
    {
        match key {
            KeyInput::Space => Some(Intent::TogglePlayPause),
            KeyInput::ArrowLeft => {
                if self.pressed_end {
                    Some(Intent::UpdateEnd(nudge_left(self.end)))
                } else if self.pressed_start {
                    Some(Intent::UpdateStart(nudge_left(self.start)))
                } else {
                    Some(Intent::SetPlaybackTime(nudge_left(self.cursor_position)))
                }
            },
            KeyInput::ArrowRight => {
                if self.pressed_end {
                    Some(Intent::UpdateEnd(nudge_right(self.end)))
                } else if self.pressed_start {
                    Some(Intent::UpdateStart(nudge_right(self.start)))
                } else {
                    Some(Intent::SetPlaybackTime(nudge_right(self.cursor_position)))
                }
            },
            KeyInput::Character { ch, ctrl } => {
                if ch == 'r' && ctrl {
                    Some(Intent::RestartStream)
                } else {
                    None
                }
            },
        }
    }

    /// Turns one raw input event into the intents it stands for.
    pub fn on_event(&self, width: u32, event: TimelineEvent) -> (r: Vec<Intent>)
        requires
            self.wf(),
            width > 0,
        ensures
            r@ == spec_on_event(*self, width as int, event),
    {
        let mut out: Vec<Intent> = Vec::new();
        match event {
            TimelineEvent::KeyPressed(key) => {
                if let Some(i) = self.key_intent(key) {
                    out.push(i);
                }
            },
            TimelineEvent::CursorMoved { x, over } => {
                if self.pressed_start {
                    out.push(Intent::UpdateStart(self.drag_start_target(width, x)));
                } else if self.pressed_end {
                    out.push(Intent::UpdateEnd(self.drag_end_target(width, x)));
                } else if self.pressed_anywhere {
                    out.push(Intent::SetPlaybackTime(frac_for(x, width)));
                } else if over {
                    out.push(Intent::HoverMove(frac_for(x, width)));
                }
            },
            TimelineEvent::LeftPressed { x, over } => {
                if over {
                    let g = self.track_geometry(width);
                    if in_start_zone(x, g.start_px) {
                        out.push(Intent::GrabStart);
                    } else if in_end_zone(x, g.end_px) {
                        out.push(Intent::GrabEnd);
                    } else {
                        out.push(Intent::SetPlaybackTime(frac_for(x, width)));
                        out.push(Intent::BeginScrub);
                    }
                }
            },
            TimelineEvent::LeftReleased => {
                if self.pressed_anywhere {
                    out.push(Intent::EndScrub);
                }
                if self.pressed_start {
                    out.push(Intent::ReleaseStart);
                }
                if self.pressed_end {
                    out.push(Intent::ReleaseEnd);
                }
            },
        }
        proof {
            assert(out@ =~= spec_on_event(*self, width as int, event));
        }
        out
    }
}

/// Whether the pixel offset `x` falls in the start handle's grab zone.
pub open spec fn spec_in_start_zone(x: int, start_px: int) -> bool {
    start_px - GRAB_TOLERANCE_PX as int <= x <= start_px + HANDLE_WIDTH_PX as int
}

/// Whether the pixel offset `x` falls in the end handle's grab zone.
pub open spec fn spec_in_end_zone(x: int, end_px: int) -> bool {
    end_px - (GRAB_TOLERANCE_PX + HANDLE_WIDTH_PX) as int <= x <= end_px + HANDLE_WIDTH_PX as int
}

/// Whether the pixel offset `x` falls in the start handle's grab zone.
pub fn in_start_zone(x: i64, start_px: u32) -> (r: bool)
    ensures
        r == spec_in_start_zone(x as int, start_px as int),
{
    start_px as i64 - GRAB_TOLERANCE_PX as i64 <= x && x <= start_px as i64 + HANDLE_WIDTH_PX as i64
}

/// Whether the pixel offset `x` falls in the end handle's grab zone.
pub fn in_end_zone(x: i64, end_px: u32) -> (r: bool)
    ensures
        r == spec_in_end_zone(x as int, end_px as int),
{
    end_px as i64 - (GRAB_TOLERANCE_PX + HANDLE_WIDTH_PX) as i64 <= x && x <= end_px as i64
        + HANDLE_WIDTH_PX as i64
}

/// The fraction one nudge to the left reaches, stopping at zero.
pub open spec fn spec_nudge_left(f: int) -> int {
    if f - (NUDGE_FRAC as int) < 0 {
        0
    } else {
        f - (NUDGE_FRAC as int)
    }
}

/// The fraction one nudge to the right reaches, stopping at one whole
/// duration.
pub open spec fn spec_nudge_right(f: int) -> int {
    if f + (NUDGE_FRAC as int) > FRAC_UNIT as int {
        FRAC_UNIT as int
    } else {
        f + (NUDGE_FRAC as int)
    }
}

/// The fraction one nudge to the left reaches, stopping at zero.
pub fn nudge_left(f: u32) -> (r: u32)
    requires
        valid_frac(f),
    ensures
        r == spec_nudge_left(f as int),
        valid_frac(r),
{
    if f < NUDGE_FRAC {
        0
    } else {
        f - NUDGE_FRAC
    }
}

/// The fraction one nudge to the right reaches, stopping at one whole
/// duration.
pub fn nudge_right(f: u32) -> (r: u32)
    requires
        valid_frac(f),
    ensures
        r == spec_nudge_right(f as int),
        valid_frac(r),
{
    if f + NUDGE_FRAC > FRAC_UNIT {
        FRAC_UNIT
    } else {
        f + NUDGE_FRAC
    }
}

/// See [`Timeline::mouse_interaction`].
pub open spec fn spec_interaction(t: Timeline, width: int, cursor: Option<i64>) -> Interaction {
    if t.pressed_start || t.pressed_end {
        Interaction::Grabbing
    } else if t.pressed_anywhere {
        Interaction::Resizing
    } else {
        match cursor {
            Some(x) => {
                let start_px = spec_pixel_for(t.start as int, width);
                let end_px = spec_pixel_for(t.end as int, width);
                if spec_in_start_zone(x as int, start_px) || spec_in_end_zone(x as int, end_px) {
                    Interaction::Grab
                } else {
                    Interaction::Inert
                }
            },
            None => Interaction::Inert,
        }
    }
}

/// See [`Timeline::drag_start_target`].
pub open spec fn spec_drag_start_target(t: Timeline, width: int, x: int) -> int {
    let end_px = spec_pixel_for(t.end as int, width);
    let upper = if end_px >= START_DRAG_GAP_PX as int {
        end_px - START_DRAG_GAP_PX as int
    } else {
        0
    };
    let xc = if x > upper {
        upper
    } else if x < 0 {
        0
    } else {
        x
    };
    let f = spec_frac_for(xc, width);
    if f > t.end as int {
        t.end as int
    } else {
        f
    }
}

/// See [`Timeline::drag_end_target`].
pub open spec fn spec_drag_end_target(t: Timeline, width: int, x: int) -> int {
    let start_px = spec_pixel_for(t.start as int, width);
    let lower = if start_px + END_DRAG_GAP_PX as int > width {
        width
    } else {
        start_px + END_DRAG_GAP_PX as int
    };
    let xc = if x < lower {
        lower
    } else if x > width {
        width
    } else {
        x
    };
    let f = spec_frac_for(xc, width);
    if f < t.start as int {
        t.start as int
    } else {
        f
    }
}

/// See [`Timeline::key_intent`].
pub open spec fn spec_key_intent(t: Timeline, key: KeyInput) -> Option<Intent> {
    match key {
        KeyInput::Space => Some(Intent::TogglePlayPause),
        KeyInput::ArrowLeft => {
            if t.pressed_end {
                Some(Intent::UpdateEnd(spec_nudge_left(t.end as int) as u32))
            } else if t.pressed_start {
                Some(Intent::UpdateStart(spec_nudge_left(t.start as int) as u32))
            } else {
                Some(Intent::SetPlaybackTime(spec_nudge_left(t.cursor_position as int) as u32))
            }
        },
        KeyInput::ArrowRight => {
            if t.pressed_end {
                Some(Intent::UpdateEnd(spec_nudge_right(t.end as int) as u32))
            } else if t.pressed_start {
                Some(Intent::UpdateStart(spec_nudge_right(t.start as int) as u32))
            } else {
                Some(Intent::SetPlaybackTime(spec_nudge_right(t.cursor_position as int) as u32))
            }
        },
        KeyInput::Character { ch, ctrl } => {
            if ch == 'r' && ctrl {
                Some(Intent::RestartStream)
            } else {
                None
            }
        },
    }
}

/// See [`Timeline::on_event`].
pub open spec fn spec_on_event(t: Timeline, width: int, event: TimelineEvent) -> Seq<Intent> {
    match event {
        TimelineEvent::KeyPressed(key) => match spec_key_intent(t, key) {
            Some(i) => seq![i],
            None => Seq::empty(),
        },
        TimelineEvent::CursorMoved { x, over } => {
            if t.pressed_start {
                seq![Intent::UpdateStart(spec_drag_start_target(t, width, x as int) as u32)]
            } else if t.pressed_end {
                seq![Intent::UpdateEnd(spec_drag_end_target(t, width, x as int) as u32)]
            } else if t.pressed_anywhere {
                seq![Intent::SetPlaybackTime(spec_frac_for(x as int, width) as u32)]
            } else if over {
                seq![Intent::HoverMove(spec_frac_for(x as int, width) as u32)]
            } else {
                Seq::empty()
            }
        },
        TimelineEvent::LeftPressed { x, over } => {
            if over {
                let start_px = spec_pixel_for(t.start as int, width);
                let end_px = spec_pixel_for(t.end as int, width);
                if spec_in_start_zone(x as int, start_px) {
                    seq![Intent::GrabStart]
                } else if spec_in_end_zone(x as int, end_px) {
                    seq![Intent::GrabEnd]
                } else {
                    seq![
                        Intent::SetPlaybackTime(spec_frac_for(x as int, width) as u32),
                        Intent::BeginScrub,
                    ]
                }
            } else {
                Seq::empty()
            }
        },
        TimelineEvent::LeftReleased => {
            let scrub: Seq<Intent> = if t.pressed_anywhere {
                seq![Intent::EndScrub]
            } else {
                Seq::empty()
            };
            let rel_start: Seq<Intent> = if t.pressed_start {
                seq![Intent::ReleaseStart]
            } else {
                Seq::empty()
            };
            let rel_end: Seq<Intent> = if t.pressed_end {
                seq![Intent::ReleaseEnd]
            } else {
                Seq::empty()
            };
            scrub + rel_start + rel_end
        },
    }
}

/// Pixel offsets respect the order of fractions: a smaller fraction never
/// maps to a larger pixel offset.
pub proof fn lemma_pixel_monotone(f1: int, f2: int, width: int)
    requires
        0 <= f1 <= f2,
        0 <= width,
    ensures
        spec_pixel_for(f1, width) <= spec_pixel_for(f2, width),
{
    if width > 0 {
        lemma_mul_left_inequality(width, f1, f2);
        lemma_div_is_ordered(width * f1, width * f2, FRAC_UNIT as int);
    } else {
        assert(width * f1 == 0) by (nonlinear_arith)
            requires
                width == 0,
        ;
        assert(width * f2 == 0) by (nonlinear_arith)
            requires
                width == 0,
        ;
    }
}

/// Law: a single drag update preserves the ordering of the handles. Dragging
/// the start handle never publishes a fraction past the end, and dragging the
/// end handle never publishes one before the start; in pixel space the start
/// handle therefore never crosses the end handle, nor the end handle the
/// start.
pub proof fn lemma_drag_preserves_order(t: Timeline, width: int, x: int)
    requires
        t.wf(),
        width > 0,
        t.start <= t.end,
    ensures
        spec_drag_start_target(t, width, x) <= t.end as int,
        spec_drag_end_target(t, width, x) >= t.start as int,
        0 <= spec_drag_start_target(t, width, x) <= FRAC_UNIT as int,
        0 <= spec_drag_end_target(t, width, x) <= FRAC_UNIT as int,
        spec_pixel_for(spec_drag_start_target(t, width, x), width) <= spec_pixel_for(
            t.end as int,
            width,
        ),
        spec_pixel_for(t.start as int, width) <= spec_pixel_for(
            spec_drag_end_target(t, width, x),
            width,
        ),
{
    let s = spec_drag_start_target(t, width, x);
    let e = spec_drag_end_target(t, width, x);
    assert forall|v: int| 0 < width implies 0 <= #[trigger] spec_frac_for(v, width)
        <= FRAC_UNIT as int by {
        crate::frac::lemma_frac_for_bounds(v, width);
    }
    lemma_pixel_monotone(s, t.end as int, width);
    lemma_pixel_monotone(t.start as int, e, width);
}

/// Law: a keyboard nudge adjusts exactly one position. With the end handle
/// held it adjusts the end alone; with only the start handle held, the start
/// alone; with neither, the playback position alone. Each nudge moves the
/// value by exactly one [`NUDGE_FRAC`], clamped to the duration's range.
pub proof fn lemma_keyboard_nudge(t: Timeline, key: KeyInput)
    requires
        t.wf(),
        key == KeyInput::ArrowLeft || key == KeyInput::ArrowRight,
    ensures
        t.pressed_end ==> spec_key_intent(t, key) == Some(
            Intent::UpdateEnd(spec_nudged(t.end as int, key) as u32),
        ),
        !t.pressed_end && t.pressed_start ==> spec_key_intent(t, key) == Some(
            Intent::UpdateStart(spec_nudged(t.start as int, key) as u32),
        ),
        !t.pressed_end && !t.pressed_start ==> spec_key_intent(t, key) == Some(
            Intent::SetPlaybackTime(spec_nudged(t.cursor_position as int, key) as u32),
        ),
{
}

/// The value one nudge by the given arrow key reaches.
pub open spec fn spec_nudged(f: int, key: KeyInput) -> int {
    if key == KeyInput::ArrowLeft {
        spec_nudge_left(f)
    } else {
        spec_nudge_right(f)
    }
}

} // verus!
