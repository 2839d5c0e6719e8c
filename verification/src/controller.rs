//! The playback/edit controller: the owner of the authoritative state — the
//! selected range, the playback position and the drag in progress. It reduces
//! the widget's intent events into new state plus an action for the host to
//! perform (a seek, or a pause toggle), and while a drag is active it asks for
//! a per-frame tick that re-issues the pending seek at display refresh
//! cadence.

use vstd::prelude::*;

use crate::color::Config;
use crate::frac::{
    frac_to_ms, spec_frac_to_ms, valid_frac, FRAC_UNIT, MAX_DURATION_MS,
};
use crate::timefmt::{spec_timestamp, timestamp_label};
use crate::timeline::{
    spec_on_event, Intent, Timeline, TimelineEvent,
};

verus! {

/// Which drag, if any, is in progress. One tagged state instead of three
/// independent flags, so that no two drags can be active at once.
#[derive(PartialEq, Eq, Structural, Clone, Copy, Debug)]
pub enum DragState {
    Idle,
    DraggingStart,
    DraggingEnd,
    Scrubbing,
}

/// What the host must do after a reduction step.
#[derive(PartialEq, Eq, Structural, Clone, Copy, Debug)]
pub enum Action {
    /// Nothing.
    Stay,
    /// Seek the player to this fraction of the duration.
    Seek(u32),
    /// Flip the player's paused state.
    TogglePause,
}

/// The controller's state. All positions are normalized fractions.
pub struct Controller {
    /// Total duration of the medium, in milliseconds.
    pub duration_ms: u64,
    /// Playback position.
    pub cursor_position: u32,
    /// Selection start.
    pub start: u32,
    /// Selection end.
    pub end: u32,
    /// Last hovered position.
    pub mouse: u32,
    /// Tooltip label for the hovered position.
    pub mouse_content: String,
    /// The drag in progress, if any.
    pub drag: DragState,
    /// Whether a pending seek awaits the next display frame.
    pub moving: bool,
    /// The pending seek position.
    pub position_value: u32,
}

/// The mathematical value of a [`Controller`].
#[verifier::ext_equal]
pub ghost struct CtrlView {
    pub duration_ms: int,
    pub cursor_position: int,
    pub start: int,
    pub end: int,
    pub mouse: int,
    pub mouse_content: Seq<char>,
    pub drag: DragState,
    pub moving: bool,
    pub position_value: int,
}

impl View for Controller {
    type V = CtrlView;

    open spec fn view(&self) -> CtrlView {
        CtrlView {
            duration_ms: self.duration_ms as int,
            cursor_position: self.cursor_position as int,
            start: self.start as int,
            end: self.end as int,
            mouse: self.mouse as int,
            mouse_content: self.mouse_content@,
            drag: self.drag,
            moving: self.moving,
            position_value: self.position_value as int,
        }
    }
}

/// The tooltip label for the fraction `f` of a `duration_ms`-long medium.
pub open spec fn spec_label(f: int, duration_ms: int) -> Seq<char> {
    spec_timestamp(spec_frac_to_ms(f, duration_ms) as nat)
}

/// One reduction step: the state after applying `intent` to `m`, and the
/// action the host performs. Grabs and releases switch the drag state alone;
/// position updates store the new value, refresh the hover display, record
/// the pending seek and seek at once; a hover only refreshes the display.
pub open spec fn spec_reduce(m: CtrlView, intent: Intent) -> (CtrlView, Action) {
    match intent {
        Intent::GrabStart => (CtrlView { drag: DragState::DraggingStart, ..m }, Action::Stay),
        Intent::GrabEnd => (CtrlView { drag: DragState::DraggingEnd, ..m }, Action::Stay),
        Intent::BeginScrub => (CtrlView { drag: DragState::Scrubbing, ..m }, Action::Stay),
        Intent::ReleaseStart => (
            CtrlView {
                drag: if m.drag is DraggingStart {
                    DragState::Idle
                } else {
                    m.drag
                },
                ..m
            },
            Action::Stay,
        ),
        Intent::ReleaseEnd => (
            CtrlView {
                drag: if m.drag is DraggingEnd {
                    DragState::Idle
                } else {
                    m.drag
                },
                ..m
            },
            Action::Stay,
        ),
        Intent::EndScrub => (
            CtrlView {
                drag: if m.drag is Scrubbing {
                    DragState::Idle
                } else {
                    m.drag
                },
                ..m
            },
            Action::Stay,
        ),
        Intent::UpdateStart(f) => (
            CtrlView {
                start: f as int,
                cursor_position: f as int,
                mouse: f as int,
                mouse_content: spec_label(f as int, m.duration_ms),
                position_value: f as int,
                moving: true,
                ..m
            },
            Action::Seek(f),
        ),
        Intent::UpdateEnd(f) => (
            CtrlView {
                end: f as int,
                cursor_position: f as int,
                mouse: f as int,
                mouse_content: spec_label(f as int, m.duration_ms),
                position_value: f as int,
                moving: true,
                ..m
            },
            Action::Seek(f),
        ),
        Intent::SetPlaybackTime(f) => (
            CtrlView {
                cursor_position: f as int,
                mouse: f as int,
                mouse_content: spec_label(f as int, m.duration_ms),
                position_value: f as int,
                moving: true,
                ..m
            },
            Action::Seek(f),
        ),
        Intent::HoverMove(f) => (
            CtrlView { mouse: f as int, mouse_content: spec_label(f as int, m.duration_ms), ..m },
            Action::Stay,
        ),
        Intent::TogglePlayPause => (m, Action::TogglePause),
        Intent::RestartStream => (m, Action::Stay),
    }
}

/// One per-frame tick while a drag is active: re-apply the pending position
/// as the matching update, then clear the pending mark.
pub open spec fn spec_tick(m: CtrlView) -> (CtrlView, Action) {
    if m.moving && !(m.drag is Idle) {
        let intent = match m.drag {
            DragState::DraggingStart => Intent::UpdateStart(m.position_value as u32),
            DragState::DraggingEnd => Intent::UpdateEnd(m.position_value as u32),
            _ => Intent::SetPlaybackTime(m.position_value as u32),
        };
        let (m2, a) = spec_reduce(m, intent);
        (CtrlView { moving: false, ..m2 }, a)
    } else {
        (m, Action::Stay)
    }
}

/// Whether the intent's payload, if any, is a fraction in range.
pub open spec fn intent_frac_ok(intent: Intent) -> bool {
    match intent {
        Intent::UpdateStart(f) => valid_frac(f),
        Intent::UpdateEnd(f) => valid_frac(f),
        Intent::SetPlaybackTime(f) => valid_frac(f),
        Intent::HoverMove(f) => valid_frac(f),
        _ => true,
    }
}

impl Controller {
    /// All positions are fractions in range, and the duration is within the
    /// fixed-point conversions' reach.
    pub open spec fn wf(&self) -> bool {
        &&& valid_frac(self.cursor_position)
        &&& valid_frac(self.start)
        &&& valid_frac(self.end)
        &&& valid_frac(self.mouse)
        &&& valid_frac(self.position_value)
        &&& self.duration_ms <= MAX_DURATION_MS
    }

    /// A freshly loaded medium: playback at the left edge, the selection
    /// covering the first half of the duration, no drag in progress.
    pub fn new(duration_ms: u64) -> (c: Controller)
        requires
            duration_ms <= MAX_DURATION_MS,
        ensures
            c.wf(),
            c@ == (CtrlView {
                duration_ms: duration_ms as int,
                cursor_position: 0,
                start: 0,
                end: FRAC_UNIT as int / 2,
                mouse: 0,
                mouse_content: Seq::<char>::empty(),
                drag: DragState::Idle,
                moving: false,
                position_value: 0,
            }),
    {
        let c = Controller {
            duration_ms,
            cursor_position: 0,
            start: 0,
            end: FRAC_UNIT / 2,
            mouse: 0,
            mouse_content: String::new(),
            drag: DragState::Idle,
            moving: false,
            position_value: 0,
        };
        proof {
            assert(c@ =~= (CtrlView {
                duration_ms: duration_ms as int,
                cursor_position: 0,
                start: 0,
                end: FRAC_UNIT as int / 2,
                mouse: 0,
                mouse_content: Seq::<char>::empty(),
                drag: DragState::Idle,
                moving: false,
                position_value: 0,
            }));
        }
        c
    }

    /// Applies one intent, returning the action the host must perform.
    pub fn reduce(&mut self, intent: Intent) -> (a: Action)
        requires
            old(self).wf(),
            intent_frac_ok(intent),
        ensures
            final(self).wf(),
            (final(self)@, a) == spec_reduce(old(self)@, intent),
    {
        let ghost m = self@;
        let a: Action = match intent {
            Intent::GrabStart => {
                self.drag = DragState::DraggingStart;
                Action::Stay
            },
            Intent::GrabEnd => {
                self.drag = DragState::DraggingEnd;
                Action::Stay
            },
            Intent::BeginScrub => {
                self.drag = DragState::Scrubbing;
                Action::Stay
            },
            Intent::ReleaseStart => {
                if matches!(self.drag, DragState::DraggingStart) {
                    self.drag = DragState::Idle;
                }
                Action::Stay
            },
            Intent::ReleaseEnd => {
                if matches!(self.drag, DragState::DraggingEnd) {
                    self.drag = DragState::Idle;
                }
                Action::Stay
            },
            Intent::EndScrub => {
                if matches!(self.drag, DragState::Scrubbing) {
                    self.drag = DragState::Idle;
                }
                Action::Stay
            },
            Intent::UpdateStart(f) => {
                self.start = f;
                self.apply_seek_display(f);
                Action::Seek(f)
            },
            Intent::UpdateEnd(f) => {
                self.end = f;
                self.apply_seek_display(f);
                Action::Seek(f)
            },
            Intent::SetPlaybackTime(f) => {
                self.apply_seek_display(f);
                Action::Seek(f)
            },
            Intent::HoverMove(f) => {
                self.mouse = f;
                self.mouse_content = timestamp_label(frac_to_ms(f, self.duration_ms));
                Action::Stay
            },
            Intent::TogglePlayPause => Action::TogglePause,
            Intent::RestartStream => Action::Stay,
        };
        proof {
            assert(self@ =~= spec_reduce(m, intent).0);
        }
        a
    }

    /// The display and pending-seek bookkeeping every position update shares:
    /// move the cursor, follow with the hover display, and record the pending
    /// position for the next tick.
    fn apply_seek_display(&mut self, f: u32)
        requires
            old(self).wf(),
            valid_frac(f),
        ensures
            final(self)@ == (CtrlView {
                cursor_position: f as int,
                mouse: f as int,
                mouse_content: spec_label(f as int, old(self)@.duration_ms),
                position_value: f as int,
                moving: true,
                ..old(self)@
            }),
            final(self).wf(),
    {
        self.cursor_position = f;
        self.mouse = f;
        self.mouse_content = timestamp_label(frac_to_ms(f, self.duration_ms));
        self.position_value = f;
        self.moving = true;
        proof {
            assert(self@ =~= (CtrlView {
                cursor_position: f as int,
                mouse: f as int,
                mouse_content: spec_label(f as int, old(self)@.duration_ms),
                position_value: f as int,
                moving: true,
                ..old(self)@
            }));
        }
    }

    /// Whether the host should schedule a per-frame tick: a seek is pending
    /// and a drag is active.
    pub fn wants_tick(&self) -> (r: bool)
        ensures
            r == (self@.moving && !(self@.drag is Idle)),
    {
        self.moving && !matches!(self.drag, DragState::Idle)
    }

    /// One per-frame tick: re-issues the pending seek for the active drag.
    pub fn tick(&mut self) -> (a: Action)
        requires
            old(self).wf(),
        ensures
            final(self).wf(),
            (final(self)@, a) == spec_tick(old(self)@),
    {
        let ghost m = self@;
        if !self.wants_tick() {
            proof {
                assert(self@ =~= spec_tick(m).0);
            }
            return Action::Stay;
        }
        let intent: Intent = match self.drag {
            DragState::DraggingStart => Intent::UpdateStart(self.position_value),
            DragState::DraggingEnd => Intent::UpdateEnd(self.position_value),
            _ => Intent::SetPlaybackTime(self.position_value),
        };
        let a = self.reduce(intent);
        self.moving = false;
        proof {
            assert(self@ =~= spec_tick(m).0);
        }
        a
    }

    /// The external player decoded a new frame: refresh the playback cursor
    /// from its reported position. This is how playback advances visually.
    pub fn on_new_frame(&mut self, position: u32)
        requires
            old(self).wf(),
            valid_frac(position),
        ensures
            final(self).wf(),
            final(self)@ == (CtrlView { cursor_position: position as int, ..old(self)@ }),
    {
        self.cursor_position = position;
        proof {
            assert(self@ =~= (CtrlView { cursor_position: position as int, ..old(self)@ }));
        }
    }

    /// The view the widget is rendered from this frame.
    pub fn render(&self, config: Config) -> (t: Timeline)
        requires
            self.wf(),
        ensures
            t.wf(),
            t.duration_ms == self.duration_ms,
            t.cursor_position == self.cursor_position,
            t.start == self.start,
            t.end == self.end,
            t.mouse == self.mouse,
            t.mouse_content@ == self.mouse_content@,
            t.pressed_start == self@.drag is DraggingStart,
            t.pressed_end == self@.drag is DraggingEnd,
            t.pressed_anywhere == self@.drag is Scrubbing,
            t.config == config,
    {
        Timeline {
            duration_ms: self.duration_ms,
            cursor_position: self.cursor_position,
            start: self.start,
            end: self.end,
            pressed_start: matches!(self.drag, DragState::DraggingStart),
            pressed_end: matches!(self.drag, DragState::DraggingEnd),
            pressed_anywhere: matches!(self.drag, DragState::Scrubbing),
            mouse: self.mouse,
            mouse_content: self.mouse_content.clone(),
            config,
        }
    }
}

/// Law: a release clears exactly the flag that was set. Reducing the release
/// intent that matches the active drag leaves the controller idle; reducing
/// any release never leaves its own drag active, changes nothing besides the
/// drag state, and asks no action of the host.
pub proof fn lemma_release_clears(m: CtrlView)
    ensures
        !(spec_reduce(m, Intent::ReleaseStart).0.drag is DraggingStart),
        !(spec_reduce(m, Intent::ReleaseEnd).0.drag is DraggingEnd),
        !(spec_reduce(m, Intent::EndScrub).0.drag is Scrubbing),
        m.drag is DraggingStart ==> spec_reduce(m, Intent::ReleaseStart).0.drag is Idle,
        m.drag is DraggingEnd ==> spec_reduce(m, Intent::ReleaseEnd).0.drag is Idle,
        m.drag is Scrubbing ==> spec_reduce(m, Intent::EndScrub).0.drag is Idle,
        forall|i: Intent|
            (i == Intent::ReleaseStart || i == Intent::ReleaseEnd || i == Intent::EndScrub) ==> {
                let (m2, a) = #[trigger] spec_reduce(m, i);
                m2 == (CtrlView { drag: m2.drag, ..m }) && a == Action::Stay
            },
{
    assert forall|i: Intent|
        (i == Intent::ReleaseStart || i == Intent::ReleaseEnd || i == Intent::EndScrub) implies {
        let (m2, a) = #[trigger] spec_reduce(m, i);
        m2 == (CtrlView { drag: m2.drag, ..m }) && a == Action::Stay
    } by {
        let (m2, a) = spec_reduce(m, i);
        assert(m2 =~= (CtrlView { drag: m2.drag, ..m }));
    }
}

/// Whether the widget view `t` is the one rendered from the controller state
/// `m` (as [`Controller::render`] builds it).
pub open spec fn view_matches(t: Timeline, m: CtrlView) -> bool {
    &&& t.cursor_position as int == m.cursor_position
    &&& t.start as int == m.start
    &&& t.end as int == m.end
    &&& t.pressed_start == (m.drag is DraggingStart)
    &&& t.pressed_end == (m.drag is DraggingEnd)
    &&& t.pressed_anywhere == (m.drag is Scrubbing)
}

/// Law: a pointer move keeps the handles ordered, end to end. For a widget
/// view rendered from a controller whose selection is ordered, reducing any
/// intent that a pointer move produces leaves the selection ordered.
pub proof fn lemma_pointer_move_keeps_order(
    t: Timeline,
    m: CtrlView,
    width: int,
    x: i64,
    over: bool,
)
    requires
        t.wf(),
        view_matches(t, m),
        width > 0,
        m.start <= m.end,
    ensures
        forall|j: int|
            0 <= j < spec_on_event(t, width, TimelineEvent::CursorMoved { x, over }).len() ==> {
                let m2 = spec_reduce(
                    m,
                    #[trigger] spec_on_event(t, width, TimelineEvent::CursorMoved { x, over })[j],
                ).0;
                m2.start <= m2.end
            },
{
    let intents = spec_on_event(t, width, TimelineEvent::CursorMoved { x, over });
    crate::timeline::lemma_drag_preserves_order(t, width, x as int);
    assert forall|j: int| 0 <= j < intents.len() implies {
        let m2 = spec_reduce(m, #[trigger] intents[j]).0;
        m2.start <= m2.end
    } by {
        if t.pressed_start {
            let f = crate::timeline::spec_drag_start_target(t, width, x as int);
            assert(intents[j] == Intent::UpdateStart(f as u32));
            assert(f as u32 as int == f);
        } else if t.pressed_end {
            let f = crate::timeline::spec_drag_end_target(t, width, x as int);
            assert(intents[j] == Intent::UpdateEnd(f as u32));
            assert(f as u32 as int == f);
        }
    }
}

/// Law: letting the pointer go leaves nothing held, end to end. For a widget
/// view rendered from a controller, the release event produces at most one
/// intent; it produces none exactly when nothing was held, and reducing the
/// one it produces leaves the controller idle.
pub proof fn lemma_release_event_goes_idle(t: Timeline, m: CtrlView, width: int)
    requires
        t.wf(),
        view_matches(t, m),
        width > 0,
    ensures
        spec_on_event(t, width, TimelineEvent::LeftReleased).len() <= 1,
        spec_on_event(t, width, TimelineEvent::LeftReleased).len() == 0 <==> m.drag is Idle,
        forall|j: int|
            0 <= j < spec_on_event(t, width, TimelineEvent::LeftReleased).len()
                ==> spec_reduce(
                m,
                #[trigger] spec_on_event(t, width, TimelineEvent::LeftReleased)[j],
            ).0.drag is Idle,
{
}

/// Law: hovering is idempotent and touches display state alone. A hover
/// changes neither the selection, nor the playback position, nor the drag
/// state, and repeating the same hover changes nothing at all.
pub proof fn lemma_hover_idempotent(m: CtrlView, f: u32)
    ensures
        ({
            let (once, a) = spec_reduce(m, Intent::HoverMove(f));
            &&& once.start == m.start
            &&& once.end == m.end
            &&& once.cursor_position == m.cursor_position
            &&& once.drag == m.drag
            &&& once.moving == m.moving
            &&& once.position_value == m.position_value
            &&& a == Action::Stay
            &&& spec_reduce(once, Intent::HoverMove(f)).0 == once
        }),
{
    let (once, _) = spec_reduce(m, Intent::HoverMove(f));
    assert(spec_reduce(once, Intent::HoverMove(f)).0 =~= once);
}

} // verus!
