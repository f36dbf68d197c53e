//! The pointer state machine: how motion, presses and leaves change the
//! width of the bar, its latch and its tracking flags, and when they ask for
//! the window overview.
//!
//! Positions are surface-local, with `(0, 0)` the top-left corner, and are
//! held as the display protocol sends them: signed fixed-point numbers with
//! eight fractional bits, so 256 units make one pixel.

use vstd::prelude::*;
use crate::application::{AppState, BarWindow};

verus! {

/// Units of a coordinate per pixel.
pub const UNITS_PER_PIXEL: i32 = 256;

/// The button that toggles the latch.
pub const TOGGLE_BUTTON: u32 = 273;

/// One and a half pixels, in coordinate units: how close to the bottom edge
/// the pointer has to be for the corner gesture.
pub const CORNER_REACH: i64 = 384;

/// The kind of a pointer event. Everything that is neither a button press,
/// a leave nor a motion is `Other`.
#[derive(Debug, Clone, Copy, PartialEq, Eq, Structural)]
pub enum PointerEventKind {
    Press { button: u32 },
    Leave,
    Motion,
    Other,
}

/// A pointer event as the state machine reads it.
#[derive(Debug, Clone, Copy, PartialEq, Eq, Structural)]
pub struct PointerEvent {
    /// Whether the event was delivered for the bar's own surface.
    pub on_bar: bool,
    pub kind: PointerEventKind,
    /// Horizontal position in coordinate units.
    pub x: i32,
    /// Vertical position in coordinate units.
    pub y: i32,
}

/// The four values that pointer events act on.
pub struct BarState {
    pub bar_width: u32,
    pub no_disappearing: bool,
    pub track_x: bool,
    pub track_y: bool,
}

/// The whole pixels of a positive coordinate.
pub open spec fn whole_pixels(x: i32) -> u32 {
    (x as int / UNITS_PER_PIXEL as int) as u32
}

/// Whether a pointer at `(x, y)` is in the bottom-left corner corridor of a
/// surface `height` pixels high: on the left edge and less than one and a
/// half pixels above the bottom.
pub open spec fn in_corner(x: i32, y: i32, height: u32) -> bool {
    x == 0 && y as int > height as int * UNITS_PER_PIXEL as int - CORNER_REACH as int
}

/// The state after a press of the toggle button at `(x, y)`.
pub open spec fn after_press(s: BarState, x: i32, y: i32) -> BarState {
    BarState {
        no_disappearing: !s.no_disappearing,
        bar_width: if y == 0 && x > 0 {
            whole_pixels(x)
        } else if x >= 0 || y >= 0 {
            0
        } else {
            s.bar_width
        },
        ..s
    }
}

/// Whether a leave at `(x, y)` asks for the overview.
pub open spec fn leave_fires(s: BarState, x: i32, y: i32, height: u32) -> bool {
    !s.no_disappearing && s.track_y && in_corner(x, y, height)
}

/// The state after the pointer has left the surface.
pub open spec fn after_leave(s: BarState) -> BarState {
    if s.no_disappearing {
        BarState { track_y: false, ..s }
    } else {
        BarState { bar_width: 0, track_x: false, track_y: false, ..s }
    }
}

/// The tracking flags `(track_x, track_y)` once a motion to `(x, y)` has
/// been looked at: armed in the top-left corner, cleared in the interior,
/// kept along the two edges.
pub open spec fn tracking_at(s: BarState, x: i32, y: i32) -> (bool, bool) {
    if x == 0 && y == 0 {
        (true, true)
    } else if x > 0 && y > 0 {
        (false, false)
    } else {
        (s.track_x, s.track_y)
    }
}

/// Whether a motion to `(x, y)` asks for the overview.
pub open spec fn motion_fires(s: BarState, x: i32, y: i32, height: u32) -> bool {
    &&& !s.no_disappearing
    &&& tracking_at(s, x, y).1
    &&& in_corner(x, y, height)
}

/// The state after a motion to `(x, y)`.
pub open spec fn after_motion(s: BarState, x: i32, y: i32, height: u32) -> BarState {
    if s.no_disappearing {
        s
    } else {
        let (track_x, track_y) = tracking_at(s, x, y);
        BarState {
            track_x,
            track_y,
            bar_width: if y == 0 && x > 0 && track_x {
                whole_pixels(x)
            } else if x > 0 {
                0
            } else {
                s.bar_width
            },
            ..s
        }
    }
}

/// Whether the state machine acts on `event` at all.
pub open spec fn is_handled(event: PointerEvent) -> bool {
    event.on_bar && match event.kind {
        PointerEventKind::Press { button } => button == TOGGLE_BUTTON,
        PointerEventKind::Leave => true,
        PointerEventKind::Motion => true,
        PointerEventKind::Other => false,
    }
}

/// The state after `event`, on a surface `height` pixels high.
pub open spec fn step_state(s: BarState, height: u32, event: PointerEvent) -> BarState {
    if !is_handled(event) {
        s
    } else {
        match event.kind {
            PointerEventKind::Press { .. } => after_press(s, event.x, event.y),
            PointerEventKind::Leave => after_leave(s),
            PointerEventKind::Motion => after_motion(s, event.x, event.y, height),
            PointerEventKind::Other => s,
        }
    }
}

/// Whether `event` asks for the overview.
pub open spec fn step_fires(s: BarState, height: u32, event: PointerEvent) -> bool {
    is_handled(event) && match event.kind {
        PointerEventKind::Leave => leave_fires(s, event.x, event.y, height),
        PointerEventKind::Motion => motion_fires(s, event.x, event.y, height),
        _ => false,
    }
}

/// The state after all of `events`, taken in order.
pub open spec fn run_state(s: BarState, height: u32, events: Seq<PointerEvent>) -> BarState
    decreases events.len(),
{
    if events.len() == 0 {
        s
    } else {
        step_state(run_state(s, height, events.drop_last()), height, events.last())
    }
}

/// How often `events`, taken in order, ask for the overview.
pub open spec fn run_fires(s: BarState, height: u32, events: Seq<PointerEvent>) -> nat
    decreases events.len(),
{
    if events.len() == 0 {
        0
    } else {
        let earlier = events.drop_last();
        let fired = step_fires(run_state(s, height, earlier), height, events.last());
        run_fires(s, height, earlier) + if fired {
            1nat
        } else {
            0nat
        }
    }
}

impl AppState {
    /// The part of the state that pointer events act on.
    pub open spec fn bar_state(&self) -> BarState {
        BarState {
            bar_width: self.bar_width,
            no_disappearing: self.no_disappearing,
            track_x: self.track_x,
            track_y: self.track_y,
        }
    }

    /// Whether `other` differs from `self` in the bar state at most.
    pub open spec fn same_apart_from_bar(&self, other: &AppState) -> bool {
        self.first_configure == other.first_configure && self.modules == other.modules
    }

    /// Applies one pointer event and says whether it asks for the overview.
    pub fn handle_event(&mut self, surface_height: u32, event: &PointerEvent) -> (fired: bool)
        ensures
            final(self).bar_state() == step_state(old(self).bar_state(), surface_height, *event),
            fired == step_fires(old(self).bar_state(), surface_height, *event),
            final(self).same_apart_from_bar(old(self)),
    {
        if !event.on_bar {
            return false;
        }
        let x: i32 = event.x;
        let y: i32 = event.y;
        let unit: i64 = UNITS_PER_PIXEL as i64;
        assert(unit == 256);
        let corner: bool = x == 0 && y as i64 > surface_height as i64 * unit - CORNER_REACH;
        match event.kind {
            PointerEventKind::Press { button } => {
                if button == TOGGLE_BUTTON {
                    self.no_disappearing = !self.no_disappearing;
                    if y == 0 && x > 0 {
                        self.bar_width = (x / UNITS_PER_PIXEL) as u32;
                    } else if x >= 0 || y >= 0 {
                        self.bar_width = 0;
                    }
                }
                false
            },
            PointerEventKind::Leave => {
                let mut fired: bool = false;
                if !self.no_disappearing {
                    self.bar_width = 0;
                    self.track_x = false;
                    fired = self.track_y && corner;
                }
                self.track_y = false;
                fired
            },
            PointerEventKind::Motion => {
                let mut fired: bool = false;
                if !self.no_disappearing {
                    if x == 0 && y == 0 {
                        self.track_x = true;
                        self.track_y = true;
                    } else if x > 0 && y > 0 {
                        self.track_x = false;
                        self.track_y = false;
                    }
                    if y == 0 && x > 0 && self.track_x {
                        self.bar_width = (x / UNITS_PER_PIXEL) as u32;
                    } else if self.track_y && corner {
                        fired = true;
                    } else if x > 0 {
                        self.bar_width = 0;
                    }
                }
                fired
            },
            PointerEventKind::Other => false,
        }
    }

    /// Applies `events` in order and returns how often they ask for the
    /// overview.
    pub fn handle_input_event(&mut self, surface_height: u32, events: &[PointerEvent]) -> (fired:
        usize)
        ensures
            final(self).bar_state() == run_state(old(self).bar_state(), surface_height, events@),
            fired == run_fires(old(self).bar_state(), surface_height, events@),
            final(self).same_apart_from_bar(old(self)),
    {
        let mut fired: usize = 0;
        let n: usize = events.len();
        let mut i: usize = 0;
        while i < n
            invariant
                i <= n,
                n == events@.len(),
                fired <= i,
                self.bar_state() == run_state(
                    old(self).bar_state(),
                    surface_height,
                    events@.take(i as int),
                ),
                fired == run_fires(old(self).bar_state(), surface_height, events@.take(i as int)),
                self.same_apart_from_bar(old(self)),
            decreases n - i,
        {
            proof {
                assert(events@.take(i + 1).drop_last() == events@.take(i as int));
                assert(events@.take(i + 1).last() == events@[i as int]);
            }
            if self.handle_event(surface_height, &events[i]) {
                fired += 1;
            }
            i += 1;
        }
        assert(events@.take(n as int) == events@);
        fired
    }
}

impl BarWindow {
    /// Applies a batch of pointer events to the bar, on the surface height
    /// of the moment, and returns how often they ask for the overview.
    pub fn handle_input_event(&mut self, events: &[PointerEvent]) -> (fired: usize)
        ensures
            final(self).state.bar_state() == run_state(
                old(self).state.bar_state(),
                old(self).graphics.height,
                events@,
            ),
            fired == run_fires(old(self).state.bar_state(), old(self).graphics.height, events@),
            final(self).state.same_apart_from_bar(&old(self).state),
            final(self).graphics == old(self).graphics,
            final(self).config == old(self).config,
    {
        self.state.handle_input_event(self.graphics.height, events)
    }
}

/// A motion to `(x, y)` on the bar's surface.
pub open spec fn motion_to(x: i32, y: i32) -> PointerEvent {
    PointerEvent { on_bar: true, kind: PointerEventKind::Motion, x, y }
}

/// A leave at `(x, y)` on the bar's surface.
pub open spec fn leave_at(x: i32, y: i32) -> PointerEvent {
    PointerEvent { on_bar: true, kind: PointerEventKind::Leave, x, y }
}

/// A press of the toggle button at `(x, y)` on the bar's surface.
pub open spec fn toggle_at(x: i32, y: i32) -> PointerEvent {
    PointerEvent { on_bar: true, kind: PointerEventKind::Press { button: TOGGLE_BUTTON }, x, y }
}

/// Whether `event` lies no further right than the last column of a surface
/// `width` pixels wide.
pub open spec fn within_width(event: PointerEvent, width: u32) -> bool {
    (event.x as int) < (width as int + 1) * UNITS_PER_PIXEL as int
}

/// Resize by dragging: while the bar is not latched, a motion into the
/// top-left corner arms both tracking flags and leaves the width alone, and
/// a following motion along the top edge sets the width to the pointer's
/// column.
pub proof fn lemma_drag_resizes(s: BarState, height: u32, x: i32)
    requires
        !s.no_disappearing,
        x > 0,
    ensures
        ({
            let armed = step_state(s, height, motion_to(0, 0));
            let dragged = step_state(armed, height, motion_to(x, 0));
            &&& armed.track_x
            &&& armed.track_y
            &&& armed.bar_width == s.bar_width
            &&& dragged.bar_width == whole_pixels(x)
            &&& dragged.track_x
            &&& !step_fires(armed, height, motion_to(x, 0))
        }),
{
}

/// Collapse on leave: while the bar is not latched, a leave anywhere hides
/// the bar and clears both tracking flags.
pub proof fn lemma_leave_collapses(s: BarState, height: u32, x: i32, y: i32)
    requires
        !s.no_disappearing,
    ensures
        ({
            let left = step_state(s, height, leave_at(x, y));
            &&& left.bar_width == 0
            &&& !left.track_x
            &&& !left.track_y
            &&& !left.no_disappearing
        }),
{
}

/// The corner gesture: while the bar is not latched and the left edge is
/// tracked, a motion on the left edge within one and a half pixels of the
/// bottom asks for the overview once and leaves the width alone.
pub proof fn lemma_corner_motion_fires_once(s: BarState, height: u32, y: i32)
    requires
        !s.no_disappearing,
        s.track_y,
        in_corner(0, y, height),
    ensures
        step_fires(s, height, motion_to(0, y)),
        run_fires(s, height, seq![motion_to(0, y)]) == 1,
        step_state(s, height, motion_to(0, y)).bar_width == s.bar_width,
        run_state(s, height, seq![motion_to(0, y)]).bar_width == s.bar_width,
{
    let events = seq![motion_to(0, y)];
    assert(events.drop_last() =~= Seq::<PointerEvent>::empty());
    assert(events.last() == motion_to(0, y));
    assert(run_state(s, height, events.drop_last()) == s);
    assert(run_fires(s, height, events.drop_last()) == 0);
}

/// The latch: a press of the toggle button flips it, and while it is set a
/// leave changes neither the width nor the top-edge tracking flag and asks
/// for nothing.
pub proof fn lemma_latch_holds_the_bar(s: BarState, height: u32, x: i32, y: i32)
    ensures
        step_state(s, height, toggle_at(x, y)).no_disappearing == !s.no_disappearing,
        s.no_disappearing ==> {
            let left = step_state(s, height, leave_at(x, y));
            &&& left.bar_width == s.bar_width
            &&& left.track_x == s.track_x
            &&& left.no_disappearing
            &&& !left.track_y
            &&& !step_fires(s, height, leave_at(x, y))
        },
        s.no_disappearing ==> step_state(s, height, motion_to(x, y)) == s,
{
}

/// An event that the state machine does not act on changes nothing and asks
/// for nothing.
pub proof fn lemma_unhandled_is_ignored(s: BarState, height: u32, event: PointerEvent)
    requires
        !is_handled(event),
    ensures
        step_state(s, height, event) == s,
        !step_fires(s, height, event),
{
}

/// The bar never grows past the surface: an event that lies within the
/// width of the surface keeps a bar that fits the surface fitting it.
pub proof fn lemma_width_stays_on_surface(s: BarState, height: u32, event: PointerEvent, width: u32)
    requires
        s.bar_width <= width,
        within_width(event, width),
    ensures
        step_state(s, height, event).bar_width <= width,
{
}

/// The same for a whole batch of events.
pub proof fn lemma_run_width_stays_on_surface(
    s: BarState,
    height: u32,
    events: Seq<PointerEvent>,
    width: u32,
)
    requires
        s.bar_width <= width,
        forall|i: int| 0 <= i < events.len() ==> within_width(#[trigger] events[i], width),
    ensures
        run_state(s, height, events).bar_width <= width,
        run_fires(s, height, events) <= events.len(),
    decreases events.len(),
{
    if events.len() > 0 {
        let earlier = events.drop_last();
        assert forall|i: int| 0 <= i < earlier.len() implies within_width(
            #[trigger] earlier[i],
            width,
        ) by {
            assert(earlier[i] == events[i]);
        }
        lemma_run_width_stays_on_surface(s, height, earlier, width);
        lemma_width_stays_on_surface(
            run_state(s, height, earlier),
            height,
            events.last(),
            width,
        );
    }
}

} // verus!
