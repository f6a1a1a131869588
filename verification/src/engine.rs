use vstd::prelude::*;
use crate::blink::{blink_on_at, spec_blink_on};

verus! {

/// Mouse button that begins a drag.
pub const BUTTON_DRAG: u8 = 1;

/// Mouse button that dismisses the overlay.
pub const BUTTON_DISMISS: u8 = 3;

/// Immutable settings the event loop runs under.
#[derive(Clone, Copy, Debug)]
pub struct Config {
    /// Whether left-button dragging is supported (the richer variant).  The
    /// simpler variant instead repaints on exposure and ignores the pointer.
    pub drag_enabled: bool,
    /// Whether the blink animation runs at all.
    pub blink: bool,
    /// How long after loop entry the blink animation keeps toggling.
    pub blink_duration_ms: u64,
    /// Half-period of the blink toggle.
    pub blink_rate_ms: u64,
}

impl Config {
    /// A usable configuration: a running blink animation needs a nonzero
    /// half-period to divide elapsed time by.
    pub open spec fn wf(self) -> bool {
        self.blink ==> self.blink_rate_ms > 0
    }
}

/// Where the pointer sat inside the window when a drag began.
#[derive(Clone, Copy, Debug, PartialEq, Eq, Structural)]
pub struct GrabPoint {
    pub x: i16,
    pub y: i16,
}

/// The mutable state one loop iteration threads to the next.
#[derive(Clone, Copy, Debug, PartialEq, Eq)]
pub struct LoopState {
    /// Current window origin, in screen coordinates.
    pub pos_x: i32,
    pub pos_y: i32,
    /// Whether the blink flash is currently shown.
    pub blink_on: bool,
    /// `Some` while a drag grab is active: the grab offset inside the window.
    pub drag: Option<GrabPoint>,
    /// True while a window-move request is outstanding, until the server
    /// acknowledges it with a geometry-changed event.
    pub pending_configure: bool,
    /// Remaining auto-close deadline, as milliseconds of elapsed time.
    /// `None` means the overlay never auto-closes; starting a drag clears it.
    pub timeout_ms: Option<u64>,
}

/// One protocol event, decoded at dequeue time into a closed set of variants,
/// each carrying only the fields the engine reads.
#[derive(Clone, Copy, Debug, PartialEq, Eq)]
pub enum Event {
    /// The server acknowledged a geometry change (move or resize).
    ConfigureNotify,
    /// The pointer moved; positions relative to the window and to the screen.
    Motion { event_x: i16, event_y: i16, root_x: i16, root_y: i16 },
    /// A mouse button went down at the given window-relative position.
    ButtonPress { button: u8, event_x: i16, event_y: i16 },
    /// A mouse button was released.
    ButtonRelease { button: u8 },
    /// The window was destroyed externally.
    DestroyNotify,
    /// Part of the window was exposed and may need repainting.
    Expose,
    /// A key went down.
    KeyPress,
    /// Any other event type.
    Other,
}

/// What the surrounding program must do after one event is dispatched.
#[derive(Clone, Copy, Debug, PartialEq, Eq)]
pub enum Action {
    /// Nothing to perform.
    Nothing,
    /// Repaint the window.
    Redraw,
    /// Issue one window-move request to the given screen position.
    MoveWindow { x: i32, y: i32 },
    /// Actively grab the pointer so motion and release reach us everywhere.
    GrabPointer,
    /// Release the pointer grab.
    UngrabPointer,
    /// Leave the event loop.
    Exit,
}

/// The event dispatch relation: the state after handling `e` in state `s`,
/// and the action the surrounding program performs.
///
/// - A geometry acknowledgment clears the move gate and asks for a repaint.
/// - Pointer motion moves the window only while a drag is active, no move
///   request is outstanding, and the pointer actually moved off the grab
///   point; the new origin is the screen position minus the grab offset, and
///   the move gate closes until the server reports the new geometry.
/// - The dismiss button exits from any state; the drag button (when drags are
///   enabled) records the grab offset, grabs the pointer, and permanently
///   cancels the auto-close deadline.
/// - Releasing the drag button ends the drag and releases the grab.
/// - External destruction exits; exposure repaints only in the variant
///   without drag support; everything else is ignored.
pub open spec fn spec_step(s: LoopState, c: Config, e: Event) -> (LoopState, Action) {
    match e {
        Event::ConfigureNotify => (
            LoopState { pending_configure: false, ..s },
            Action::Redraw,
        ),
        Event::Motion { event_x, event_y, root_x, root_y } => {
            if c.drag_enabled && !s.pending_configure && s.drag is Some {
                let g = s.drag->0;
                if event_x != g.x || event_y != g.y {
                    let nx = (root_x - g.x) as i32;
                    let ny = (root_y - g.y) as i32;
                    (
                        LoopState {
                            pos_x: nx,
                            pos_y: ny,
                            pending_configure: true,
                            ..s
                        },
                        Action::MoveWindow { x: nx, y: ny },
                    )
                } else {
                    (s, Action::Nothing)
                }
            } else {
                (s, Action::Nothing)
            }
        },
        Event::ButtonPress { button, event_x, event_y } => {
            if button == BUTTON_DISMISS {
                (s, Action::Exit)
            } else if button == BUTTON_DRAG && c.drag_enabled {
                (
                    LoopState {
                        drag: Some(GrabPoint { x: event_x, y: event_y }),
                        timeout_ms: None,
                        ..s
                    },
                    Action::GrabPointer,
                )
            } else {
                (s, Action::Nothing)
            }
        },
        Event::ButtonRelease { button } => {
            if button == BUTTON_DRAG && c.drag_enabled {
                (LoopState { drag: None, ..s }, Action::UngrabPointer)
            } else {
                (s, Action::Nothing)
            }
        },
        Event::DestroyNotify => (s, Action::Exit),
        Event::Expose => {
            if !c.drag_enabled {
                (s, Action::Redraw)
            } else {
                (s, Action::Nothing)
            }
        },
        Event::KeyPress => (s, Action::Nothing),
        Event::Other => (s, Action::Nothing),
    }
}

/// Whether the loop's top-of-iteration check leaves the loop: a configured
/// auto-close deadline has been reached.
pub open spec fn spec_should_exit(s: LoopState, elapsed_ms: u64) -> bool {
    s.timeout_ms matches Some(d) && elapsed_ms >= d
}

impl LoopState {
    /// The state the loop enters with: idle, flash off, no outstanding move
    /// request, at the window's initial screen origin.
    pub fn initial(pos_x: i32, pos_y: i32, timeout_ms: Option<u64>) -> (s: LoopState)
        ensures
            s == (LoopState {
                pos_x,
                pos_y,
                blink_on: false,
                drag: None,
                pending_configure: false,
                timeout_ms,
            }),
    {
        LoopState {
            pos_x,
            pos_y,
            blink_on: false,
            drag: None,
            pending_configure: false,
            timeout_ms,
        }
    }
}

/// Dispatch one decoded event: update the state and return the action the
/// surrounding program must perform, exactly as `spec_step` relates them.
pub fn handle_event(state: &mut LoopState, config: &Config, event: &Event) -> (a: Action)
    ensures
        *final(state) == spec_step(*old(state), *config, *event).0,
        a == spec_step(*old(state), *config, *event).1,
{
    match *event {
        Event::ConfigureNotify => {
            state.pending_configure = false;
            Action::Redraw
        },
        Event::Motion { event_x, event_y, root_x, root_y } => {
            if config.drag_enabled && !state.pending_configure {
                match state.drag {
                    Some(g) => {
                        if event_x != g.x || event_y != g.y {
                            let nx: i32 = root_x as i32 - g.x as i32;
                            let ny: i32 = root_y as i32 - g.y as i32;
                            state.pos_x = nx;
                            state.pos_y = ny;
                            state.pending_configure = true;
                            Action::MoveWindow { x: nx, y: ny }
                        } else {
                            Action::Nothing
                        }
                    },
                    None => Action::Nothing,
                }
            } else {
                Action::Nothing
            }
        },
        Event::ButtonPress { button, event_x, event_y } => {
            if button == BUTTON_DISMISS {
                Action::Exit
            } else if button == BUTTON_DRAG && config.drag_enabled {
                state.drag = Some(GrabPoint { x: event_x, y: event_y });
                state.timeout_ms = None;
                Action::GrabPointer
            } else {
                Action::Nothing
            }
        },
        Event::ButtonRelease { button } => {
            if button == BUTTON_DRAG && config.drag_enabled {
                state.drag = None;
                Action::UngrabPointer
            } else {
                Action::Nothing
            }
        },
        Event::DestroyNotify => Action::Exit,
        Event::Expose => {
            if !config.drag_enabled {
                Action::Redraw
            } else {
                Action::Nothing
            }
        },
        Event::KeyPress => Action::Nothing,
        Event::Other => Action::Nothing,
    }
}

/// The per-iteration blink step: when blinking is enabled, recompute the
/// blink state from the elapsed time; a change of state asks for an immediate
/// repaint, bypassing the event-driven redraw path.
pub fn tick_blink(state: &mut LoopState, config: &Config, elapsed_ms: u64) -> (redraw: bool)
    requires
        config.wf(),
    ensures
        config.blink ==> final(state).blink_on == spec_blink_on(
            elapsed_ms,
            config.blink_duration_ms,
            config.blink_rate_ms,
        ),
        !config.blink ==> final(state).blink_on == old(state).blink_on,
        *final(state) == (LoopState { blink_on: final(state).blink_on, ..*old(state) }),
        redraw == (final(state).blink_on != old(state).blink_on),
{
    if config.blink {
        let new_blink = blink_on_at(elapsed_ms, config.blink_duration_ms, config.blink_rate_ms);
        if new_blink != state.blink_on {
            state.blink_on = new_blink;
            return true;
        }
    }
    false
}

/// The loop's top-of-iteration check: leave the loop once a configured
/// auto-close deadline has been reached; without one, never.
pub fn should_exit(state: &LoopState, elapsed_ms: u64) -> (b: bool)
    ensures
        b == spec_should_exit(*state, elapsed_ms),
{
    match state.timeout_ms {
        Some(d) => elapsed_ms >= d,
        None => false,
    }
}

/// Law: starting a drag cancels a pending auto-timeout.  After the drag
/// button goes down, the deadline is gone and no elapsed time — however
/// large — makes the loop exit on the timeout path.
pub proof fn lemma_drag_cancels_timeout(
    s: LoopState,
    c: Config,
    event_x: i16,
    event_y: i16,
)
    requires
        c.drag_enabled,
    ensures
        ({
            let stepped = spec_step(
                s,
                c,
                Event::ButtonPress { button: BUTTON_DRAG, event_x, event_y },
            ).0;
            &&& stepped.timeout_ms is None
            &&& forall|t: u64| !spec_should_exit(stepped, t)
        }),
{
}

/// Law: a cancelled timeout stays cancelled.  No event dispatch ever restores
/// an auto-close deadline, so once a drag has cleared it, every later state
/// still never exits on the timeout path.
pub proof fn lemma_timeout_stays_cancelled(s: LoopState, c: Config, e: Event)
    requires
        s.timeout_ms is None,
    ensures
        spec_step(s, c, e).0.timeout_ms is None,
        forall|t: u64| !spec_should_exit(spec_step(s, c, e).0, t),
{
}

/// Law: at most one outbound window-move request is in flight.  While the
/// move gate is closed, pointer motion changes nothing and sends no request;
/// and the dispatch that does send a move request closes it, so a
/// later motion event sends none until the server reports the geometry.
pub proof fn lemma_move_requests_serialized(s: LoopState, c: Config, e1: Event, e2: Event)
    requires
        e1 is Motion,
        e2 is Motion,
    ensures
        s.pending_configure ==> spec_step(s, c, e1) == (s, Action::Nothing),
        spec_step(s, c, e1).1 is MoveWindow ==> spec_step(
            spec_step(s, c, e1).0,
            c,
            e2,
        ).1 !is MoveWindow,
{
}

/// Law: the dismiss button always dismisses.  In every state — idle or
/// dragging, gate open or closed, whatever the blink or timeout state — a
/// press of button three exits on this very dispatch.
pub proof fn lemma_dismiss_always_exits(
    s: LoopState,
    c: Config,
    event_x: i16,
    event_y: i16,
)
    ensures
        spec_step(s, c, Event::ButtonPress { button: BUTTON_DISMISS, event_x, event_y }).1
            == Action::Exit,
        spec_step(s, c, Event::ButtonPress { button: BUTTON_DISMISS, event_x, event_y }).0
            == s,
{
}

} // verus!
