//! The overlay's whole state as a plain record, and what each event does to
//! it.
//!
//! Every transition is a function from a record to the record after the
//! event and the effects that the event asks for. [`crate::state::State`]
//! computes exactly these functions.

use crate::animation::{
    advance, deadline_after, Animation, Direction, TickAction, ANIMATION_INTERVAL, OFFSET_LIMIT,
};
use crate::geometry::Size;
use crate::touch::{in_close_handle, Gesture, Position, TouchSession};
use crate::window::{Effect, Window, WindowKind};
use vstd::prelude::*;

verus! {

/// Longest time between two redraws, in milliseconds.
pub const FRAME_INTERVAL: u64 = 60_000;

/// An input capability of the seat.
#[derive(Copy, Clone, Debug, PartialEq, Eq, Structural)]
pub enum Capability {
    Keyboard,
    Pointer,
    Touch,
}

/// The two windows.
#[derive(Copy, Clone, Debug, PartialEq, Eq)]
pub struct Windows {
    pub panel: Window,
    pub drawer: Window,
}

/// Everything the overlay knows.
#[derive(Copy, Clone, Debug, PartialEq, Eq)]
pub struct Shell {
    /// The windows, once they are created.
    pub windows: Option<Windows>,
    /// The touch that drags the drawer.
    pub session: Option<TouchSession>,
    /// The animation that a lifted touch has left behind.
    pub animation: Option<Animation>,
    /// How far the drawer is open, in sub-units.
    pub drawer_offset: i64,
    /// Whether a touch device is bound.
    pub touch: bool,
    /// Whether the compositor has closed a window.
    pub terminated: bool,
    /// When the next forced redraw is due, in milliseconds.
    pub next_frame: u64,
}

/// What can happen to the overlay.
#[derive(Copy, Clone, Debug, PartialEq, Eq)]
pub enum Event {
    TouchDown { surface: u32, id: i32, position: Position },
    TouchMotion { id: i32, position: Position },
    TouchUp { now: u64, id: i32 },
    TouchCancel { now: u64 },
    AnimationTick { now: u64 },
    Frame { surface: u32 },
    FrameInterval { now: u64 },
    ScaleFactorChanged { surface: u32, factor: i32 },
    Configure { surface: u32, size: Size },
    Closed,
    DrawerBound { surface: u32 },
    NewCapability { capability: Capability },
    TouchAcquired,
    RemoveCapability { now: u64, capability: Capability },
}

/// What the dispatch loop does next. It does one thing per turn.
#[derive(Copy, Clone, Debug, PartialEq, Eq)]
pub enum DispatchStep {
    /// A window was closed: leave the loop.
    Exit,
    /// Hand the waiting compositor events to their handlers.
    Protocol,
    /// Run the due animation tick.
    Tick,
    /// Run the forced redraw.
    Refresh,
    /// Wait for the compositor, this many milliseconds at most.
    Wait(u64),
}

impl Shell {
    /// The state at start: no windows, no touch, the drawer shut.
    pub open spec fn initial(now: u64) -> Shell {
        Shell {
            windows: None,
            session: None,
            animation: None,
            drawer_offset: 0,
            touch: false,
            terminated: false,
            next_frame: deadline_after(now, FRAME_INTERVAL),
        }
    }

    /// What holds of every state that the overlay reaches.
    pub open spec fn wf(self) -> bool {
        &&& self.windows matches Some(w) ==> {
            &&& w.panel.kind == WindowKind::Panel
            &&& w.drawer.kind == WindowKind::Drawer
            &&& w.panel.wf()
            &&& w.drawer.wf()
            &&& w.panel.mapped
        }
        &&& self.session is Some ==> self.animation is None
        &&& self.session is Some || self.animation is Some ==> self.drawer_mapped()
        &&& self.session matches Some(touch) ==> {
            &&& touch.current_offset == self.drawer_offset
            &&& touch.is_opening == (touch.origin == WindowKind::Panel)
        }
        &&& -OFFSET_LIMIT <= self.drawer_offset <= OFFSET_LIMIT
    }

    /// Whether the drawer exists and is shown.
    pub open spec fn drawer_mapped(self) -> bool {
        self.windows matches Some(w) && w.drawer.mapped
    }

    /// The largest drawer offset: the drawer's logical height in sub-units.
    pub open spec fn max_offset(self) -> int {
        match self.windows {
            Some(w) => w.drawer.max_offset(),
            None => 0,
        }
    }

    /// The recognizer's state.
    pub open spec fn gesture(self) -> Gesture {
        match self.session {
            None => Gesture::Idle,
            Some(touch) => if touch.is_opening {
                Gesture::TrackingOpen
            } else {
                Gesture::TrackingClose
            },
        }
    }

    /// What the animation timer does next.
    pub open spec fn tick_action(self) -> TickAction {
        match self.animation {
            Some(animation) => TickAction::Continue(animation.deadline),
            None => TickAction::Stop,
        }
    }

    /// The window that owns a surface: the panel is asked first.
    pub open spec fn route(self, surface: u32) -> Option<WindowKind> {
        match self.windows {
            Some(w) => if w.panel.surface == Some(surface) {
                Some(WindowKind::Panel)
            } else if w.drawer.surface == Some(surface) {
                Some(WindowKind::Drawer)
            } else {
                None
            },
            None => None,
        }
    }

    /// The request to cancel the pending tick, if an animation runs.
    pub open spec fn cancel_tick(self) -> Seq<Effect> {
        if self.animation is Some {
            seq![Effect::CancelTick]
        } else {
            Seq::empty()
        }
    }

    /// The state in which a touch has begun to drag the drawer from `y`.
    pub open spec fn tracking(self, id: i32, position: Position, origin: WindowKind) -> Shell {
        Shell {
            session: Some(
                TouchSession {
                    touch_id: id,
                    start_position: position,
                    current_offset: position.y as i64,
                    origin,
                    is_opening: origin == WindowKind::Panel,
                },
            ),
            animation: None,
            drawer_offset: position.y as i64,
            ..self
        }
    }

    /// A touch went down. Without a session, one on the panel shows the
    /// drawer and begins to open it, and one on the drawer's handle begins
    /// to close it. Any other touch changes nothing.
    pub open spec fn touch_down(self, surface: u32, id: i32, position: Position) -> (
        Shell,
        Seq<Effect>,
    ) {
        match self.windows {
            Some(w) => if self.session is Some {
                (self, Seq::empty())
            } else if w.panel.surface == Some(surface) {
                (
                    Shell {
                        windows: Some(Windows { drawer: w.drawer.show_step().0, ..w }),
                        ..self.tracking(id, position, WindowKind::Panel)
                    },
                    self.cancel_tick() + w.drawer.show_step().1,
                )
            } else if w.drawer.surface == Some(surface) && in_close_handle(
                position.y as int,
                w.drawer.max_offset(),
            ) {
                (self.tracking(id, position, WindowKind::Drawer), self.cancel_tick())
            } else {
                (self, Seq::empty())
            },
            None => (self, Seq::empty()),
        }
    }

    /// The tracked touch moved: the drawer follows it and asks for a frame.
    pub open spec fn touch_motion(self, id: i32, position: Position) -> (Shell, Seq<Effect>) {
        match (self.windows, self.session) {
            (Some(w), Some(touch)) => if touch.touch_id == id {
                (
                    Shell {
                        windows: Some(Windows { drawer: w.drawer.request_frame_step().0, ..w }),
                        session: Some(
                            TouchSession { current_offset: position.y as i64, ..touch },
                        ),
                        drawer_offset: position.y as i64,
                        ..self
                    },
                    w.drawer.request_frame_step().1,
                )
            } else {
                (self, Seq::empty())
            },
            _ => (self, Seq::empty()),
        }
    }

    /// The session ends and hands the drawer to the animation, whose first
    /// tick is due one interval after `now`.
    pub open spec fn release(self, now: u64) -> (Shell, Seq<Effect>) {
        match self.session {
            Some(touch) => (
                Shell {
                    session: None,
                    animation: Some(
                        Animation {
                            direction: if touch.is_opening {
                                Direction::Opening
                            } else {
                                Direction::Closing
                            },
                            deadline: deadline_after(now, ANIMATION_INTERVAL),
                        },
                    ),
                    ..self
                },
                seq![Effect::ScheduleTick(deadline_after(now, ANIMATION_INTERVAL))],
            ),
            None => (self, Seq::empty()),
        }
    }

    /// A touch was lifted: the tracked one ends the session.
    pub open spec fn touch_up(self, now: u64, id: i32) -> (Shell, Seq<Effect>) {
        if self.session matches Some(touch) && touch.touch_id == id {
            self.release(now)
        } else {
            (self, Seq::empty())
        }
    }

    /// The compositor took the touches away: a session ends as if its touch
    /// had been lifted.
    pub open spec fn touch_cancel(self, now: u64) -> (Shell, Seq<Effect>) {
        self.release(now)
    }

    /// One tick of the animation. The drawer moves one step towards the end
    /// that its threshold selects. At or below 0 it is shut and hidden, at or
    /// above the largest offset it is open; either ends the animation.
    /// Otherwise the next tick is due one interval after `now`.
    pub open spec fn tick(self, now: u64) -> (Shell, Seq<Effect>) {
        match (self.windows, self.animation) {
            (Some(w), Some(animation)) => {
                let max_offset = w.drawer.max_offset();
                let moved = advance(animation.direction, self.drawer_offset as int, max_offset);
                if moved <= 0 {
                    (
                        Shell {
                            windows: Some(Windows { drawer: w.drawer.dismiss_step().0, ..w }),
                            animation: None,
                            drawer_offset: 0,
                            ..self
                        },
                        w.drawer.dismiss_step().1,
                    )
                } else if moved >= max_offset {
                    (
                        Shell {
                            windows: Some(Windows { drawer: w.drawer.request_frame_step().0, ..w }),
                            animation: None,
                            drawer_offset: max_offset as i64,
                            ..self
                        },
                        w.drawer.request_frame_step().1,
                    )
                } else {
                    (
                        Shell {
                            windows: Some(Windows { drawer: w.drawer.request_frame_step().0, ..w }),
                            animation: Some(
                                Animation {
                                    deadline: deadline_after(now, ANIMATION_INTERVAL),
                                    ..animation
                                },
                            ),
                            drawer_offset: moved as i64,
                            ..self
                        },
                        w.drawer.request_frame_step().1,
                    )
                }
            },
            _ => (self, Seq::empty()),
        }
    }

    /// A frame callback arrived: the window that owns the surface renders.
    pub open spec fn frame(self, surface: u32) -> (Shell, Seq<Effect>) {
        match self.windows {
            Some(w) => match self.route(surface) {
                Some(WindowKind::Panel) => (
                    Shell {
                        windows: Some(
                            Windows { panel: w.panel.frame_step(self.drawer_offset).0, ..w },
                        ),
                        ..self
                    },
                    w.panel.frame_step(self.drawer_offset).1,
                ),
                Some(WindowKind::Drawer) => (
                    Shell {
                        windows: Some(
                            Windows { drawer: w.drawer.frame_step(self.drawer_offset).0, ..w },
                        ),
                        ..self
                    },
                    w.drawer.frame_step(self.drawer_offset).1,
                ),
                None => (self, Seq::empty()),
            },
            None => (self, Seq::empty()),
        }
    }

    /// The forced redraw: once its deadline is reached, both windows ask
    /// for a frame, the drawer first, and the deadline moves one interval
    /// past `now`.
    pub open spec fn refresh(self, now: u64) -> (Shell, Seq<Effect>) {
        match self.windows {
            Some(w) => if now >= self.next_frame {
                (
                    Shell {
                        windows: Some(
                            Windows {
                                panel: w.panel.request_frame_step().0,
                                drawer: w.drawer.request_frame_step().0,
                            },
                        ),
                        next_frame: deadline_after(now, FRAME_INTERVAL),
                        ..self
                    },
                    w.drawer.request_frame_step().1 + w.panel.request_frame_step().1,
                )
            } else {
                (self, Seq::empty())
            },
            None => (self, Seq::empty()),
        }
    }

    /// The scale factor of a surface changed: its window takes it.
    pub open spec fn scale_factor_changed(self, surface: u32, factor: i32) -> (
        Shell,
        Seq<Effect>,
    ) {
        match self.windows {
            Some(w) => match self.route(surface) {
                Some(WindowKind::Panel) => (
                    Shell {
                        windows: Some(Windows { panel: w.panel.set_scale_step(factor).0, ..w }),
                        ..self
                    },
                    w.panel.set_scale_step(factor).1,
                ),
                Some(WindowKind::Drawer) => (
                    Shell {
                        windows: Some(Windows { drawer: w.drawer.set_scale_step(factor).0, ..w }),
                        ..self
                    },
                    w.drawer.set_scale_step(factor).1,
                ),
                None => (self, Seq::empty()),
            },
            None => (self, Seq::empty()),
        }
    }

    /// The compositor resized a surface: its window takes the size.
    pub open spec fn configure(self, surface: u32, size: Size) -> (Shell, Seq<Effect>) {
        match self.windows {
            Some(w) => match self.route(surface) {
                Some(WindowKind::Panel) => (
                    Shell {
                        windows: Some(
                            Windows {
                                panel: w.panel.reconfigure_step(size, self.drawer_offset).0,
                                ..w
                            },
                        ),
                        ..self
                    },
                    w.panel.reconfigure_step(size, self.drawer_offset).1,
                ),
                Some(WindowKind::Drawer) => (
                    Shell {
                        windows: Some(
                            Windows {
                                drawer: w.drawer.reconfigure_step(size, self.drawer_offset).0,
                                ..w
                            },
                        ),
                        ..self
                    },
                    w.drawer.reconfigure_step(size, self.drawer_offset).1,
                ),
                None => (self, Seq::empty()),
            },
            None => (self, Seq::empty()),
        }
    }

    /// The compositor closed a window: the overlay is over.
    pub open spec fn closed(self) -> (Shell, Seq<Effect>) {
        (Shell { terminated: true, ..self }, Seq::empty())
    }

    /// The surface of the shown drawer exists: its handle is kept.
    pub open spec fn bind_drawer(self, surface: u32) -> (Shell, Seq<Effect>) {
        match self.windows {
            Some(w) => if w.drawer.mapped {
                (
                    Shell {
                        windows: Some(
                            Windows { drawer: Window { surface: Some(surface), ..w.drawer }, ..w },
                        ),
                        ..self
                    },
                    Seq::empty(),
                )
            } else {
                (self, Seq::empty())
            },
            None => (self, Seq::empty()),
        }
    }

    /// The seat gained a capability: without a touch device, touch asks for
    /// one.
    pub open spec fn new_capability(self, capability: Capability) -> (Shell, Seq<Effect>) {
        if capability == Capability::Touch && !self.touch {
            (self, seq![Effect::AcquireTouch])
        } else {
            (self, Seq::empty())
        }
    }

    /// The touch device that was asked for is bound.
    pub open spec fn touch_acquired(self) -> (Shell, Seq<Effect>) {
        (Shell { touch: true, ..self }, Seq::empty())
    }

    /// The seat lost a capability: with touch goes the bound device, and a
    /// session ends as if its touch had been lifted.
    pub open spec fn remove_capability(self, now: u64, capability: Capability) -> (
        Shell,
        Seq<Effect>,
    ) {
        if capability == Capability::Touch && self.touch {
            (
                Shell { touch: false, ..self.release(now).0 },
                seq![Effect::ReleaseTouch] + self.release(now).1,
            )
        } else {
            (self, Seq::empty())
        }
    }

    /// The windows come into being: the panel on the surface that the
    /// compositor has created for it, the drawer hidden.
    pub open spec fn init_windows(self, panel_size: Size, panel_surface: u32, drawer_size: Size) -> (
        Shell,
        Seq<Effect>,
    ) {
        let panel = Window::created(WindowKind::Panel, panel_size, panel_surface);
        (
            Shell {
                windows: Some(
                    Windows { panel, drawer: Window::hidden(WindowKind::Drawer, drawer_size) },
                ),
                ..self
            },
            seq![Effect::Attach(WindowKind::Panel, panel.pixel_size())],
        )
    }

    /// When the overlay has to wake at the latest: at the forced redraw or
    /// at the pending tick, whichever is due first.
    pub open spec fn wake_deadline(self) -> u64 {
        match self.animation {
            Some(animation) => if animation.deadline < self.next_frame {
                animation.deadline
            } else {
                self.next_frame
            },
            None => self.next_frame,
        }
    }

    /// How long the overlay may wait for the compositor at time `now`, in
    /// milliseconds.
    pub open spec fn timeout(self, now: u64) -> u64 {
        if self.wake_deadline() > now {
            (self.wake_deadline() - now) as u64
        } else {
            0
        }
    }

    /// What the dispatch loop does next at time `now`.
    pub open spec fn next_step(self, now: u64, protocol_ready: bool) -> DispatchStep {
        if self.terminated {
            DispatchStep::Exit
        } else if protocol_ready {
            DispatchStep::Protocol
        } else if self.animation matches Some(animation) && animation.deadline <= now {
            DispatchStep::Tick
        } else if self.next_frame <= now {
            DispatchStep::Refresh
        } else {
            DispatchStep::Wait(self.timeout(now))
        }
    }

    /// Whether the event is one that the windows must exist for.
    pub open spec fn expects_windows(event: Event) -> bool {
        event is TouchDown || event is Frame || event is FrameInterval
            || event is ScaleFactorChanged || event is Configure
    }

    /// What an event does.
    pub open spec fn step(self, event: Event) -> (Shell, Seq<Effect>) {
        match event {
            Event::TouchDown { surface, id, position } => self.touch_down(surface, id, position),
            Event::TouchMotion { id, position } => self.touch_motion(id, position),
            Event::TouchUp { now, id } => self.touch_up(now, id),
            Event::TouchCancel { now } => self.touch_cancel(now),
            Event::AnimationTick { now } => self.tick(now),
            Event::Frame { surface } => self.frame(surface),
            Event::FrameInterval { now } => self.refresh(now),
            Event::ScaleFactorChanged { surface, factor } => self.scale_factor_changed(
                surface,
                factor,
            ),
            Event::Configure { surface, size } => self.configure(surface, size),
            Event::Closed => self.closed(),
            Event::DrawerBound { surface } => self.bind_drawer(surface),
            Event::NewCapability { capability } => self.new_capability(capability),
            Event::TouchAcquired => self.touch_acquired(),
            Event::RemoveCapability { now, capability } => self.remove_capability(
                now,
                capability,
            ),
        }
    }

    /// What a sequence of events does: the state after the last of them and
    /// the effects of all, in order.
    pub open spec fn run(self, events: Seq<Event>) -> (Shell, Seq<Effect>)
        decreases events.len(),
    {
        if events.len() == 0 {
            (self, Seq::empty())
        } else {
            let before = self.run(events.drop_last());
            (before.0.step(events.last()).0, before.1 + before.0.step(events.last()).1)
        }
    }
}

} // verus!
