//! The overlay's state and its event handlers.

use crate::animation::{
    is_past_threshold, Animation, Direction, TickAction, ANIMATION_INTERVAL, ANIMATION_STEP,
};
use crate::geometry::Size;
use crate::shell::{Capability, DispatchStep, Event, Shell, Windows, FRAME_INTERVAL};
use crate::touch::{is_in_close_handle, Gesture, Position, TouchSession};
use crate::window::{Effect, ProtocolError, Window, WindowKind};
use vstd::prelude::*;

verus! {

/// The state of the overlay. It is changed by its handlers alone, each of
/// which answers with the effects to carry out.
pub struct State {
    shell: Shell,
}

impl View for State {
    type V = Shell;

    closed spec fn view(&self) -> Shell {
        self.shell
    }
}

impl State {
    /// Every state is well formed.
    #[verifier::type_invariant]
    pub closed spec fn inv(self) -> bool {
        self.shell.wf()
    }

    /// The state at start, with the first forced redraw due one frame
    /// interval after `now`.
    pub fn new(now: u64) -> (state: State)
        ensures
            state@ == Shell::initial(now),
            state@.wf(),
    {
        State {
            shell: Shell {
                windows: None,
                session: None,
                animation: None,
                drawer_offset: 0,
                touch: false,
                terminated: false,
                next_frame: now.saturating_add(FRAME_INTERVAL),
            },
        }
    }

    /// Creates the windows: the panel on the surface that the compositor
    /// made for it, the drawer hidden. `panel_surface` is the handle of that
    /// surface, or `None` where the compositor rejected it; then nothing
    /// changes. The windows are created once.
    pub fn init_windows(
        &mut self,
        panel_size: Size,
        panel_surface: Option<u32>,
        drawer_size: Size,
    ) -> (result: Result<Vec<Effect>, ProtocolError>)
        requires
            old(self)@.windows is None,
        ensures
            match panel_surface {
                Some(surface) => {
                    &&& result matches Ok(effects)
                    &&& final(self)@ == old(self)@.init_windows(panel_size, surface, drawer_size).0
                    &&& effects@ == old(self)@.init_windows(panel_size, surface, drawer_size).1
                },
                None => result is Err && final(self)@ == old(self)@,
            },
            final(self)@.wf(),
    {
        proof {
            use_type_invariant(&*self);
        }
        let shell = self.shell;
        match Window::create(WindowKind::Panel, panel_size, panel_surface) {
            Ok(panel) => {
                let drawer = Window::new(WindowKind::Drawer, drawer_size);
                let mut effects = Vec::new();
                effects.push(Effect::Attach(WindowKind::Panel, panel_size * 1));
                self.shell = Shell { windows: Some(Windows { panel, drawer }), ..shell };
                Ok(effects)
            },
            Err(error) => Err(error),
        }
    }

    /// A touch with this id went down on a surface.
    ///
    /// While no touch is tracked, a touch on the panel shows the drawer,
    /// sets the offset to the touch's height and begins to open; a touch on
    /// the drawer at or below 95% of its height sets the offset likewise and
    /// begins to close. Either supersedes a running animation. Every other
    /// touch, and every touch while one is tracked, is ignored.
    pub fn down(&mut self, surface: u32, id: i32, position: Position) -> (effects: Vec<Effect>)
        requires
            old(self)@.windows is Some,
        ensures
            final(self)@ == old(self)@.touch_down(surface, id, position).0,
            effects@ == old(self)@.touch_down(surface, id, position).1,
            old(self)@.session is Some ==> final(self)@ == old(self)@ && effects@.len() == 0,
            final(self)@.wf(),
    {
        proof {
            use_type_invariant(&*self);
        }
        let mut effects = Vec::new();
        let shell = self.shell;
        match shell.windows {
            Some(w) => {
                if shell.session.is_some() {
                } else if w.panel.owns(surface) {
                    if shell.animation.is_some() {
                        effects.push(Effect::CancelTick);
                    }
                    let mut drawer = w.drawer;
                    drawer.show(&mut effects);
                    self.shell =
                    Shell {
                        windows: Some(Windows { drawer, ..w }),
                        session: Some(
                            TouchSession {
                                touch_id: id,
                                start_position: position,
                                current_offset: position.y as i64,
                                origin: WindowKind::Panel,
                                is_opening: true,
                            },
                        ),
                        animation: None,
                        drawer_offset: position.y as i64,
                        ..shell
                    };
                } else if w.drawer.owns(surface) && is_in_close_handle(
                    position.y,
                    w.drawer.max_offset_units(),
                ) {
                    if shell.animation.is_some() {
                        effects.push(Effect::CancelTick);
                    }
                    self.shell =
                    Shell {
                        session: Some(
                            TouchSession {
                                touch_id: id,
                                start_position: position,
                                current_offset: position.y as i64,
                                origin: WindowKind::Drawer,
                                is_opening: false,
                            },
                        ),
                        animation: None,
                        drawer_offset: position.y as i64,
                        ..shell
                    };
                }
            },
            None => {},
        }
        effects
    }

    /// The touch with this id moved. The drawer follows the tracked touch
    /// and asks for a frame; any other touch is ignored.
    pub fn motion(&mut self, id: i32, position: Position) -> (effects: Vec<Effect>)
        ensures
            final(self)@ == old(self)@.touch_motion(id, position).0,
            effects@ == old(self)@.touch_motion(id, position).1,
            final(self)@.wf(),
    {
        proof {
            use_type_invariant(&*self);
        }
        let mut effects = Vec::new();
        let shell = self.shell;
        match (shell.windows, shell.session) {
            (Some(w), Some(touch)) => {
                if touch.touch_id == id {
                    let mut drawer = w.drawer;
                    drawer.request_frame(&mut effects);
                    self.shell =
                    Shell {
                        windows: Some(Windows { drawer, ..w }),
                        session: Some(TouchSession { current_offset: position.y as i64, ..touch }),
                        drawer_offset: position.y as i64,
                        ..shell
                    };
                }
            },
            _ => {},
        }
        effects
    }

    /// Ends the session, if there is one, and starts the animation.
    fn release(&mut self, now: u64, effects: &mut Vec<Effect>)
        ensures
            final(self)@ == old(self)@.release(now).0,
            final(effects)@ == old(effects)@ + old(self)@.release(now).1,
            final(self)@.wf(),
    {
        proof {
            use_type_invariant(&*self);
        }
        let shell = self.shell;
        match shell.session {
            Some(touch) => {
                let deadline = now.saturating_add(ANIMATION_INTERVAL);
                let direction = if touch.is_opening {
                    Direction::Opening
                } else {
                    Direction::Closing
                };
                self.shell =
                Shell {
                    session: None,
                    animation: Some(Animation { direction, deadline }),
                    ..shell
                };
                effects.push(Effect::ScheduleTick(deadline));
            },
            None => {},
        }
    }

    /// The touch with this id was lifted at time `now`. The tracked touch
    /// ends its session and hands the drawer to the animation, whose first
    /// tick is due one interval later; any other touch is ignored.
    pub fn up(&mut self, now: u64, id: i32) -> (effects: Vec<Effect>)
        ensures
            final(self)@ == old(self)@.touch_up(now, id).0,
            effects@ == old(self)@.touch_up(now, id).1,
            final(self)@.wf(),
    {
        proof {
            use_type_invariant(&*self);
        }
        let mut effects = Vec::new();
        let ours = match self.shell.session {
            Some(touch) => touch.touch_id == id,
            None => false,
        };
        if ours {
            self.release(now, &mut effects);
        }
        effects
    }

    /// The compositor took all touches away at time `now`. A session ends
    /// as if its touch had been lifted.
    pub fn cancel(&mut self, now: u64) -> (effects: Vec<Effect>)
        ensures
            final(self)@ == old(self)@.touch_cancel(now).0,
            effects@ == old(self)@.touch_cancel(now).1,
            final(self)@.wf(),
    {
        let mut effects = Vec::new();
        self.release(now, &mut effects);
        effects
    }

    /// A frame callback arrived for a surface. The window that owns it
    /// renders, the drawer at its offset.
    pub fn frame(&mut self, surface: u32) -> (effects: Vec<Effect>)
        requires
            old(self)@.windows is Some,
        ensures
            final(self)@ == old(self)@.frame(surface).0,
            effects@ == old(self)@.frame(surface).1,
            final(self)@.wf(),
    {
        proof {
            use_type_invariant(&*self);
        }
        let mut effects = Vec::new();
        let shell = self.shell;
        match shell.windows {
            Some(w) => {
                if w.panel.owns(surface) {
                    let mut panel = w.panel;
                    panel.frame(shell.drawer_offset, &mut effects);
                    self.shell = Shell { windows: Some(Windows { panel, ..w }), ..shell };
                } else if w.drawer.owns(surface) {
                    let mut drawer = w.drawer;
                    drawer.frame(shell.drawer_offset, &mut effects);
                    self.shell = Shell { windows: Some(Windows { drawer, ..w }), ..shell };
                }
            },
            None => {},
        }
        effects
    }

    /// The forced redraw at time `now`. Once its deadline is reached both
    /// windows ask for a frame, the drawer first, and the next forced redraw
    /// is due one frame interval after `now`. Before the deadline nothing
    /// happens.
    pub fn refresh(&mut self, now: u64) -> (effects: Vec<Effect>)
        requires
            old(self)@.windows is Some,
        ensures
            final(self)@ == old(self)@.refresh(now).0,
            effects@ == old(self)@.refresh(now).1,
            final(self)@.wf(),
    {
        proof {
            use_type_invariant(&*self);
        }
        let mut effects = Vec::new();
        let shell = self.shell;
        match shell.windows {
            Some(w) => {
                if now >= shell.next_frame {
                    let mut drawer = w.drawer;
                    let mut panel = w.panel;
                    drawer.request_frame(&mut effects);
                    panel.request_frame(&mut effects);
                    self.shell =
                    Shell {
                        windows: Some(Windows { panel, drawer }),
                        next_frame: now.saturating_add(FRAME_INTERVAL),
                        ..shell
                    };
                }
            },
            None => {},
        }
        effects
    }

    /// The scale factor of a surface changed. The window that owns it takes
    /// the factor: its render context is destroyed and created again at the
    /// new pixel size, and it asks for a frame. The drawer's offset stays.
    pub fn scale_factor_changed(&mut self, surface: u32, factor: i32) -> (effects: Vec<Effect>)
        requires
            old(self)@.windows is Some,
        ensures
            final(self)@ == old(self)@.scale_factor_changed(surface, factor).0,
            effects@ == old(self)@.scale_factor_changed(surface, factor).1,
            final(self)@.drawer_offset == old(self)@.drawer_offset,
            final(self)@.wf(),
    {
        proof {
            use_type_invariant(&*self);
        }
        let mut effects = Vec::new();
        let shell = self.shell;
        match shell.windows {
            Some(w) => {
                if w.panel.owns(surface) {
                    let mut panel = w.panel;
                    panel.set_scale(factor, &mut effects);
                    self.shell = Shell { windows: Some(Windows { panel, ..w }), ..shell };
                } else if w.drawer.owns(surface) {
                    let mut drawer = w.drawer;
                    drawer.set_scale(factor, &mut effects);
                    self.shell = Shell { windows: Some(Windows { drawer, ..w }), ..shell };
                }
            },
            None => {},
        }
        effects
    }

    /// The compositor resized a surface. The window that owns it takes the
    /// size, resizes its render context and renders at once.
    pub fn configure(&mut self, surface: u32, size: Size) -> (effects: Vec<Effect>)
        requires
            old(self)@.windows is Some,
        ensures
            final(self)@ == old(self)@.configure(surface, size).0,
            effects@ == old(self)@.configure(surface, size).1,
            final(self)@.wf(),
    {
        proof {
            use_type_invariant(&*self);
        }
        let mut effects = Vec::new();
        let shell = self.shell;
        match shell.windows {
            Some(w) => {
                if w.panel.owns(surface) {
                    let mut panel = w.panel;
                    panel.reconfigure(size, shell.drawer_offset, &mut effects);
                    self.shell = Shell { windows: Some(Windows { panel, ..w }), ..shell };
                } else if w.drawer.owns(surface) {
                    let mut drawer = w.drawer;
                    drawer.reconfigure(size, shell.drawer_offset, &mut effects);
                    self.shell = Shell { windows: Some(Windows { drawer, ..w }), ..shell };
                }
            },
            None => {},
        }
        effects
    }

    /// The compositor closed a window: the overlay is over.
    pub fn closed(&mut self) -> (effects: Vec<Effect>)
        ensures
            final(self)@ == old(self)@.closed().0,
            effects@ == old(self)@.closed().1,
            final(self)@.wf(),
    {
        proof {
            use_type_invariant(&*self);
        }
        let shell = self.shell;
        self.shell = Shell { terminated: true, ..shell };
        Vec::new()
    }

    /// The surface that was created for the shown drawer has this handle.
    /// A hidden drawer keeps none.
    pub fn bind_drawer(&mut self, surface: u32) -> (effects: Vec<Effect>)
        ensures
            final(self)@ == old(self)@.bind_drawer(surface).0,
            effects@ == old(self)@.bind_drawer(surface).1,
            final(self)@.wf(),
    {
        proof {
            use_type_invariant(&*self);
        }
        let shell = self.shell;
        match shell.windows {
            Some(w) => {
                if w.drawer.mapped {
                    let drawer = Window { surface: Some(surface), ..w.drawer };
                    self.shell = Shell { windows: Some(Windows { drawer, ..w }), ..shell };
                }
            },
            None => {},
        }
        Vec::new()
    }

    /// The seat gained a capability. Touch asks for the touch device, unless
    /// one is bound.
    pub fn new_capability(&mut self, capability: Capability) -> (effects: Vec<Effect>)
        ensures
            final(self)@ == old(self)@.new_capability(capability).0,
            effects@ == old(self)@.new_capability(capability).1,
            final(self)@.wf(),
    {
        proof {
            use_type_invariant(&*self);
        }
        let mut effects = Vec::new();
        if capability == Capability::Touch && !self.shell.touch {
            effects.push(Effect::AcquireTouch);
        }
        effects
    }

    /// The touch device that was asked for is bound.
    pub fn touch_acquired(&mut self) -> (effects: Vec<Effect>)
        ensures
            final(self)@ == old(self)@.touch_acquired().0,
            effects@ == old(self)@.touch_acquired().1,
            final(self)@.wf(),
    {
        proof {
            use_type_invariant(&*self);
        }
        let shell = self.shell;
        self.shell = Shell { touch: true, ..shell };
        Vec::new()
    }

    /// The seat lost a capability at time `now`. With touch the bound device
    /// is released, and a session ends as if its touch had been lifted.
    pub fn remove_capability(&mut self, now: u64, capability: Capability) -> (effects: Vec<
        Effect,
    >)
        ensures
            final(self)@ == old(self)@.remove_capability(now, capability).0,
            effects@ == old(self)@.remove_capability(now, capability).1,
            final(self)@.wf(),
    {
        proof {
            use_type_invariant(&*self);
        }
        let mut effects = Vec::new();
        if capability == Capability::Touch && self.shell.touch {
            effects.push(Effect::ReleaseTouch);
            self.release(now, &mut effects);
            proof {
                use_type_invariant(&*self);
            }
            let shell = self.shell;
            self.shell = Shell { touch: false, ..shell };
        }
        effects
    }

    /// When the overlay has to wake at the latest: at the forced redraw or
    /// at the pending tick, whichever is due first.
    pub fn wake_deadline(&self) -> (deadline: u64)
        ensures
            deadline == self@.wake_deadline(),
    {
        match self.shell.animation {
            Some(animation) => if animation.deadline < self.shell.next_frame {
                animation.deadline
            } else {
                self.shell.next_frame
            },
            None => self.shell.next_frame,
        }
    }

    /// How many milliseconds the overlay may wait for the compositor at
    /// time `now`: the time to its wake deadline, 0 once that is reached.
    pub fn dispatch_timeout(&self, now: u64) -> (timeout: u64)
        ensures
            timeout == self@.timeout(now),
    {
        let deadline = self.wake_deadline();
        if deadline > now {
            deadline - now
        } else {
            0
        }
    }

    /// What the dispatch loop does next at time `now`: leave once a window
    /// was closed; else hand over the compositor's events while any wait;
    /// else run the tick that is due; else run the forced redraw that is
    /// due; else wait until the wake deadline.
    pub fn next_step(&self, now: u64, protocol_ready: bool) -> (step: DispatchStep)
        ensures
            step == self@.next_step(now, protocol_ready),
    {
        let tick_due = match self.shell.animation {
            Some(animation) => animation.deadline <= now,
            None => false,
        };
        if self.shell.terminated {
            DispatchStep::Exit
        } else if protocol_ready {
            DispatchStep::Protocol
        } else if tick_due {
            DispatchStep::Tick
        } else if self.shell.next_frame <= now {
            DispatchStep::Refresh
        } else {
            DispatchStep::Wait(self.dispatch_timeout(now))
        }
    }

    /// Whether the state can take the event: the windows exist, or the
    /// event is one that needs none.
    pub fn accepts(&self, event: &Event) -> (accepted: bool)
        ensures
            accepted == (Shell::expects_windows(*event) ==> self@.windows is Some),
    {
        let expects_windows = match event {
            Event::TouchDown { .. } => true,
            Event::Frame { .. } => true,
            Event::FrameInterval { .. } => true,
            Event::ScaleFactorChanged { .. } => true,
            Event::Configure { .. } => true,
            _ => false,
        };
        !expects_windows || self.shell.windows.is_some()
    }

    /// Hands an event to its handler. The events that reach for the windows
    /// need them to exist.
    pub fn handle(&mut self, event: Event) -> (effects: Vec<Effect>)
        requires
            Shell::expects_windows(event) ==> old(self)@.windows is Some,
        ensures
            final(self)@ == old(self)@.step(event).0,
            effects@ == old(self)@.step(event).1,
            final(self)@.wf(),
    {
        match event {
            Event::TouchDown { surface, id, position } => self.down(surface, id, position),
            Event::TouchMotion { id, position } => self.motion(id, position),
            Event::TouchUp { now, id } => self.up(now, id),
            Event::TouchCancel { now } => self.cancel(now),
            Event::AnimationTick { now } => animate_drawer(now, self).1,
            Event::Frame { surface } => self.frame(surface),
            Event::FrameInterval { now } => self.refresh(now),
            Event::ScaleFactorChanged { surface, factor } => self.scale_factor_changed(
                surface,
                factor,
            ),
            Event::Configure { surface, size } => self.configure(surface, size),
            Event::Closed => self.closed(),
            Event::DrawerBound { surface } => self.bind_drawer(surface),
            Event::NewCapability { capability } => self.new_capability(capability),
            Event::TouchAcquired => self.touch_acquired(),
            Event::RemoveCapability { now, capability } => self.remove_capability(
                now,
                capability,
            ),
        }
    }

    /// Whether the windows are created.
    pub fn is_initialized(&self) -> (initialized: bool)
        ensures
            initialized == (self@.windows is Some),
    {
        self.shell.windows.is_some()
    }

    /// Whether the compositor has closed a window.
    pub fn is_terminated(&self) -> (terminated: bool)
        ensures
            terminated == self@.terminated,
    {
        self.shell.terminated
    }

    /// The drawer window.
    pub fn drawer(&self) -> (drawer: Window)
        requires
            self@.windows is Some,
        ensures
            drawer == self@.windows->0.drawer,
    {
        match self.shell.windows {
            Some(w) => w.drawer,
            None => Window::new(WindowKind::Drawer, Size::new(0, 0)),
        }
    }

    /// The panel window.
    pub fn panel(&self) -> (panel: Window)
        requires
            self@.windows is Some,
        ensures
            panel == self@.windows->0.panel,
    {
        match self.shell.windows {
            Some(w) => w.panel,
            None => Window::new(WindowKind::Panel, Size::new(0, 0)),
        }
    }

    /// How far the drawer is open, in sub-units.
    pub fn drawer_offset(&self) -> (offset: i64)
        ensures
            offset == self@.drawer_offset,
    {
        self.shell.drawer_offset
    }

    /// The recognizer's state.
    pub fn gesture(&self) -> (gesture: Gesture)
        ensures
            gesture == self@.gesture(),
    {
        match self.shell.session {
            None => Gesture::Idle,
            Some(touch) => if touch.is_opening {
                Gesture::TrackingOpen
            } else {
                Gesture::TrackingClose
            },
        }
    }

    /// A copy of the state as a plain record.
    pub fn shell(&self) -> (shell: Shell)
        ensures
            shell == self@,
            shell.wf(),
    {
        proof {
            use_type_invariant(self);
        }
        self.shell
    }
}

/// One tick of the drawer animation at time `now`.
///
/// The drawer moves one step: up when it is past the threshold of its
/// direction, down otherwise. Where that takes it to 0 or below, it is shut
/// and hidden; where it takes it to the largest offset or beyond, it is open
/// and asks for a last frame. Either way the animation is over. Otherwise
/// the drawer asks for a frame and the next tick is due one interval after
/// `now`. Without an animation nothing happens.
pub fn animate_drawer(now: u64, state: &mut State) -> (outcome: (TickAction, Vec<Effect>))
    ensures
        final(state)@ == old(state)@.tick(now).0,
        outcome.1@ == old(state)@.tick(now).1,
        outcome.0 == final(state)@.tick_action(),
        final(state)@.wf(),
{
    proof {
        use_type_invariant(&*state);
    }
    let mut effects = Vec::new();
    let shell = state.shell;
    match (shell.windows, shell.animation) {
        (Some(w), Some(animation)) => {
            let mut drawer = w.drawer;
            let max_offset = drawer.max_offset_units();
            let moved = if is_past_threshold(animation.direction, shell.drawer_offset, max_offset) {
                shell.drawer_offset + ANIMATION_STEP
            } else {
                shell.drawer_offset - ANIMATION_STEP
            };
            if moved <= 0 {
                drawer.dismiss(&mut effects);
                state.shell =
                Shell {
                    windows: Some(Windows { drawer, ..w }),
                    animation: None,
                    drawer_offset: 0,
                    ..shell
                };
                (TickAction::Stop, effects)
            } else if moved >= max_offset {
                drawer.request_frame(&mut effects);
                state.shell =
                Shell {
                    windows: Some(Windows { drawer, ..w }),
                    animation: None,
                    drawer_offset: max_offset,
                    ..shell
                };
                (TickAction::Stop, effects)
            } else {
                let deadline = now.saturating_add(ANIMATION_INTERVAL);
                drawer.request_frame(&mut effects);
                state.shell =
                Shell {
                    windows: Some(Windows { drawer, ..w }),
                    animation: Some(Animation { deadline, ..animation }),
                    drawer_offset: moved,
                    ..shell
                };
                (TickAction::Continue(deadline), effects)
            }
        },
        _ => (TickAction::Stop, effects),
    }
}

} // verus!
