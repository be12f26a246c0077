//! A window of the overlay: its surface, its render context and its pending
//! frame callback.

use crate::geometry::Size;
use std::ops::Mul;
use vstd::prelude::*;
use vstd::std_specs::ops::MulSpec;

verus! {

/// Sub-units per logical unit. Positions and offsets are counted in
/// sub-units, the 24.8 fixed-point format in which touch coordinates travel.
pub const UNIT: i64 = 256;

/// Which of the two windows.
#[derive(Copy, Clone, Debug, PartialEq, Eq, Structural)]
pub enum WindowKind {
    Panel,
    Drawer,
}

/// Work that a handler leaves to its caller.
#[derive(Copy, Clone, Debug, PartialEq, Eq)]
pub enum Effect {
    /// Create the compositor surface of the window.
    CreateSurface(WindowKind),
    /// Destroy the compositor surface of the window.
    DestroySurface(WindowKind),
    /// Create the native surface and the GPU context, of this size in pixels.
    Attach(WindowKind, Size),
    /// Destroy the native surface and the GPU context.
    Detach(WindowKind),
    /// Resize the native surface to this size in pixels.
    Resize(WindowKind, Size),
    /// Ask the compositor for a frame callback on the window's surface.
    RequestFrame(WindowKind),
    /// Render and present the panel.
    DrawPanel,
    /// Render and present the drawer at this offset.
    DrawDrawer(i64),
    /// Schedule the first animation tick at this time.
    ScheduleTick(u64),
    /// Cancel the pending animation tick.
    CancelTick,
    /// Bind the seat's touch device.
    AcquireTouch,
    /// Release the bound touch device.
    ReleaseTouch,
}

/// The compositor rejected the creation of a surface.
#[derive(Copy, Clone, Debug, PartialEq, Eq)]
pub struct ProtocolError;

/// One window of the overlay.
#[derive(Copy, Clone, Debug, PartialEq, Eq)]
pub struct Window {
    pub kind: WindowKind,
    /// Whether the window is shown.
    pub mapped: bool,
    /// Size in logical units.
    pub logical_size: Size,
    /// Pixels per logical unit.
    pub scale_factor: i32,
    /// Handle of the compositor surface, once it is known.
    pub surface: Option<u32>,
    /// Size in pixels of the attached render context.
    pub context: Option<Size>,
    /// Whether a frame callback was requested and has not arrived.
    pub frame_pending: bool,
}

impl Window {
    /// The size in pixels that a render context of this window has.
    pub open spec fn pixel_size(self) -> Size {
        self.logical_size.mul_spec(self.scale_factor)
    }

    /// The largest drawer offset: the window's logical height in sub-units.
    pub open spec fn max_offset(self) -> int {
        self.logical_size.height * UNIT
    }

    /// A mapped window has a render context of its pixel size and a hidden
    /// one has neither context, surface nor pending frame.
    pub open spec fn wf(self) -> bool {
        &&& self.mapped ==> self.context == Some(self.pixel_size())
        &&& !self.mapped ==> self.context is None && self.surface is None && !self.frame_pending
    }

    /// The hidden window of a kind and size, at scale factor 1.
    pub open spec fn hidden(kind: WindowKind, size: Size) -> Window {
        Window {
            kind,
            mapped: false,
            logical_size: size,
            scale_factor: 1,
            surface: None,
            context: None,
            frame_pending: false,
        }
    }

    /// The mapped window on a surface that the compositor has created,
    /// with its render context.
    pub open spec fn created(kind: WindowKind, size: Size, surface: u32) -> Window {
        Window {
            mapped: true,
            surface: Some(surface),
            context: Some(Window::hidden(kind, size).pixel_size()),
            ..Window::hidden(kind, size)
        }
    }

    /// A hidden window of the given size, at scale factor 1.
    pub fn new(kind: WindowKind, size: Size) -> (window: Window)
        ensures
            window == Window::hidden(kind, size),
    {
        Window {
            kind,
            mapped: false,
            logical_size: size,
            scale_factor: 1,
            surface: None,
            context: None,
            frame_pending: false,
        }
    }

    /// The window for a surface that the caller asked the compositor to
    /// create: `surface` is the handle it got, or `None` after a rejection.
    pub fn create(kind: WindowKind, size: Size, surface: Option<u32>) -> (result: Result<
        Window,
        ProtocolError,
    >)
        ensures
            match surface {
                Some(handle) => result == Ok::<Window, ProtocolError>(
                    Window::created(kind, size, handle),
                ),
                None => result is Err,
            },
    {
        match surface {
            Some(handle) => Ok(
                Window {
                    kind,
                    mapped: true,
                    logical_size: size,
                    scale_factor: 1,
                    surface: Some(handle),
                    context: Some(size * 1),
                    frame_pending: false,
                },
            ),
            None => Err(ProtocolError),
        }
    }

    /// What `attach` does: the context, and the request to create it.
    pub open spec fn attach_step(self) -> (Window, Seq<Effect>) {
        (
            Window { context: Some(self.pixel_size()), ..self },
            seq![Effect::Attach(self.kind, self.pixel_size())],
        )
    }

    /// What `detach` does; nothing where no context is attached.
    pub open spec fn detach_step(self) -> (Window, Seq<Effect>) {
        if self.context is Some {
            (Window { context: None, ..self }, seq![Effect::Detach(self.kind)])
        } else {
            (self, Seq::empty())
        }
    }

    /// What `show` does; nothing to a mapped window.
    pub open spec fn show_step(self) -> (Window, Seq<Effect>) {
        if self.mapped {
            (self, Seq::empty())
        } else {
            let mapped = Window { mapped: true, ..self };
            (
                mapped.attach_step().0,
                seq![Effect::CreateSurface(self.kind)] + mapped.attach_step().1,
            )
        }
    }

    /// What `dismiss` does; nothing to a hidden window.
    pub open spec fn dismiss_step(self) -> (Window, Seq<Effect>) {
        if self.mapped {
            (
                Window {
                    mapped: false,
                    surface: None,
                    context: None,
                    frame_pending: false,
                    ..self
                },
                self.detach_step().1 + seq![Effect::DestroySurface(self.kind)],
            )
        } else {
            (self, Seq::empty())
        }
    }

    /// What `request_frame` does; nothing to a hidden window or while a
    /// callback is pending.
    pub open spec fn request_frame_step(self) -> (Window, Seq<Effect>) {
        if self.mapped && !self.frame_pending {
            (Window { frame_pending: true, ..self }, seq![Effect::RequestFrame(self.kind)])
        } else {
            (self, Seq::empty())
        }
    }

    /// The request to render the window, the drawer at `offset`; nothing
    /// without a context.
    pub open spec fn draw_effects(self, offset: i64) -> Seq<Effect> {
        if self.context is None {
            Seq::empty()
        } else if self.kind == WindowKind::Panel {
            seq![Effect::DrawPanel]
        } else {
            seq![Effect::DrawDrawer(offset)]
        }
    }

    /// What `frame` does.
    pub open spec fn frame_step(self, offset: i64) -> (Window, Seq<Effect>) {
        (Window { frame_pending: false, ..self }, self.draw_effects(offset))
    }

    /// What `set_scale` does.
    pub open spec fn set_scale_step(self, factor: i32) -> (Window, Seq<Effect>) {
        let scaled = Window { scale_factor: factor, ..self };
        if self.context is Some {
            let rebuilt = scaled.detach_step().0.attach_step().0;
            (
                rebuilt.request_frame_step().0,
                scaled.detach_step().1 + scaled.detach_step().0.attach_step().1
                    + rebuilt.request_frame_step().1,
            )
        } else {
            (scaled, Seq::empty())
        }
    }

    /// What `reconfigure` does.
    pub open spec fn reconfigure_step(self, size: Size, offset: i64) -> (Window, Seq<Effect>) {
        let resized = Window { logical_size: size, ..self };
        if self.context is Some {
            let fitted = Window { context: Some(resized.pixel_size()), ..resized };
            (
                fitted,
                seq![Effect::Resize(self.kind, resized.pixel_size())] + fitted.draw_effects(
                    offset,
                ),
            )
        } else {
            (resized, Seq::empty())
        }
    }

    /// Computes `wf`.
    pub fn is_well_formed(&self) -> (well_formed: bool)
        ensures
            well_formed == self.wf(),
    {
        if self.mapped {
            let pixels = self.logical_size * self.scale_factor;
            match self.context {
                Some(size) => size.width == pixels.width && size.height == pixels.height,
                None => false,
            }
        } else {
            self.context.is_none() && self.surface.is_none() && !self.frame_pending
        }
    }

    /// Whether `surface` is this window's compositor surface.
    pub fn owns(&self, surface: u32) -> (owned: bool)
        ensures
            owned == (self.surface == Some(surface)),
    {
        match self.surface {
            Some(handle) => handle == surface,
            None => false,
        }
    }

    /// The largest drawer offset, in sub-units.
    pub fn max_offset_units(&self) -> (max: i64)
        ensures
            max == self.max_offset(),
    {
        self.logical_size.height as i64 * UNIT
    }
    /// Creates the render context, sized to the logical size times the
    /// scale factor. Not to be called while a context is attached.
    pub fn attach(&mut self, effects: &mut Vec<Effect>)
        requires
            old(self).context is None,
        ensures
            *final(self) == old(self).attach_step().0,
            final(effects)@ == old(effects)@ + old(self).attach_step().1,
    {
        let pixels = self.logical_size * self.scale_factor;
        self.context = Some(pixels);
        effects.push(Effect::Attach(self.kind, pixels));
    }

    /// Destroys the render context, if there is one.
    pub fn detach(&mut self, effects: &mut Vec<Effect>)
        ensures
            *final(self) == old(self).detach_step().0,
            final(effects)@ == old(effects)@ + old(self).detach_step().1,
    {
        if self.context.is_some() {
            self.context = None;
            effects.push(Effect::Detach(self.kind));
        }
    }

    /// Maps a hidden window and attaches its render context.
    pub fn show(&mut self, effects: &mut Vec<Effect>)
        requires
            old(self).wf(),
        ensures
            *final(self) == old(self).show_step().0,
            final(effects)@ == old(effects)@ + old(self).show_step().1,
            final(self).wf(),
    {
        if !self.mapped {
            self.mapped = true;
            effects.push(Effect::CreateSurface(self.kind));
            self.attach(effects);
        }
    }

    /// Detaches the render context of a mapped window and unmaps it.
    pub fn dismiss(&mut self, effects: &mut Vec<Effect>)
        ensures
            *final(self) == old(self).dismiss_step().0,
            final(effects)@ == old(effects)@ + old(self).dismiss_step().1,
            old(self).wf() ==> final(self).wf(),
    {
        if self.mapped {
            self.detach(effects);
            self.mapped = false;
            self.surface = None;
            self.frame_pending = false;
            effects.push(Effect::DestroySurface(self.kind));
        }
    }

    /// Asks for one frame callback; a second request before the callback
    /// arrives asks for nothing.
    pub fn request_frame(&mut self, effects: &mut Vec<Effect>)
        ensures
            *final(self) == old(self).request_frame_step().0,
            final(effects)@ == old(effects)@ + old(self).request_frame_step().1,
            old(self).wf() ==> final(self).wf(),
    {
        if self.mapped && !self.frame_pending {
            self.frame_pending = true;
            effects.push(Effect::RequestFrame(self.kind));
        }
    }

    /// Asks the caller to render the window, the drawer at `offset`.
    pub fn draw(&self, offset: i64, effects: &mut Vec<Effect>)
        ensures
            final(effects)@ == old(effects)@ + self.draw_effects(offset),
    {
        if self.context.is_some() {
            match self.kind {
                WindowKind::Panel => effects.push(Effect::DrawPanel),
                WindowKind::Drawer => effects.push(Effect::DrawDrawer(offset)),
            }
        }
    }

    /// The frame callback has arrived: the window renders, the drawer at
    /// `offset`.
    pub fn frame(&mut self, offset: i64, effects: &mut Vec<Effect>)
        ensures
            *final(self) == old(self).frame_step(offset).0,
            final(effects)@ == old(effects)@ + old(self).frame_step(offset).1,
            old(self).wf() ==> final(self).wf(),
    {
        self.draw(offset, effects);
        self.frame_pending = false;
    }

    /// Takes a new scale factor. An attached context is destroyed and
    /// created again at the new pixel size, and a frame is requested.
    pub fn set_scale(&mut self, factor: i32, effects: &mut Vec<Effect>)
        ensures
            *final(self) == old(self).set_scale_step(factor).0,
            final(effects)@ == old(effects)@ + old(self).set_scale_step(factor).1,
            old(self).wf() ==> final(self).wf(),
    {
        let attached = self.context.is_some();
        self.scale_factor = factor;
        if attached {
            self.detach(effects);
            self.attach(effects);
            self.request_frame(effects);
        }
    }

    /// Takes a new logical size. An attached context is resized and the
    /// window is rendered at once, the drawer at `offset`.
    pub fn reconfigure(&mut self, size: Size, offset: i64, effects: &mut Vec<Effect>)
        ensures
            *final(self) == old(self).reconfigure_step(size, offset).0,
            final(effects)@ == old(effects)@ + old(self).reconfigure_step(size, offset).1,
            old(self).wf() ==> final(self).wf(),
    {
        self.logical_size = size;
        if self.context.is_some() {
            let pixels = self.logical_size * self.scale_factor;
            self.context = Some(pixels);
            effects.push(Effect::Resize(self.kind, pixels));
            self.draw(offset, effects);
        }
    }
}

} // verus!
