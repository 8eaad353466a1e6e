//! The renderer's state machine: what each window event changes and what it
//! asks the surrounding program to do.

use vstd::prelude::*;
use crate::input::{CameraController, KeyCode, WindowEvent};

verus! {

/// The largest width or height the surface is ever configured with.
pub const MAX_DIMENSION: u32 = 800;

/// Why presenting a frame failed.
#[derive(Clone, Copy, Debug, PartialEq, Eq, Structural)]
pub enum SurfaceError {
    Timeout,
    Outdated,
    Lost,
    OutOfMemory,
    Other,
}

/// What the program has to do in answer to an event.
#[derive(Clone, Copy, Debug, PartialEq, Eq, Structural)]
pub enum Command {
    /// Nothing at all.
    Nothing,
    /// Leave the event loop.
    Exit,
    /// Configure the surface, and everything sized like it, to this size.
    Configure { width: u32, height: u32 },
    /// Advance the simulation by one frame, then draw if `draw` is set.
    Redraw { draw: bool },
    /// Put the camera back where it started.
    ResetCamera,
    /// Push every body upwards.
    ApplyUpwardForce,
    /// Report that a frame could not be drawn.
    ReportRenderError,
}

/// A width or height cut down to `MAX_DIMENSION`.
pub open spec fn clamped(dimension: u32) -> u32 {
    if dimension <= MAX_DIMENSION {
        dimension
    } else {
        MAX_DIMENSION
    }
}

/// What a key asks for, beyond steering the camera: pressing escape leaves,
/// pressing the reset key resets the camera, pressing space pushes the
/// bodies. Releasing a key asks for nothing.
pub open spec fn key_command(code: KeyCode, is_pressed: bool) -> Command {
    if !is_pressed {
        Command::Nothing
    } else {
        match code {
            KeyCode::Escape => Command::Exit,
            KeyCode::KeyR => Command::ResetCamera,
            KeyCode::Space => Command::ApplyUpwardForce,
            _ => Command::Nothing,
        }
    }
}

/// Whether a failed frame is answered by configuring the surface anew.
pub open spec fn recoverable(error: SurfaceError) -> bool {
    error == SurfaceError::Lost || error == SurfaceError::Outdated
}

/// Picks the format the surface is configured with, by its place in the
/// list of formats the surface offers: the first sRGB format, or the very
/// first format if none is sRGB. `is_srgb` says of each offered format
/// whether it is an sRGB format.
pub fn choose_surface_format(is_srgb: &[bool]) -> (chosen: usize)
    requires
        is_srgb@.len() > 0,
    ensures
        chosen < is_srgb@.len(),
        forall|i: int| 0 <= i < chosen ==> !is_srgb@[i],
        is_srgb@[chosen as int] || (chosen == 0 && forall|i: int|
            0 <= i < is_srgb@.len() ==> !is_srgb@[i]),
{
    let mut i: usize = 0;
    while i < is_srgb.len()
        invariant
            i <= is_srgb@.len(),
            forall|j: int| 0 <= j < i ==> !is_srgb@[j],
        decreases is_srgb@.len() - i,
    {
        if is_srgb[i] {
            return i;
        }
        i += 1;
    }
    0
}

/// The part of the renderer's state that decisions are made on.
#[derive(Clone, Copy, Debug, PartialEq, Eq, Structural)]
pub struct State {
    /// Width the surface is configured with.
    pub width: u32,
    /// Height the surface is configured with.
    pub height: u32,
    pub is_surface_configured: bool,
    pub camera_controller: CameraController,
}

impl State {
    /// The state right after start-up in a window of the given size.
    pub open spec fn initial(width: u32, height: u32) -> Self {
        State {
            width,
            height,
            is_surface_configured: true,
            camera_controller: CameraController::initial(),
        }
    }

    /// Whether a resize to this size is acted on.
    pub open spec fn accepts(width: u32, height: u32) -> bool {
        width > 0 && height > 0
    }

    /// The state after a resize to the given size: an empty size is ignored,
    /// any other is clamped and taken over.
    pub open spec fn resized(self, width: u32, height: u32) -> Self {
        if Self::accepts(width, height) {
            State {
                width: clamped(width),
                height: clamped(height),
                is_surface_configured: true,
                ..self
            }
        } else {
            self
        }
    }

    /// The command that answers a resize to the given size.
    pub open spec fn resize_command(width: u32, height: u32) -> Command {
        if Self::accepts(width, height) {
            Command::Configure { width: clamped(width), height: clamped(height) }
        } else {
            Command::Nothing
        }
    }

    /// The state after `event`.
    pub open spec fn after(self, event: WindowEvent) -> Self {
        match event {
            WindowEvent::Resized { width, height } => self.resized(width, height),
            WindowEvent::KeyboardInput { .. } => State {
                camera_controller: self.camera_controller.after(event),
                ..self
            },
            _ => self,
        }
    }

    /// The command that answers `event` in this state.
    pub open spec fn command(self, event: WindowEvent) -> Command {
        match event {
            WindowEvent::CloseRequested => Command::Exit,
            WindowEvent::Resized { width, height } => Self::resize_command(width, height),
            WindowEvent::RedrawRequested => Command::Redraw { draw: self.is_surface_configured },
            WindowEvent::KeyboardInput { code, pressed } => key_command(code, pressed),
            WindowEvent::Other => Command::Nothing,
        }
    }

    /// The state after a frame failed with `error` in a window of the given
    /// size.
    pub open spec fn after_failure(self, error: SurfaceError, width: u32, height: u32) -> Self {
        if recoverable(error) {
            self.resized(width, height)
        } else {
            self
        }
    }

    /// The command that answers a frame that failed with `error` in a window
    /// of the given size.
    pub open spec fn failure_command(error: SurfaceError, width: u32, height: u32) -> Command {
        if recoverable(error) {
            Self::resize_command(width, height)
        } else {
            Command::ReportRenderError
        }
    }

    /// Whether the surface has a size that a resize can have given it:
    /// neither empty nor over `MAX_DIMENSION` in either direction.
    pub open spec fn is_bounded(self) -> bool {
        &&& 0 < self.width <= MAX_DIMENSION
        &&& 0 < self.height <= MAX_DIMENSION
    }

    /// A resize that is acted on leaves a bounded, configured surface.
    pub proof fn lemma_accepted_resize_bounds_the_surface(self, width: u32, height: u32)
        requires
            Self::accepts(width, height),
        ensures
            self.resized(width, height).is_bounded(),
            self.resized(width, height).is_surface_configured,
    {
    }

    /// No event and no failed frame takes a bounded surface out of bounds,
    /// and none makes a configured surface unconfigured.
    pub proof fn lemma_bounds_are_kept(
        self,
        event: WindowEvent,
        error: SurfaceError,
        width: u32,
        height: u32,
    )
        ensures
            self.is_bounded() ==> self.after(event).is_bounded(),
            self.is_bounded() ==> self.after_failure(error, width, height).is_bounded(),
            self.is_surface_configured ==> self.after(event).is_surface_configured,
            self.is_surface_configured ==> self.after_failure(
                error,
                width,
                height,
            ).is_surface_configured,
    {
    }

    /// A command to configure the surface always names the size the state
    /// then holds.
    pub proof fn lemma_configure_names_the_held_size(self, event: WindowEvent)
        ensures
            self.command(event) matches Command::Configure { width, height } ==> {
                &&& self.after(event).width == width
                &&& self.after(event).height == height
                &&& self.after(event).is_bounded()
            },
    {
    }

    /// The state at start-up: the surface is configured with the window's
    /// size as it is, and the camera controller is fresh.
    pub fn new(width: u32, height: u32) -> (state: Self)
        ensures
            state == Self::initial(width, height),
    {
        State {
            width,
            height,
            is_surface_configured: true,
            camera_controller: CameraController::new(),
        }
    }

    /// Says what a key asks for, beyond steering the camera.
    pub fn handle_key(&self, code: KeyCode, is_pressed: bool) -> (command: Command)
        ensures
            command == key_command(code, is_pressed),
    {
        match (code, is_pressed) {
            (KeyCode::Escape, true) => Command::Exit,
            (KeyCode::KeyR, true) => Command::ResetCamera,
            (KeyCode::Space, true) => Command::ApplyUpwardForce,
            _ => Command::Nothing,
        }
    }

    /// Hands an event to the camera controller and says whether it was
    /// consumed.
    pub fn input(&mut self, event: &WindowEvent) -> (handled: bool)
        ensures
            handled == CameraController::handles(*event),
            *final(self) == (State {
                camera_controller: old(self).camera_controller.after(*event),
                ..*old(self)
            }),
    {
        self.camera_controller.process_events(event)
    }

    /// Takes over a new window size.
    ///
    /// Both dimensions are cut down to `MAX_DIMENSION`. If neither is zero
    /// the state takes them over and the size to configure the surface with
    /// is returned; otherwise nothing changes.
    pub fn resize(&mut self, width: u32, height: u32) -> (configured: Option<(u32, u32)>)
        ensures
            *final(self) == old(self).resized(width, height),
            Self::accepts(width, height) ==> configured == Some((clamped(width), clamped(height))),
            !Self::accepts(width, height) ==> configured.is_none(),
            configured matches Some((w, h)) ==> {
                &&& 0 < w <= MAX_DIMENSION
                &&& 0 < h <= MAX_DIMENSION
                &&& final(self).width == w
                &&& final(self).height == h
                &&& final(self).is_surface_configured
            },
    {
        let max_dim: u32 = MAX_DIMENSION;
        let width: u32 = if width < max_dim { width } else { max_dim };
        let height: u32 = if height < max_dim { height } else { max_dim };

        if width > 0 && height > 0 {
            self.width = width;
            self.height = height;
            self.is_surface_configured = true;
            Some((width, height))
        } else {
            None
        }
    }

    /// Takes one window event and says what the program has to do about it.
    pub fn window_event(&mut self, event: &WindowEvent) -> (command: Command)
        ensures
            *final(self) == old(self).after(*event),
            command == old(self).command(*event),
            old(self).is_surface_configured ==> final(self).is_surface_configured,
    {
        match event {
            WindowEvent::CloseRequested => Command::Exit,
            WindowEvent::Resized { width, height } => {
                match self.resize(*width, *height) {
                    Some((width, height)) => Command::Configure { width, height },
                    None => Command::Nothing,
                }
            },
            WindowEvent::RedrawRequested => Command::Redraw { draw: self.is_surface_configured },
            WindowEvent::KeyboardInput { code, pressed } => {
                self.input(event);
                self.handle_key(*code, *pressed)
            },
            _ => Command::Nothing,
        }
    }

    /// Takes the failure of a frame and says what the program has to do
    /// about it: a lost or outdated surface is configured anew with the
    /// window's size, any other failure is reported.
    pub fn render_failed(&mut self, error: SurfaceError, width: u32, height: u32) -> (command:
        Command)
        ensures
            *final(self) == old(self).after_failure(error, width, height),
            command == Self::failure_command(error, width, height),
    {
        match error {
            SurfaceError::Lost | SurfaceError::Outdated => {
                match self.resize(width, height) {
                    Some((width, height)) => Command::Configure { width, height },
                    None => Command::Nothing,
                }
            },
            _ => Command::ReportRenderError,
        }
    }
}

} // verus!
