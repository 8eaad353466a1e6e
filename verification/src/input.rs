//! Keyboard input and the camera controller it drives.

use vstd::prelude::*;

verus! {

/// A physical key, as far as the renderer tells keys apart.
#[derive(Clone, Copy, Debug, PartialEq, Eq, Structural)]
pub enum KeyCode {
    KeyW,
    KeyA,
    KeyS,
    KeyD,
    ArrowUp,
    ArrowLeft,
    ArrowDown,
    ArrowRight,
    KeyR,
    Escape,
    Space,
    /// Any key the renderer has no use for.
    Other,
}

/// A window event, reduced to what the renderer reads from it.
///
/// A keyboard event whose physical key the platform could not identify is
/// `Other`, as is every event that is not listed here.
#[derive(Clone, Copy, Debug, PartialEq, Eq, Structural)]
pub enum WindowEvent {
    CloseRequested,
    Resized { width: u32, height: u32 },
    RedrawRequested,
    KeyboardInput { code: KeyCode, pressed: bool },
    Other,
}

/// One of the four ways the camera can be moved.
#[derive(Clone, Copy, Debug, PartialEq, Eq, Structural)]
pub enum Direction {
    Forward,
    Backward,
    Left,
    Right,
}

/// The direction a key is bound to, if it is a movement key.
pub open spec fn binding(code: KeyCode) -> Option<Direction> {
    match code {
        KeyCode::KeyW | KeyCode::ArrowUp => Some(Direction::Forward),
        KeyCode::KeyA | KeyCode::ArrowLeft => Some(Direction::Left),
        KeyCode::KeyS | KeyCode::ArrowDown => Some(Direction::Backward),
        KeyCode::KeyD | KeyCode::ArrowRight => Some(Direction::Right),
        _ => None,
    }
}

/// Yaw of a freshly made or reset controller, in degrees: the camera looks
/// along the negative z axis.
pub const DEFAULT_YAW: i32 = -90;

/// Pitch of a freshly made or reset controller, in degrees.
pub const DEFAULT_PITCH: i32 = 0;

/// Which movement keys are held down, and where the camera looks.
///
/// Yaw and pitch are whole degrees. The distance moved per frame is not part
/// of this state: it belongs to whoever turns the flags into motion.
#[derive(Clone, Copy, Debug, PartialEq, Eq, Structural)]
pub struct CameraController {
    pub is_forward_pressed: bool,
    pub is_backward_pressed: bool,
    pub is_left_pressed: bool,
    pub is_right_pressed: bool,
    /// Horizontal rotation, in degrees.
    pub yaw: i32,
    /// Vertical rotation, in degrees.
    pub pitch: i32,
}

impl CameraController {
    /// The controller before any input: no key held, default orientation.
    pub open spec fn initial() -> Self {
        CameraController {
            is_forward_pressed: false,
            is_backward_pressed: false,
            is_left_pressed: false,
            is_right_pressed: false,
            yaw: DEFAULT_YAW,
            pitch: DEFAULT_PITCH,
        }
    }

    /// Whether the key for `direction` is held down.
    pub open spec fn pressed(self, direction: Direction) -> bool {
        match direction {
            Direction::Forward => self.is_forward_pressed,
            Direction::Backward => self.is_backward_pressed,
            Direction::Left => self.is_left_pressed,
            Direction::Right => self.is_right_pressed,
        }
    }

    /// This controller with the flag for `direction` set to `pressed`.
    pub open spec fn with_pressed(self, direction: Direction, pressed: bool) -> Self {
        match direction {
            Direction::Forward => CameraController { is_forward_pressed: pressed, ..self },
            Direction::Backward => CameraController { is_backward_pressed: pressed, ..self },
            Direction::Left => CameraController { is_left_pressed: pressed, ..self },
            Direction::Right => CameraController { is_right_pressed: pressed, ..self },
        }
    }

    /// This controller looking the default way again; the flags stay.
    pub open spec fn with_default_orientation(self) -> Self {
        CameraController { yaw: DEFAULT_YAW, pitch: DEFAULT_PITCH, ..self }
    }

    /// Whether the controller consumes `event`: a key event for a movement
    /// key or for the reset key, pressed or released.
    pub open spec fn handles(event: WindowEvent) -> bool {
        event matches WindowEvent::KeyboardInput { code, .. } && (binding(code) is Some || code
            == KeyCode::KeyR)
    }

    /// The controller after `event`.
    ///
    /// A movement key sets its flag to whether it is now down. Pressing the
    /// reset key restores the default orientation. Nothing else changes it.
    pub open spec fn after(self, event: WindowEvent) -> Self {
        match event {
            WindowEvent::KeyboardInput { code, pressed } => match binding(code) {
                Some(direction) => self.with_pressed(direction, pressed),
                None => if code == KeyCode::KeyR && pressed {
                    self.with_default_orientation()
                } else {
                    self
                },
            },
            _ => self,
        }
    }

    /// An event that the controller does not consume leaves it as it was.
    pub proof fn lemma_unhandled_event_changes_nothing(self, event: WindowEvent)
        requires
            !Self::handles(event),
        ensures
            self.after(event) == self,
    {
    }

    /// Seeing an event a second time changes nothing: the flags say which
    /// keys are down, not how often they went down.
    pub proof fn lemma_repeated_event_changes_nothing(self, event: WindowEvent)
        ensures
            self.after(event).after(event) == self.after(event),
    {
    }

    /// A movement key sets the flag of its own direction and leaves the
    /// other flags and the orientation alone.
    pub proof fn lemma_movement_key_sets_its_flag(
        self,
        code: KeyCode,
        pressed: bool,
        direction: Direction,
    )
        requires
            binding(code) == Some(direction),
        ensures
            ({
                let next = self.after(WindowEvent::KeyboardInput { code, pressed });
                &&& next.pressed(direction) == pressed
                &&& forall|other: Direction|
                    other != direction ==> next.pressed(other) == self.pressed(other)
                &&& next.yaw == self.yaw
                &&& next.pitch == self.pitch
            }),
    {
    }

    /// A controller with no key held and the default orientation.
    pub fn new() -> (controller: Self)
        ensures
            controller == Self::initial(),
    {
        CameraController {
            is_forward_pressed: false,
            is_backward_pressed: false,
            is_left_pressed: false,
            is_right_pressed: false,
            yaw: DEFAULT_YAW,
            pitch: DEFAULT_PITCH,
        }
    }

    /// Feeds one window event to the controller and says whether the
    /// controller consumed it.
    pub fn process_events(&mut self, event: &WindowEvent) -> (handled: bool)
        ensures
            handled == Self::handles(*event),
            *final(self) == old(self).after(*event),
    {
        match event {
            WindowEvent::KeyboardInput { code, pressed } => {
                let is_pressed: bool = *pressed;
                match code {
                    KeyCode::KeyW | KeyCode::ArrowUp => {
                        self.is_forward_pressed = is_pressed;
                        true
                    },
                    KeyCode::KeyA | KeyCode::ArrowLeft => {
                        self.is_left_pressed = is_pressed;
                        true
                    },
                    KeyCode::KeyS | KeyCode::ArrowDown => {
                        self.is_backward_pressed = is_pressed;
                        true
                    },
                    KeyCode::KeyD | KeyCode::ArrowRight => {
                        self.is_right_pressed = is_pressed;
                        true
                    },
                    KeyCode::KeyR => {
                        if is_pressed {
                            self.reset_orientation();
                        }
                        true
                    },
                    _ => false,
                }
            },
            _ => false,
        }
    }

    /// Points the camera the default way again. The movement flags stay.
    pub fn reset_orientation(&mut self)
        ensures
            *final(self) == old(self).with_default_orientation(),
    {
        self.yaw = DEFAULT_YAW;
        self.pitch = DEFAULT_PITCH;
    }
}

} // verus!
