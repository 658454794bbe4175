//! Raw input events and the logical controls they drive.

use vstd::prelude::*;

use crate::keys::KeyStatus;

verus! {

/// A physical key, as far as the game tells keys apart.
#[derive(Clone, Copy, Debug, PartialEq, Eq, Structural)]
pub enum Key {
    Up,
    Left,
    Right,
    Space,
    P,
    Q,
    Escape,
    /// Any key that drives no control.
    Other,
}

/// One of the six logical controls.
#[derive(Clone, Copy, Debug, PartialEq, Eq, Structural)]
pub enum Control {
    Thrust,
    Left,
    Right,
    Fire,
    Pause,
    Quit,
}

/// A discrete event taken from the input queue.
#[derive(Clone, Copy, Debug, PartialEq, Eq, Structural)]
pub enum InputEvent {
    /// A key went down; `repeat` marks an auto-repeat of a key already down.
    KeyDown { key: Key, repeat: bool },
    /// A key came up; `repeat` marks an auto-repeat.
    KeyUp { key: Key, repeat: bool },
    /// The window was asked to close.
    WindowClose,
    /// The application was asked to quit.
    Quit,
    /// Anything else the queue may yield.
    Other,
}

/// What an event does to the input state: the control it writes and the
/// status it writes there.
#[derive(Clone, Copy, Debug, PartialEq, Eq, Structural)]
pub struct Effect {
    pub control: Control,
    pub status: KeyStatus,
}

impl Key {
    /// The control that this key drives, if any. Two keys drive `Quit`.
    pub open spec fn control_of(self) -> Option<Control> {
        match self {
            Key::Up => Some(Control::Thrust),
            Key::Left => Some(Control::Left),
            Key::Right => Some(Control::Right),
            Key::Space => Some(Control::Fire),
            Key::P => Some(Control::Pause),
            Key::Q => Some(Control::Quit),
            Key::Escape => Some(Control::Quit),
            Key::Other => None,
        }
    }

    /// The control that this key drives, if any.
    pub fn control(&self) -> (r: Option<Control>)
        ensures
            r == self.control_of(),
    {
        match self {
            Key::Up => Some(Control::Thrust),
            Key::Left => Some(Control::Left),
            Key::Right => Some(Control::Right),
            Key::Space => Some(Control::Fire),
            Key::P => Some(Control::Pause),
            Key::Q => Some(Control::Quit),
            Key::Escape => Some(Control::Quit),
            Key::Other => None,
        }
    }
}

impl InputEvent {
    /// What the event does to the input state, or `None` where the event is
    /// ignored.
    ///
    /// Only edges that are no auto-repeat count, and only on a key that drives
    /// a control. A request to close the window or to quit the application
    /// counts as the quit control going down.
    pub open spec fn effect_of(self) -> Option<Effect> {
        match self {
            InputEvent::KeyDown { key, repeat } => match key.control_of() {
                Some(control) if !repeat => Some(Effect { control, status: KeyStatus::Down }),
                _ => None,
            },
            InputEvent::KeyUp { key, repeat } => match key.control_of() {
                Some(control) if !repeat => Some(Effect { control, status: KeyStatus::Up }),
                _ => None,
            },
            InputEvent::WindowClose => Some(
                Effect { control: Control::Quit, status: KeyStatus::Down },
            ),
            InputEvent::Quit => Some(Effect { control: Control::Quit, status: KeyStatus::Down }),
            InputEvent::Other => None,
        }
    }

    /// Whether the event writes the control `c`.
    pub open spec fn writes(self, c: Control) -> bool {
        match self.effect_of() {
            Some(effect) => effect.control == c,
            None => false,
        }
    }

    /// What the event does to the input state, or `None` where the event is
    /// ignored.
    pub fn effect(&self) -> (r: Option<Effect>)
        ensures
            r == self.effect_of(),
    {
        match self {
            InputEvent::KeyDown { key, repeat } => {
                if *repeat {
                    None
                } else {
                    match key.control() {
                        Some(control) => Some(Effect { control, status: KeyStatus::Down }),
                        None => None,
                    }
                }
            },
            InputEvent::KeyUp { key, repeat } => {
                if *repeat {
                    None
                } else {
                    match key.control() {
                        Some(control) => Some(Effect { control, status: KeyStatus::Up }),
                        None => None,
                    }
                }
            },
            InputEvent::WindowClose => Some(
                Effect { control: Control::Quit, status: KeyStatus::Down },
            ),
            InputEvent::Quit => Some(Effect { control: Control::Quit, status: KeyStatus::Down }),
            InputEvent::Other => None,
        }
    }
}

} // verus!
