//! Keyboard input for the engine: which engine key a host key press stands
//! for, and the queue of key events that the engine drains once per tick.

use vstd::prelude::*;
use std::collections::VecDeque;

verus! {

/// A key getting pressed or released, as the engine reads it.
#[derive(Clone, Copy, Debug, PartialEq, Eq, Structural)]
pub struct KeyData {
    pub pressed: bool,
    pub key: u8,
}

/// The engine's current key bindings for the actions that a host key maps to
/// by name rather than by code.
#[derive(Clone, Copy, Debug, PartialEq, Eq, Structural)]
pub struct KeyBindings {
    pub key_right: u8,
    pub key_left: u8,
    pub key_up: u8,
    pub key_down: u8,
    pub key_strafeleft: u8,
    pub key_straferight: u8,
    pub key_fire: u8,
    pub key_use: u8,
    pub key_strafe: u8,
    pub key_speed: u8,
}

/// Host keycodes (SDL numbering) of the keys that map to a binding.
pub const KEYCODE_SPACE: u32 = 0x20;

pub const KEYCODE_COMMA: u32 = 0x2C;

pub const KEYCODE_PERIOD: u32 = 0x2E;

pub const KEYCODE_RIGHT: u32 = 0x4000_004F;

pub const KEYCODE_LEFT: u32 = 0x4000_0050;

pub const KEYCODE_DOWN: u32 = 0x4000_0051;

pub const KEYCODE_UP: u32 = 0x4000_0052;

pub const KEYCODE_LSHIFT: u32 = 0x4000_00E1;

pub const KEYCODE_LALT: u32 = 0x4000_00E2;

pub const KEYCODE_RCTRL: u32 = 0x4000_00E4;

pub const KEYCODE_RSHIFT: u32 = 0x4000_00E5;

pub const KEYCODE_RALT: u32 = 0x4000_00E6;

/// A button of the host's input devices: a keyboard key by its keycode, or
/// any button of another device.
#[derive(Clone, Copy, Debug, PartialEq, Eq, Structural)]
pub enum HostButton {
    Keyboard(u32),
    Other,
}

/// The engine key for a host keycode: the bound action for the arrows,
/// comma, period, right control, space, the alt keys and the shift keys;
/// otherwise the keycode's low byte, which the engine reads as is.
pub open spec fn doom_key(code: u32, b: KeyBindings) -> u8 {
    if code == KEYCODE_RIGHT {
        b.key_right
    } else if code == KEYCODE_LEFT {
        b.key_left
    } else if code == KEYCODE_UP {
        b.key_up
    } else if code == KEYCODE_DOWN {
        b.key_down
    } else if code == KEYCODE_COMMA {
        b.key_strafeleft
    } else if code == KEYCODE_PERIOD {
        b.key_straferight
    } else if code == KEYCODE_RCTRL {
        b.key_fire
    } else if code == KEYCODE_SPACE {
        b.key_use
    } else if code == KEYCODE_LALT || code == KEYCODE_RALT {
        b.key_strafe
    } else if code == KEYCODE_LSHIFT || code == KEYCODE_RSHIFT {
        b.key_speed
    } else {
        (code % 256) as u8
    }
}

/// The engine key for a host button: keyboard keys only.
pub open spec fn button_key(button: HostButton, b: KeyBindings) -> Option<u8> {
    match button {
        HostButton::Keyboard(code) => Some(doom_key(code, b)),
        HostButton::Other => None,
    }
}

/// Maps a host button to the engine key it stands for, if any.
pub fn button_to_doom_key(button: HostButton, bindings: &KeyBindings) -> (r: Option<u8>)
    ensures
        r == button_key(button, *bindings),
{
    match button {
        HostButton::Keyboard(code) => {
            let key = if code == KEYCODE_RIGHT {
                bindings.key_right
            } else if code == KEYCODE_LEFT {
                bindings.key_left
            } else if code == KEYCODE_UP {
                bindings.key_up
            } else if code == KEYCODE_DOWN {
                bindings.key_down
            } else if code == KEYCODE_COMMA {
                bindings.key_strafeleft
            } else if code == KEYCODE_PERIOD {
                bindings.key_straferight
            } else if code == KEYCODE_RCTRL {
                bindings.key_fire
            } else if code == KEYCODE_SPACE {
                bindings.key_use
            } else if code == KEYCODE_LALT || code == KEYCODE_RALT {
                bindings.key_strafe
            } else if code == KEYCODE_LSHIFT || code == KEYCODE_RSHIFT {
                bindings.key_speed
            } else {
                (code % 256) as u8
            };
            Some(key)
        },
        HostButton::Other => None,
    }
}

/// An event of the host's event loop, as far as a frame cares.
#[derive(Clone, Copy, Debug, PartialEq, Eq, Structural)]
pub enum HostEvent {
    Press(HostButton),
    Release(HostButton),
    Render,
    Update,
    Other,
}

/// What the event loop does after an event.
#[derive(Clone, Copy, Debug, PartialEq, Eq, Structural)]
pub enum FrameStep {
    /// Wait for the next event.
    Continue,
    /// Draw the engine's screen buffer, then wait for the next event.
    Draw,
    /// The frame is over: hand control back to the engine.
    Finish,
}

/// The step that follows an event.
pub open spec fn step_after(event: HostEvent) -> FrameStep {
    match event {
        HostEvent::Render => FrameStep::Draw,
        HostEvent::Update => FrameStep::Finish,
        _ => FrameStep::Continue,
    }
}

/// The key event that an event queues, if any: presses and releases of
/// buttons that map to an engine key.
pub open spec fn queued_by(event: HostEvent, b: KeyBindings) -> Option<KeyData> {
    match event {
        HostEvent::Press(button) => match button_key(button, b) {
            Some(key) => Some(KeyData { pressed: true, key }),
            None => None,
        },
        HostEvent::Release(button) => match button_key(button, b) {
            Some(key) => Some(KeyData { pressed: false, key }),
            None => None,
        },
        _ => None,
    }
}

/// Key events waiting for the engine, oldest first.
pub struct InputQueue {
    keys: VecDeque<KeyData>,
}

impl View for InputQueue {
    type V = Seq<KeyData>;

    closed spec fn view(&self) -> Seq<KeyData> {
        self.keys@
    }
}

impl InputQueue {
    /// An empty queue.
    pub fn new() -> (r: InputQueue)
        ensures
            r@ == Seq::<KeyData>::empty(),
    {
        InputQueue { keys: VecDeque::new() }
    }

    /// Appends a key event at the back.
    pub fn push_key(&mut self, key: KeyData)
        ensures
            final(self)@ == old(self)@.push(key),
    {
        self.keys.push_back(key);
    }

    /// Takes the oldest key event, if any.
    pub fn get_key(&mut self) -> (r: Option<KeyData>)
        ensures
            old(self)@.len() == 0 ==> r is None && final(self)@ == old(self)@,
            old(self)@.len() > 0 ==> r == Some(old(self)@[0]) && final(self)@ == old(self)@.drop_first(),
    {
        self.keys.pop_front()
    }

    /// Handles one event of the host's loop: key presses and releases that
    /// map to an engine key are queued, and the step that follows is
    /// returned.
    pub fn handle_event(&mut self, event: HostEvent, bindings: &KeyBindings) -> (r: FrameStep)
        ensures
            r == step_after(event),
            final(self)@ == match queued_by(event, *bindings) {
                Some(k) => old(self)@.push(k),
                None => old(self)@,
            },
    {
        match event {
            HostEvent::Press(button) => {
                if let Some(key) = button_to_doom_key(button, bindings) {
                    self.push_key(KeyData { pressed: true, key });
                }
                FrameStep::Continue
            },
            HostEvent::Release(button) => {
                if let Some(key) = button_to_doom_key(button, bindings) {
                    self.push_key(KeyData { pressed: false, key });
                }
                FrameStep::Continue
            },
            HostEvent::Render => FrameStep::Draw,
            HostEvent::Update => FrameStep::Finish,
            HostEvent::Other => FrameStep::Continue,
        }
    }
}

} // verus!
