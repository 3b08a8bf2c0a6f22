//! Platform-independent input: the event vocabulary the platform layer
//! produces, the logical game keys, and the per-tick input state the
//! simulation reads. The state is a plain record of held keys and
//! pointer data; the platform layer feeds events in, the simulation
//! only reads.
use vstd::prelude::*;
use crate::types::{Vec3, Vec3i};

verus! {

/// A physical key: its character value and scancode.
#[derive(Debug, Clone, Copy, PartialEq, Eq, Structural)]
pub struct Key {
    pub value: u8,
    pub scancode: i32,
}

#[derive(Debug, Clone, Copy, PartialEq, Eq, Structural)]
pub enum MouseButton {
    Unknown,
    Left,
    Right,
    Middle,
}

#[derive(Debug, Clone, Copy, PartialEq, Eq, Structural)]
pub enum MouseScroll {
    Up,
    Down,
}

/// A platform event, already translated to plain values.
#[derive(Debug, Clone, Copy, PartialEq, Eq, Structural)]
pub enum Event {
    Quit,
    Resize(Vec3i),
    Key { pressed: bool, key: Key },
    MouseButton { pressed: bool, button: MouseButton },
    MouseScroll(MouseScroll),
    MousePos { pos: Vec3i, delta: Vec3i },
}

/// The logical keys the game reads.
#[derive(Debug, Clone, Copy, PartialEq, Eq, Structural)]
pub enum InputKey {
    Unknown,
    Down,
    Right,
    Up,
    Left,
    Attack,
    ContextAction,
    Exit,
    Vehicle,
}

/// The logical key behind a physical key: WASD movement, the escape
/// scancode for exit, and the action letters.
pub fn platform_key_to_inputkey(key: Key) -> (r: InputKey)
    ensures
        key.scancode == 41 ==> r == InputKey::Exit,
        key.scancode != 41 ==> {
            &&& key.value == 97 ==> r == InputKey::Left
            &&& key.value == 100 ==> r == InputKey::Right
            &&& key.value == 119 ==> r == InputKey::Up
            &&& key.value == 115 ==> r == InputKey::Down
            &&& key.value == 101 ==> r == InputKey::ContextAction
            &&& key.value == 102 ==> r == InputKey::Attack
            &&& key.value == 118 ==> r == InputKey::Vehicle
        },
{
    if key.scancode == 41 {
        return InputKey::Exit;
    }
    if key.value == 97 {
        InputKey::Left
    } else if key.value == 100 {
        InputKey::Right
    } else if key.value == 119 {
        InputKey::Up
    } else if key.value == 115 {
        InputKey::Down
    } else if key.value == 101 {
        InputKey::ContextAction
    } else if key.value == 102 {
        InputKey::Attack
    } else if key.value == 118 {
        InputKey::Vehicle
    } else {
        InputKey::Unknown
    }
}

/// Held-key and pointer state for one tick.
#[derive(Debug, Clone, Copy, PartialEq, Eq, Structural)]
pub struct InputState {
    pub up: bool,
    pub down: bool,
    pub left: bool,
    pub right: bool,
    pub attack: bool,
    pub context_action: bool,
    pub exit: bool,
    pub vehicle: bool,
    pub exit_pressed: bool,
    pub left_button: bool,
    pub right_button: bool,
    pub mouse: Vec3i,
    pub mouse_delta: Vec3i,
    pub mouse_scroll: i32,
}

impl InputState {
    pub fn new() -> (r: InputState)
        ensures
            r == (InputState {
                up: false,
                down: false,
                left: false,
                right: false,
                attack: false,
                context_action: false,
                exit: false,
                vehicle: false,
                exit_pressed: false,
                left_button: false,
                right_button: false,
                mouse: Vec3i { x: 0, y: 0, z: 0 },
                mouse_delta: Vec3i { x: 0, y: 0, z: 0 },
                mouse_scroll: 0,
            }),
    {
        InputState {
            up: false,
            down: false,
            left: false,
            right: false,
            attack: false,
            context_action: false,
            exit: false,
            vehicle: false,
            exit_pressed: false,
            left_button: false,
            right_button: false,
            mouse: Vec3 { x: 0, y: 0, z: 0 },
            mouse_delta: Vec3 { x: 0, y: 0, z: 0 },
            mouse_scroll: 0,
        }
    }

    /// Clears the per-tick deltas, keeping the held state.
    pub fn step(&mut self)
        ensures
            *final(self) == (InputState {
                mouse_delta: Vec3i { x: 0, y: 0, z: 0 },
                mouse_scroll: 0,
                exit_pressed: false,
                ..*old(self)
            }),
    {
        self.mouse_delta = Vec3 { x: 0, y: 0, z: 0 };
        self.mouse_scroll = 0;
        self.exit_pressed = false;
    }

    /// Folds one platform event into the state.
    pub fn process_platform_event(&mut self, event: Event)
        requires
            -1_000_000_000 <= old(self).mouse_delta.x <= 1_000_000_000,
            -1_000_000_000 <= old(self).mouse_delta.y <= 1_000_000_000,
            -1_000_000_000 <= old(self).mouse_scroll <= 1_000_000_000,
        ensures
            event matches Event::Key { pressed, key } ==> {
                let k = if key.scancode == 41 {
                    InputKey::Exit
                } else if key.value == 97 {
                    InputKey::Left
                } else if key.value == 100 {
                    InputKey::Right
                } else if key.value == 119 {
                    InputKey::Up
                } else if key.value == 115 {
                    InputKey::Down
                } else {
                    InputKey::Unknown
                };
                &&& (k == InputKey::Up ==> final(self).up == pressed)
                &&& (k == InputKey::Down ==> final(self).down == pressed)
                &&& (k == InputKey::Left ==> final(self).left == pressed)
                &&& (k == InputKey::Right ==> final(self).right == pressed)
                &&& (k == InputKey::Exit && pressed ==> final(self).exit && final(self).exit_pressed)
            },
            event matches Event::MousePos { pos, delta } ==> final(self).mouse == pos,
            event is Quit || event is Resize ==> *final(self) == *old(self),
    {
        match event {
            Event::Key { pressed, key } => {
                let inputkey = platform_key_to_inputkey(key);
                match inputkey {
                    InputKey::Up => {
                        self.up = pressed;
                    },
                    InputKey::Down => {
                        self.down = pressed;
                    },
                    InputKey::Left => {
                        self.left = pressed;
                    },
                    InputKey::Right => {
                        self.right = pressed;
                    },
                    InputKey::Attack => {
                        self.attack = pressed;
                    },
                    InputKey::ContextAction => {
                        self.context_action = pressed;
                    },
                    InputKey::Exit => {
                        self.exit = pressed;
                        if pressed {
                            self.exit_pressed = true;
                        }
                    },
                    InputKey::Vehicle => {
                        self.vehicle = pressed;
                    },
                    InputKey::Unknown => {},
                }
            },
            Event::MouseButton { pressed, button } => {
                match button {
                    MouseButton::Left => {
                        self.left_button = pressed;
                    },
                    MouseButton::Right => {
                        self.right_button = pressed;
                    },
                    _ => {},
                }
            },
            Event::MouseScroll(scroll) => {
                match scroll {
                    MouseScroll::Up => {
                        if self.mouse_scroll < 1_000_000_000 {
                            self.mouse_scroll = self.mouse_scroll + 1;
                        }
                    },
                    MouseScroll::Down => {
                        if self.mouse_scroll > -1_000_000_000 {
                            self.mouse_scroll = self.mouse_scroll - 1;
                        }
                    },
                }
            },
            Event::MousePos { pos, delta } => {
                self.mouse = pos;
                let dx = if -1_000_000 <= delta.x && delta.x <= 1_000_000 {
                    delta.x
                } else {
                    0
                };
                let dy = if -1_000_000 <= delta.y && delta.y <= 1_000_000 {
                    delta.y
                } else {
                    0
                };
                if -1_000_000_000 <= self.mouse_delta.x + dx
                    && self.mouse_delta.x + dx <= 1_000_000_000 && -1_000_000_000
                    <= self.mouse_delta.y + dy && self.mouse_delta.y + dy <= 1_000_000_000 {
                    self.mouse_delta = Vec3 {
                        x: self.mouse_delta.x + dx,
                        y: self.mouse_delta.y + dy,
                        z: 0,
                    };
                }
            },
            _ => {},
        }
    }
}

} // verus!
