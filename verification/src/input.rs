//! Edge-triggered input state derived from raw per-frame samples.

use vstd::prelude::*;

verus! {

/// The transition a key or button made this frame, derived from the raw
/// "currently down" sample: `pressed` and `released` are each true for
/// exactly one frame per physical transition, `held` is the sticky
/// "currently down" bit.
#[derive(Clone, Copy, PartialEq, Eq, Structural, Debug)]
pub struct ButtonState {
    pub pressed: bool,
    pub released: bool,
    pub held: bool,
}

/// The state of an identity that was never sampled: no transition, not
/// held.
pub open spec fn empty_state() -> ButtonState {
    ButtonState { pressed: false, released: false, held: false }
}

/// One step of the per-identity state machine, run once per frame on that
/// frame's raw sample.  Because `held` always equals the previous frame's
/// raw sample, a sample equal to `held` is no transition; a rising edge
/// sets `pressed` for this frame only and a falling edge sets `released`
/// for this frame only.
pub open spec fn next_state(prev: ButtonState, down: bool) -> ButtonState {
    if down == prev.held {
        ButtonState { pressed: false, released: false, held: prev.held }
    } else if down {
        ButtonState { pressed: true, released: false, held: true }
    } else {
        ButtonState { pressed: false, released: true, held: false }
    }
}

/// The state reached from the empty state after the raw samples in
/// `samples`, oldest first.
pub open spec fn state_after(samples: Seq<bool>) -> ButtonState
    decreases samples.len(),
{
    if samples.len() == 0 {
        empty_state()
    } else {
        next_state(state_after(samples.drop_last()), samples.last())
    }
}

/// Across any sequence of raw samples, `pressed` and `released` are never
/// both true in the same frame: no single step of the state machine can
/// report a rising and a falling edge at once.
pub proof fn lemma_pressed_released_exclusive(samples: Seq<bool>)
    ensures
        !(state_after(samples).pressed && state_after(samples).released),
    decreases samples.len(),
{
    if samples.len() > 0 {
        lemma_pressed_released_exclusive(samples.drop_last());
    }
}

impl ButtonState {
    /// The state of an identity that was never sampled.
    pub fn empty() -> (r: ButtonState)
        ensures
            r == empty_state(),
    {
        ButtonState { pressed: false, released: false, held: false }
    }

    /// Runs one frame of the state machine on this frame's raw sample.
    pub fn step(&self, down: bool) -> (r: ButtonState)
        ensures
            r == next_state(*self, down),
    {
        if down == self.held {
            ButtonState { pressed: false, released: false, held: self.held }
        } else if down {
            ButtonState { pressed: true, released: false, held: true }
        } else {
            ButtonState { pressed: false, released: true, held: false }
        }
    }
}

/// The abstract keyboard identities the engine tracks, decoupled from any
/// display backend's own key enumeration.
#[derive(Clone, Copy, PartialEq, Eq, Structural, Debug)]
pub enum KeyboardKey {
    Key0,
    Key1,
    Key2,
    Key3,
    Key4,
    Key5,
    Key6,
    Key7,
    Key8,
    Key9,
    A,
    B,
    C,
    D,
    E,
    F,
    G,
    H,
    I,
    J,
    K,
    L,
    M,
    N,
    O,
    P,
    Q,
    R,
    S,
    T,
    U,
    V,
    W,
    X,
    Y,
    Z,
    F1,
    F2,
    F3,
    F4,
    F5,
    F6,
    F7,
    F8,
    F9,
    F10,
    F11,
    F12,
    F13,
    F14,
    F15,
    Down,
    Left,
    Right,
    Up,
    Backspace,
    Enter,
    Escape,
    Space,
    Tab,
    Insert,
    Delete,
    Home,
    End,
    PageUp,
    PageDown,
    LeftShift,
    RightShift,
    LeftCtrl,
    RightCtrl,
    LeftAlt,
    RightAlt,
}

/// The abstract mouse-button identities the engine tracks.
#[derive(Clone, Copy, PartialEq, Eq, Structural, Debug)]
pub enum MouseButton {
    Left,
    Middle,
    Right,
}

/// The number of tracked keyboard identities.
pub const KEY_COUNT: usize = 72;

/// The fixed slot of each keyboard identity in the engine's state table.
pub open spec fn spec_key_index(key: KeyboardKey) -> int {
    match key {
        KeyboardKey::Key0 => 0,
        KeyboardKey::Key1 => 1,
        KeyboardKey::Key2 => 2,
        KeyboardKey::Key3 => 3,
        KeyboardKey::Key4 => 4,
        KeyboardKey::Key5 => 5,
        KeyboardKey::Key6 => 6,
        KeyboardKey::Key7 => 7,
        KeyboardKey::Key8 => 8,
        KeyboardKey::Key9 => 9,
        KeyboardKey::A => 10,
        KeyboardKey::B => 11,
        KeyboardKey::C => 12,
        KeyboardKey::D => 13,
        KeyboardKey::E => 14,
        KeyboardKey::F => 15,
        KeyboardKey::G => 16,
        KeyboardKey::H => 17,
        KeyboardKey::I => 18,
        KeyboardKey::J => 19,
        KeyboardKey::K => 20,
        KeyboardKey::L => 21,
        KeyboardKey::M => 22,
        KeyboardKey::N => 23,
        KeyboardKey::O => 24,
        KeyboardKey::P => 25,
        KeyboardKey::Q => 26,
        KeyboardKey::R => 27,
        KeyboardKey::S => 28,
        KeyboardKey::T => 29,
        KeyboardKey::U => 30,
        KeyboardKey::V => 31,
        KeyboardKey::W => 32,
        KeyboardKey::X => 33,
        KeyboardKey::Y => 34,
        KeyboardKey::Z => 35,
        KeyboardKey::F1 => 36,
        KeyboardKey::F2 => 37,
        KeyboardKey::F3 => 38,
        KeyboardKey::F4 => 39,
        KeyboardKey::F5 => 40,
        KeyboardKey::F6 => 41,
        KeyboardKey::F7 => 42,
        KeyboardKey::F8 => 43,
        KeyboardKey::F9 => 44,
        KeyboardKey::F10 => 45,
        KeyboardKey::F11 => 46,
        KeyboardKey::F12 => 47,
        KeyboardKey::F13 => 48,
        KeyboardKey::F14 => 49,
        KeyboardKey::F15 => 50,
        KeyboardKey::Down => 51,
        KeyboardKey::Left => 52,
        KeyboardKey::Right => 53,
        KeyboardKey::Up => 54,
        KeyboardKey::Backspace => 55,
        KeyboardKey::Enter => 56,
        KeyboardKey::Escape => 57,
        KeyboardKey::Space => 58,
        KeyboardKey::Tab => 59,
        KeyboardKey::Insert => 60,
        KeyboardKey::Delete => 61,
        KeyboardKey::Home => 62,
        KeyboardKey::End => 63,
        KeyboardKey::PageUp => 64,
        KeyboardKey::PageDown => 65,
        KeyboardKey::LeftShift => 66,
        KeyboardKey::RightShift => 67,
        KeyboardKey::LeftCtrl => 68,
        KeyboardKey::RightCtrl => 69,
        KeyboardKey::LeftAlt => 70,
        KeyboardKey::RightAlt => 71,
    }
}

/// The fixed slot of each keyboard identity in the engine's state table,
/// always below `KEY_COUNT`.
pub fn key_index(key: KeyboardKey) -> (r: usize)
    ensures
        r == spec_key_index(key),
        r < KEY_COUNT,
{
    match key {
        KeyboardKey::Key0 => 0,
        KeyboardKey::Key1 => 1,
        KeyboardKey::Key2 => 2,
        KeyboardKey::Key3 => 3,
        KeyboardKey::Key4 => 4,
        KeyboardKey::Key5 => 5,
        KeyboardKey::Key6 => 6,
        KeyboardKey::Key7 => 7,
        KeyboardKey::Key8 => 8,
        KeyboardKey::Key9 => 9,
        KeyboardKey::A => 10,
        KeyboardKey::B => 11,
        KeyboardKey::C => 12,
        KeyboardKey::D => 13,
        KeyboardKey::E => 14,
        KeyboardKey::F => 15,
        KeyboardKey::G => 16,
        KeyboardKey::H => 17,
        KeyboardKey::I => 18,
        KeyboardKey::J => 19,
        KeyboardKey::K => 20,
        KeyboardKey::L => 21,
        KeyboardKey::M => 22,
        KeyboardKey::N => 23,
        KeyboardKey::O => 24,
        KeyboardKey::P => 25,
        KeyboardKey::Q => 26,
        KeyboardKey::R => 27,
        KeyboardKey::S => 28,
        KeyboardKey::T => 29,
        KeyboardKey::U => 30,
        KeyboardKey::V => 31,
        KeyboardKey::W => 32,
        KeyboardKey::X => 33,
        KeyboardKey::Y => 34,
        KeyboardKey::Z => 35,
        KeyboardKey::F1 => 36,
        KeyboardKey::F2 => 37,
        KeyboardKey::F3 => 38,
        KeyboardKey::F4 => 39,
        KeyboardKey::F5 => 40,
        KeyboardKey::F6 => 41,
        KeyboardKey::F7 => 42,
        KeyboardKey::F8 => 43,
        KeyboardKey::F9 => 44,
        KeyboardKey::F10 => 45,
        KeyboardKey::F11 => 46,
        KeyboardKey::F12 => 47,
        KeyboardKey::F13 => 48,
        KeyboardKey::F14 => 49,
        KeyboardKey::F15 => 50,
        KeyboardKey::Down => 51,
        KeyboardKey::Left => 52,
        KeyboardKey::Right => 53,
        KeyboardKey::Up => 54,
        KeyboardKey::Backspace => 55,
        KeyboardKey::Enter => 56,
        KeyboardKey::Escape => 57,
        KeyboardKey::Space => 58,
        KeyboardKey::Tab => 59,
        KeyboardKey::Insert => 60,
        KeyboardKey::Delete => 61,
        KeyboardKey::Home => 62,
        KeyboardKey::End => 63,
        KeyboardKey::PageUp => 64,
        KeyboardKey::PageDown => 65,
        KeyboardKey::LeftShift => 66,
        KeyboardKey::RightShift => 67,
        KeyboardKey::LeftCtrl => 68,
        KeyboardKey::RightCtrl => 69,
        KeyboardKey::LeftAlt => 70,
        KeyboardKey::RightAlt => 71,
    }
}

} // verus!
