//! The keyboard: the 64-key matrix (eight rows by eight columns, indexed as
//! `row * 8 + col`) plus the Restore key, which sits outside the matrix on
//! the real machine. Host key events are staged here between cycles; the
//! system driver scans the matrix into CIA1's port B each cycle.

use vstd::prelude::*;
use vstd::pervasive::VecAdditionalExecFns;

verus! {

/// The keys of the machine, in matrix order: the discriminant of a matrix
/// key is `row * 8 + col`; Restore is the one key outside the matrix.
#[derive(Clone, Copy, Debug, PartialEq, Eq, Structural)]
pub enum Key {
    InsertDelete,
    N3,
    N5,
    N7,
    N9,
    Plus,
    Pound,
    N1,
    Return,
    W,
    R,
    Y,
    I,
    P,
    Asterisk,
    LeftArrow,
    CursorLeftRight,
    A,
    D,
    G,
    J,
    L,
    Semicolon,
    Control,
    F7,
    N4,
    N6,
    N8,
    N0,
    Minus,
    ClearHome,
    N2,
    F1,
    Z,
    C,
    B,
    M,
    Period,
    RightShift,
    Space,
    F3,
    S,
    F,
    H,
    K,
    Colon,
    Equal,
    Commodore,
    F5,
    E,
    T,
    U,
    O,
    At,
    UpArrow,
    Q,
    CursorUpDown,
    LeftShift,
    X,
    V,
    N,
    Comma,
    Slash,
    RunStop,
    Restore,
}

/// The matrix index of a key: `row * 8 + col` for matrix keys, 64 for
/// Restore.
pub open spec fn key_index(key: Key) -> int {
    match key {
        Key::InsertDelete => 0,
        Key::N3 => 1,
        Key::N5 => 2,
        Key::N7 => 3,
        Key::N9 => 4,
        Key::Plus => 5,
        Key::Pound => 6,
        Key::N1 => 7,
        Key::Return => 8,
        Key::W => 9,
        Key::R => 10,
        Key::Y => 11,
        Key::I => 12,
        Key::P => 13,
        Key::Asterisk => 14,
        Key::LeftArrow => 15,
        Key::CursorLeftRight => 16,
        Key::A => 17,
        Key::D => 18,
        Key::G => 19,
        Key::J => 20,
        Key::L => 21,
        Key::Semicolon => 22,
        Key::Control => 23,
        Key::F7 => 24,
        Key::N4 => 25,
        Key::N6 => 26,
        Key::N8 => 27,
        Key::N0 => 28,
        Key::Minus => 29,
        Key::ClearHome => 30,
        Key::N2 => 31,
        Key::F1 => 32,
        Key::Z => 33,
        Key::C => 34,
        Key::B => 35,
        Key::M => 36,
        Key::Period => 37,
        Key::RightShift => 38,
        Key::Space => 39,
        Key::F3 => 40,
        Key::S => 41,
        Key::F => 42,
        Key::H => 43,
        Key::K => 44,
        Key::Colon => 45,
        Key::Equal => 46,
        Key::Commodore => 47,
        Key::F5 => 48,
        Key::E => 49,
        Key::T => 50,
        Key::U => 51,
        Key::O => 52,
        Key::At => 53,
        Key::UpArrow => 54,
        Key::Q => 55,
        Key::CursorUpDown => 56,
        Key::LeftShift => 57,
        Key::X => 58,
        Key::V => 59,
        Key::N => 60,
        Key::Comma => 61,
        Key::Slash => 62,
        Key::RunStop => 63,
        Key::Restore => 64,
    }
}

/// Pressed state of every key; the matrix scan reads indices 0 to 63,
/// Restore sits at index 64.
pub struct Keyboard {
    /// One flag per key, indexed by [`key_index`].
    pub pressed: Vec<bool>,
}

impl Key {
    /// The matrix index of this key.
    pub fn index(&self) -> (r: usize)
        ensures
            r == key_index(*self),
            r < 65,
    {
        match *self {
            Key::InsertDelete => 0,
            Key::N3 => 1,
            Key::N5 => 2,
            Key::N7 => 3,
            Key::N9 => 4,
            Key::Plus => 5,
            Key::Pound => 6,
            Key::N1 => 7,
            Key::Return => 8,
            Key::W => 9,
            Key::R => 10,
            Key::Y => 11,
            Key::I => 12,
            Key::P => 13,
            Key::Asterisk => 14,
            Key::LeftArrow => 15,
            Key::CursorLeftRight => 16,
            Key::A => 17,
            Key::D => 18,
            Key::G => 19,
            Key::J => 20,
            Key::L => 21,
            Key::Semicolon => 22,
            Key::Control => 23,
            Key::F7 => 24,
            Key::N4 => 25,
            Key::N6 => 26,
            Key::N8 => 27,
            Key::N0 => 28,
            Key::Minus => 29,
            Key::ClearHome => 30,
            Key::N2 => 31,
            Key::F1 => 32,
            Key::Z => 33,
            Key::C => 34,
            Key::B => 35,
            Key::M => 36,
            Key::Period => 37,
            Key::RightShift => 38,
            Key::Space => 39,
            Key::F3 => 40,
            Key::S => 41,
            Key::F => 42,
            Key::H => 43,
            Key::K => 44,
            Key::Colon => 45,
            Key::Equal => 46,
            Key::Commodore => 47,
            Key::F5 => 48,
            Key::E => 49,
            Key::T => 50,
            Key::U => 51,
            Key::O => 52,
            Key::At => 53,
            Key::UpArrow => 54,
            Key::Q => 55,
            Key::CursorUpDown => 56,
            Key::LeftShift => 57,
            Key::X => 58,
            Key::V => 59,
            Key::N => 60,
            Key::Comma => 61,
            Key::Slash => 62,
            Key::RunStop => 63,
            Key::Restore => 64,
        }
    }
}

impl Keyboard {
    /// Well-formed: one flag per key.
    pub open spec fn wf(&self) -> bool {
        self.pressed@.len() == 65
    }

    /// A keyboard with no key held.
    pub fn new() -> (r: Keyboard)
        ensures
            r.wf(),
            forall|i: int| 0 <= i < 65 ==> !r.pressed@[i],
    {
        let mut pressed: Vec<bool> = Vec::new();
        while pressed.len() < 65
            invariant
                pressed@.len() <= 65,
                forall|i: int| 0 <= i < pressed@.len() ==> !pressed@[i],
            decreases 65 - pressed@.len(),
        {
            pressed.push(false);
        }
        Keyboard { pressed }
    }

    /// Records a host key event.
    pub fn change_key_state(&mut self, key: Key, pressed: bool)
        requires
            old(self).wf(),
        ensures
            final(self).wf(),
            final(self).pressed@ == old(self).pressed@.update(key_index(key), pressed),
    {
        let i = key.index();
        self.pressed.set(i, pressed);
    }

    /// The pressed state of every key.
    pub fn pressed(&self) -> (r: &Vec<bool>)
        ensures
            r == &self.pressed,
    {
        &self.pressed
    }
}

} // verus!
