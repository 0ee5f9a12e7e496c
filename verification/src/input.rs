//! The input of one frame: which keys and mouse buttons are held, and how
//! far the cursor and the scroll wheel have moved since the frame began.
//!
//! The held sets last from frame to frame; a key enters on its press and
//! leaves on its release. The two motion sums are set back to zero when the
//! frame has been drawn.

use crate::math::scalar::{exact, num, Scalar, VecType};
use crate::math::vec2::Vec2;
use std::collections::HashSet;
use vstd::prelude::*;
use vstd::std_specs::ops::AddSpec;

verus! {

broadcast use vstd::std_specs::hash::group_hash_axioms;

/// A key of the keyboard. The keys that steer the player have names; every
/// other key is known by the number the platform gives it.
#[derive(Clone, Copy, Debug, PartialEq, Eq, Hash)]
pub enum Key {
    W,
    A,
    S,
    D,
    Space,
    LShift,
    Other(u32),
}

impl Key {
    /// The number under which a key is kept in the held set. Different keys
    /// have different numbers.
    pub open spec fn code_spec(self) -> u64 {
        match self {
            Key::W => 0,
            Key::A => 1,
            Key::S => 2,
            Key::D => 3,
            Key::Space => 4,
            Key::LShift => 5,
            Key::Other(n) => (n + 6) as u64,
        }
    }

    /// The number under which this key is kept in the held set.
    pub fn code(self) -> (c: u64)
        ensures
            c == self.code_spec(),
    {
        match self {
            Key::W => 0,
            Key::A => 1,
            Key::S => 2,
            Key::D => 3,
            Key::Space => 4,
            Key::LShift => 5,
            Key::Other(n) => n as u64 + 6,
        }
    }

    /// No two keys share a number.
    pub proof fn lemma_code_injective(a: Key, b: Key)
        requires
            a.code_spec() == b.code_spec(),
        ensures
            a == b,
    {
    }
}

/// A button of the mouse.
#[derive(Clone, Copy, Debug, PartialEq, Eq, Hash)]
pub enum MouseButton {
    Left,
    Right,
    Middle,
    Other(u16),
}

impl MouseButton {
    /// The number under which a button is kept in the held set. Different
    /// buttons have different numbers.
    pub open spec fn code_spec(self) -> u64 {
        match self {
            MouseButton::Left => 0,
            MouseButton::Right => 1,
            MouseButton::Middle => 2,
            MouseButton::Other(n) => (n + 3) as u64,
        }
    }

    /// The number under which this button is kept in the held set.
    pub fn code(self) -> (c: u64)
        ensures
            c == self.code_spec(),
    {
        match self {
            MouseButton::Left => 0,
            MouseButton::Right => 1,
            MouseButton::Middle => 2,
            MouseButton::Other(n) => n as u64 + 3,
        }
    }

    /// No two buttons share a number.
    pub proof fn lemma_code_injective(a: MouseButton, b: MouseButton)
        requires
            a.code_spec() == b.code_spec(),
        ensures
            a == b,
    {
    }
}

/// What the window system reports, as far as a frame's input cares.
#[derive(Clone, Copy, Debug)]
pub enum InputEvent<T: VecType> {
    /// A key of the focused window went down or up. `key` is `None` where
    /// the platform could not tell which key it was.
    Keyboard { key: Option<Key>, pressed: bool },
    /// The mouse moved by `delta`, whatever the cursor did on screen.
    MouseMotion { delta: Vec2<T> },
    /// Any other event.
    Other,
}

/// The input gathered for one frame.
pub struct FrameInput<T: Scalar> {
    /// The numbers of the keys that are held (see [`Key::code`]).
    pub pressed_keys: HashSet<u64>,
    /// The numbers of the mouse buttons that are held (see
    /// [`MouseButton::code`]).
    pub pressed_mouse_buttons: HashSet<u64>,
    /// The cursor motion summed over the frame.
    pub cursor_change: Vec2<T>,
    /// The scroll motion summed over the frame.
    pub scroll_change: Vec2<T>,
}

impl<T: Scalar> FrameInput<T> {
    /// Whether `key` is held.
    pub open spec fn held(&self, key: Key) -> bool {
        self.pressed_keys@.contains(key.code_spec())
    }

    /// Whether `button` is held.
    pub open spec fn button_held(&self, button: MouseButton) -> bool {
        self.pressed_mouse_buttons@.contains(button.code_spec())
    }

    /// The motion that no motion sums to.
    pub open spec fn still() -> Vec2<T> {
        Vec2 { x: num::<T>(0), y: num::<T>(0) }
    }

    /// Nothing held, nothing moved.
    pub fn new() -> (input: Self)
        ensures
            input.pressed_keys@ == Set::<u64>::empty(),
            input.pressed_mouse_buttons@ == Set::<u64>::empty(),
            exact::<T>() ==> input.cursor_change == Self::still(),
            exact::<T>() ==> input.scroll_change == Self::still(),
    {
        Self {
            pressed_keys: HashSet::new(),
            pressed_mouse_buttons: HashSet::new(),
            cursor_change: Vec2::all(T::from(0i16)),
            scroll_change: Vec2::all(T::from(0i16)),
        }
    }

    /// Ends the frame: the two motion sums go back to zero, and what is held
    /// stays held.
    pub fn clear(&mut self)
        ensures
            final(self).pressed_keys == old(self).pressed_keys,
            final(self).pressed_mouse_buttons == old(self).pressed_mouse_buttons,
            exact::<T>() ==> final(self).cursor_change == Self::still(),
            exact::<T>() ==> final(self).scroll_change == Self::still(),
    {
        self.cursor_change = Vec2::all(T::from(0i16));
        self.scroll_change = Vec2::all(T::from(0i16));
    }

    /// The cursor motion summed over the frame so far.
    pub fn cursor_change(&self) -> (delta: Vec2<T>)
        ensures
            delta == self.cursor_change,
    {
        self.cursor_change
    }

    /// The scroll motion summed over the frame so far.
    pub fn scroll_change(&self) -> (delta: Vec2<T>)
        ensures
            delta == self.scroll_change,
    {
        self.scroll_change
    }

    /// Whether `key` is held.
    pub fn key_pressed(&self, key: Key) -> (held: bool)
        ensures
            held == self.held(key),
    {
        let code = key.code();
        self.pressed_keys.contains(&code)
    }

    /// Whether `button` is held.
    pub fn mouse_button_pressed(&self, button: MouseButton) -> (held: bool)
        ensures
            held == self.button_held(button),
    {
        let code = button.code();
        self.pressed_mouse_buttons.contains(&code)
    }

    /// Takes one event in. A press puts its key into the held set and a
    /// release takes it out; a mouse motion is added to the cursor sum. The
    /// result says whether the event was one of these: a keyboard event
    /// counts even where its key is unknown, and then changes nothing.
    pub fn capture_event(&mut self, event: &InputEvent<T>) -> (captured: bool)
        requires
            event matches InputEvent::MouseMotion { delta } ==> old(self).cursor_change.x.add_req(
                delta.x,
            ) && old(self).cursor_change.y.add_req(delta.y),
        ensures
            captured == !(event is Other),
            final(self).pressed_mouse_buttons == old(self).pressed_mouse_buttons,
            final(self).scroll_change == old(self).scroll_change,
            match *event {
                InputEvent::Keyboard { key: Some(k), pressed } => {
                    &&& final(self).pressed_keys@ == if pressed {
                        old(self).pressed_keys@.insert(k.code_spec())
                    } else {
                        old(self).pressed_keys@.remove(k.code_spec())
                    }
                    &&& forall|other: Key|
                        final(self).held(other) == if other == k {
                            pressed
                        } else {
                            old(self).held(other)
                        }
                    &&& final(self).cursor_change == old(self).cursor_change
                },
                InputEvent::Keyboard { key: None, .. } => {
                    &&& final(self).pressed_keys == old(self).pressed_keys
                    &&& final(self).cursor_change == old(self).cursor_change
                },
                InputEvent::MouseMotion { delta } => {
                    &&& final(self).pressed_keys == old(self).pressed_keys
                    &&& T::obeys_add_spec() ==> final(self).cursor_change == old(
                        self,
                    ).cursor_change.add_vec_spec(delta)
                },
                InputEvent::Other => {
                    &&& final(self).pressed_keys == old(self).pressed_keys
                    &&& final(self).cursor_change == old(self).cursor_change
                },
            },
    {
        match event {
            InputEvent::Keyboard { key, pressed } => {
                if let Some(key) = key {
                    let code = key.code();
                    if *pressed {
                        self.pressed_keys.insert(code);
                    } else {
                        self.pressed_keys.remove(&code);
                    }
                    assert forall|other: Key|
                        self.held(other) == if other == *key {
                            *pressed
                        } else {
                            old(self).held(other)
                        } by {
                        if other.code_spec() == key.code_spec() {
                            Key::lemma_code_injective(other, *key);
                        }
                    }
                }
                true
            },
            InputEvent::MouseMotion { delta } => {
                self.cursor_change.x = self.cursor_change.x + delta.x;
                self.cursor_change.y = self.cursor_change.y + delta.y;
                true
            },
            InputEvent::Other => false,
        }
    }
}

} // verus!
