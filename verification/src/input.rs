//! The state of keyboard and mouse that a scene reads each frame.

use vstd::prelude::*;

verus! {

/// A button of the mouse.
#[derive(Clone, Copy, Debug, PartialEq, Eq, Structural)]
pub enum MouseButton {
    Left,
    Right,
    Middle,
    Other(u16),
}

/// What the window reports of keyboard and mouse. Keys are named by their
/// codes; cursor coordinates are double-precision bit patterns.
#[derive(Clone, Copy, Debug, PartialEq, Eq, Structural)]
pub enum InputEvent {
    Key { code: u32, pressed: bool },
    Button { button: MouseButton, pressed: bool },
    CursorMoved { x: u64, y: u64 },
}

/// The state of the mouse: the button that is held, if one is, and where the
/// cursor is.
#[derive(Clone, Copy, Debug, PartialEq, Eq, Structural)]
pub struct MouseState {
    pub button: Option<MouseButton>,
    pub x: u64,
    pub y: u64,
}

/// The keys that are held.
#[derive(Debug)]
pub struct KeyboardState {
    pressed: Vec<u32>,
}

impl View for KeyboardState {
    type V = Set<u32>;

    closed spec fn view(&self) -> Set<u32> {
        self.pressed@.to_set()
    }
}

impl KeyboardState {
    /// No key is held.
    pub fn new() -> (keyboard: KeyboardState)
        ensures
            keyboard@ == Set::<u32>::empty(),
    {
        let keyboard = KeyboardState { pressed: Vec::new() };
        assert(keyboard@ =~= Set::<u32>::empty());
        keyboard
    }

    /// Whether the key with this code is held.
    pub fn contains(&self, code: u32) -> (held: bool)
        ensures
            held == self@.contains(code),
    {
        let mut k: usize = 0;
        while k < self.pressed.len()
            invariant
                k <= self.pressed@.len(),
                forall|i: int| 0 <= i < k ==> self.pressed@[i] != code,
            decreases self.pressed@.len() - k,
        {
            if self.pressed[k] == code {
                assert(self.pressed@.contains(code));
                return true;
            }
            k = k + 1;
        }
        assert(!self.pressed@.contains(code));
        false
    }

    /// The key with this code goes down.
    pub fn press(&mut self, code: u32)
        ensures
            final(self)@ == old(self)@.insert(code),
    {
        if !self.contains(code) {
            self.pressed.push(code);
            assert(self@ =~= old(self)@.insert(code)) by {
                assert forall|c: u32| self@.contains(c) <==> old(self)@.insert(code).contains(
                    c,
                ) by {
                    if old(self).pressed@.contains(c) {
                        let i = choose|i: int|
                            0 <= i < old(self).pressed@.len() && old(self).pressed@[i] == c;
                        assert(self.pressed@[i] == c);
                    }
                    if c == code {
                        assert(self.pressed@[self.pressed@.len() - 1] == c);
                    }
                }
            }
        } else {
            assert(self@ =~= old(self)@.insert(code));
        }
    }

    /// The key with this code goes up.
    pub fn release(&mut self, code: u32)
        ensures
            final(self)@ == old(self)@.remove(code),
    {
        let mut kept: Vec<u32> = Vec::new();
        let mut k: usize = 0;
        while k < self.pressed.len()
            invariant
                k <= self.pressed@.len(),
                forall|c: u32|
                    #![trigger kept@.contains(c)]
                    #![trigger self.pressed@.take(k as int).contains(c)]
                    kept@.contains(c) <==> c != code && self.pressed@.take(k as int).contains(c),
            decreases self.pressed@.len() - k,
        {
            let key = self.pressed[k];
            let ghost before = kept@;
            if key != code {
                kept.push(key);
            }
            proof {
                let seen = self.pressed@.take(k as int);
                let next = self.pressed@.take(k + 1);
                assert(next =~= seen.push(key));
                assert forall|c: u32|
                    #![trigger kept@.contains(c)]
                    #![trigger next.contains(c)]
                    kept@.contains(c) <==> c != code && next.contains(c) by {
                    if kept@.contains(c) {
                        let i = choose|i: int| 0 <= i < kept@.len() && kept@[i] == c;
                        if i < before.len() {
                            assert(before[i] == c);
                            assert(before.contains(c));
                            let j = choose|j: int| 0 <= j < seen.len() && seen[j] == c;
                            assert(next[j] == c);
                        } else {
                            assert(next[k as int] == c);
                        }
                    }
                    if c != code && next.contains(c) {
                        let j = choose|j: int| 0 <= j < next.len() && next[j] == c;
                        if j < k {
                            assert(seen[j] == c);
                            assert(seen.contains(c));
                            assert(before.contains(c));
                            let i = choose|i: int| 0 <= i < before.len() && before[i] == c;
                            assert(kept@[i] == c);
                        } else {
                            assert(kept@[kept@.len() - 1] == c);
                        }
                    }
                }
            }
            k = k + 1;
        }
        proof {
            assert(self.pressed@.take(self.pressed@.len() as int) =~= self.pressed@);
            assert(kept@.to_set() =~= self.pressed@.to_set().remove(code));
        }
        self.pressed = kept;
    }
}

/// The mathematical content of an [`InputState`].
pub struct InputView {
    pub mouse: MouseState,
    /// The codes of the keys that are held.
    pub keys: Set<u32>,
}

impl InputView {
    /// The state after `event`: a key that goes down is held until it goes
    /// up; a button that goes down is the button held, and when that button
    /// goes up none is; the cursor is where it moved last.
    pub open spec fn after(self, event: InputEvent) -> InputView {
        match event {
            InputEvent::Key { code, pressed } => InputView {
                keys: if pressed {
                    self.keys.insert(code)
                } else {
                    self.keys.remove(code)
                },
                ..self
            },
            InputEvent::Button { button, pressed } => InputView {
                mouse: MouseState {
                    button: if pressed {
                        Some(button)
                    } else if self.mouse.button == Some(button) {
                        None
                    } else {
                        self.mouse.button
                    },
                    ..self.mouse
                },
                ..self
            },
            InputEvent::CursorMoved { x, y } => InputView {
                mouse: MouseState { x, y, ..self.mouse },
                ..self
            },
        }
    }
}

/// The state of keyboard and mouse.
#[derive(Debug)]
pub struct InputState {
    pub mouse: MouseState,
    pub keyboard: KeyboardState,
}

impl View for InputState {
    type V = InputView;

    open spec fn view(&self) -> InputView {
        InputView { mouse: self.mouse, keys: self.keyboard@ }
    }
}

impl InputState {
    /// Nothing is held, and the cursor is at the origin.
    pub fn new() -> (input: InputState)
        ensures
            input@ == (InputView {
                mouse: MouseState { button: None, x: 0, y: 0 },
                keys: Set::empty(),
            }),
    {
        InputState {
            mouse: MouseState { button: None, x: 0, y: 0 },
            keyboard: KeyboardState::new(),
        }
    }

    /// Takes note of `event`.
    pub fn handle(&mut self, event: InputEvent)
        ensures
            final(self)@ == old(self)@.after(event),
    {
        match event {
            InputEvent::Key { code, pressed } => {
                if pressed {
                    self.keyboard.press(code);
                } else {
                    self.keyboard.release(code);
                }
            },
            InputEvent::Button { button, pressed } => {
                if pressed {
                    self.mouse.button = Some(button);
                } else if self.mouse.button == Some(button) {
                    self.mouse.button = None;
                }
            },
            InputEvent::CursorMoved { x, y } => {
                self.mouse.x = x;
                self.mouse.y = y;
            },
        }
    }
}

} // verus!
