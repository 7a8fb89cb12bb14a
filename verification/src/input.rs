//! Keyboard and cursor state.
//!
//! The keys the game knows are a closed set. Which of them are held down is
//! kept as one flag per key; a key event sets or clears the flag of its key
//! and leaves the others alone.

use crate::physics::Vec2;
use vstd::prelude::*;

verus! {

/// The keys the game reacts to.
#[derive(Clone, Copy, Debug, PartialEq, Eq, Structural)]
pub enum KeyKind {
    Space,
    ArrowUp,
    ArrowDown,
    K,
    J,
    Q,
    A,
    Enter,
    ArrowLeft,
    ArrowRight,
    W,
    S,
    D,
}

/// The keys that move a player's paddle.
#[derive(Debug)]
pub struct KeyMap {
    pub move_up: Vec<KeyKind>,
    pub move_down: Vec<KeyKind>,
}

/// A key map as plain values.
pub struct KeyMapView {
    pub move_up: Seq<KeyKind>,
    pub move_down: Seq<KeyKind>,
}

impl View for KeyMap {
    type V = KeyMapView;

    open spec fn view(&self) -> KeyMapView {
        KeyMapView { move_up: self.move_up@, move_down: self.move_down@ }
    }
}

/// The keys with a name that the window system reports.
#[derive(Clone, Copy, Debug, PartialEq, Eq, Structural)]
pub enum NamedKey {
    Space,
    ArrowUp,
    ArrowDown,
    ArrowLeft,
    ArrowRight,
    Enter,
    Escape,
    Other,
}

/// A key as the window system reports it: by name, or by the text it
/// produces.
#[derive(Debug)]
pub enum Key {
    Named(NamedKey),
    Character(String),
    Unidentified,
}

/// Whether a key went down or came up.
#[derive(Clone, Copy, Debug, PartialEq, Eq, Structural)]
pub enum ElementState {
    Pressed,
    Released,
}

/// A key going down or coming up.
#[derive(Debug)]
pub struct KeyEvent {
    pub logical_key: Key,
    pub state: ElementState,
}

/// The position of a key's flag.
pub open spec fn flag_index(key: KeyKind) -> u32 {
    match key {
        KeyKind::Space => 0,
        KeyKind::ArrowUp => 1,
        KeyKind::ArrowDown => 2,
        KeyKind::K => 3,
        KeyKind::J => 4,
        KeyKind::Q => 5,
        KeyKind::A => 6,
        KeyKind::Enter => 7,
        KeyKind::W => 8,
        KeyKind::S => 9,
        KeyKind::D => 10,
        KeyKind::ArrowLeft => 11,
        KeyKind::ArrowRight => 12,
    }
}

/// The flag of a key.
pub open spec fn key_mask(key: KeyKind) -> u32 {
    match key {
        KeyKind::Space => 0x1,
        KeyKind::ArrowUp => 0x2,
        KeyKind::ArrowDown => 0x4,
        KeyKind::K => 0x8,
        KeyKind::J => 0x10,
        KeyKind::Q => 0x20,
        KeyKind::A => 0x40,
        KeyKind::Enter => 0x80,
        KeyKind::W => 0x100,
        KeyKind::S => 0x200,
        KeyKind::D => 0x400,
        KeyKind::ArrowLeft => 0x800,
        KeyKind::ArrowRight => 0x1000,
    }
}

/// Whether the flag of `key` is set in `flags`.
pub open spec fn is_pressed(flags: u32, key: KeyKind) -> bool {
    flags & key_mask(key) != 0
}

/// Whether the flag of any of `keys` is set in `flags`.
pub open spec fn any_down(flags: u32, keys: Seq<KeyKind>) -> bool {
    exists|i: int| 0 <= i < keys.len() && is_pressed(flags, #[trigger] keys[i])
}

/// The game key that a key of the window system stands for, if any. Of
/// the letters only `k` is also recognised as a capital.
pub open spec fn key_kind(key: Key) -> Option<KeyKind> {
    match key {
        Key::Named(NamedKey::Space) => Some(KeyKind::Space),
        Key::Named(NamedKey::ArrowUp) => Some(KeyKind::ArrowUp),
        Key::Named(NamedKey::ArrowDown) => Some(KeyKind::ArrowDown),
        Key::Named(NamedKey::ArrowLeft) => Some(KeyKind::ArrowLeft),
        Key::Named(NamedKey::ArrowRight) => Some(KeyKind::ArrowRight),
        Key::Named(NamedKey::Enter) => Some(KeyKind::Enter),
        Key::Named(_) => None,
        Key::Character(text) => if text@ == seq!['k'] || text@ == seq!['K'] {
            Some(KeyKind::K)
        } else if text@ == seq!['j'] {
            Some(KeyKind::J)
        } else if text@ == seq!['q'] {
            Some(KeyKind::Q)
        } else if text@ == seq!['a'] {
            Some(KeyKind::A)
        } else if text@ == seq!['w'] {
            Some(KeyKind::W)
        } else if text@ == seq!['s'] {
            Some(KeyKind::S)
        } else if text@ == seq!['d'] {
            Some(KeyKind::D)
        } else {
            None
        },
        Key::Unidentified => None,
    }
}

/// The flag of the game key that `key` stands for, or 0 if it stands for
/// none.
pub open spec fn spec_mask_from_key(key: Key) -> u32 {
    match key_kind(key) {
        Some(kind) => key_mask(kind),
        None => 0,
    }
}

/// Setting or clearing one flag changes that flag and no other.
proof fn lemma_one_flag(flags: u32, i: u32, j: u32)
    by (bit_vector)
    requires
        i < 32,
        j < 32,
    ensures
        (flags | (1u32 << i)) & (1u32 << i) != 0,
        (flags & !(1u32 << i)) & (1u32 << i) == 0,
        i != j ==> (flags | (1u32 << i)) & (1u32 << j) == flags & (1u32 << j),
        i != j ==> (flags & !(1u32 << i)) & (1u32 << j) == flags & (1u32 << j),
        0u32 & (1u32 << i) == 0,
        (1u32 << i) != 0,
{
}

/// Each key's flag is the single bit at the key's position.
pub proof fn lemma_key_mask_is_one_bit(key: KeyKind)
    ensures
        key_mask(key) == 1u32 << flag_index(key),
        flag_index(key) < 13,
        key_mask(key) != 0,
{
    assert(0x1u32 == 1u32 << 0u32 && 0x2u32 == 1u32 << 1u32 && 0x4u32 == 1u32 << 2u32 && 0x8u32
        == 1u32 << 3u32 && 0x10u32 == 1u32 << 4u32 && 0x20u32 == 1u32 << 5u32 && 0x40u32 == 1u32
        << 6u32 && 0x80u32 == 1u32 << 7u32 && 0x100u32 == 1u32 << 8u32 && 0x200u32 == 1u32 << 9u32
        && 0x400u32 == 1u32 << 10u32 && 0x800u32 == 1u32 << 11u32 && 0x1000u32 == 1u32 << 12u32)
        by (bit_vector);
}

/// Pressing a key sets its flag, releasing it clears the flag, and the
/// flags of all other keys stay as they are.
pub proof fn lemma_flags_are_independent(flags: u32, key: KeyKind, other: KeyKind)
    ensures
        is_pressed(flags | key_mask(key), key),
        !is_pressed(flags & !key_mask(key), key),
        other != key ==> is_pressed(flags | key_mask(key), other) == is_pressed(flags, other),
        other != key ==> is_pressed(flags & !key_mask(key), other) == is_pressed(flags, other),
        !is_pressed(0, key),
{
    lemma_key_mask_is_one_bit(key);
    lemma_key_mask_is_one_bit(other);
    lemma_one_flag(flags, flag_index(key), flag_index(other));
}

/// The flag of a game key.
pub fn mask_from_key_kind(key: &KeyKind) -> (r: u32)
    ensures
        r == key_mask(*key),
{
    match key {
        KeyKind::Space => 0x1,
        KeyKind::ArrowUp => 0x2,
        KeyKind::ArrowDown => 0x4,
        KeyKind::K => 0x8,
        KeyKind::J => 0x10,
        KeyKind::Q => 0x20,
        KeyKind::A => 0x40,
        KeyKind::Enter => 0x80,
        KeyKind::ArrowLeft => 0x800,
        KeyKind::ArrowRight => 0x1000,
        KeyKind::W => 0x100,
        KeyKind::S => 0x200,
        KeyKind::D => 0x400,
    }
}

/// Whether `text` is the single character `c`.
fn is_character(text: &str, c: char) -> (r: bool)
    ensures
        r == (text@ == seq![c]),
{
    let r = text.unicode_len() == 1 && text.get_char(0) == c;
    assert(r == (text@ =~= seq![c]));
    r
}

/// The flag of the game key that `key` stands for, or 0 if it stands for
/// none.
pub fn mask_from_key(key: &Key) -> (r: u32)
    ensures
        r == spec_mask_from_key(*key),
{
    match key {
        Key::Named(NamedKey::Space) => 0x1,
        Key::Named(NamedKey::ArrowUp) => 0x2,
        Key::Named(NamedKey::ArrowDown) => 0x4,
        Key::Named(NamedKey::ArrowLeft) => 0x800,
        Key::Named(NamedKey::ArrowRight) => 0x1000,
        Key::Named(NamedKey::Enter) => 0x80,
        Key::Character(character) => {
            let character = character.as_str();
            if is_character(character, 'k') || is_character(character, 'K') {
                0x8
            } else if is_character(character, 'j') {
                0x10
            } else if is_character(character, 'q') {
                0x20
            } else if is_character(character, 'a') {
                0x40
            } else if is_character(character, 'w') {
                0x100
            } else if is_character(character, 's') {
                0x200
            } else if is_character(character, 'd') {
                0x400
            } else {
                0
            }
        },
        _ => 0,
    }
}

/// Whether the key asks for the program to end: only the escape key does.
pub fn requests_exit(key: &Key) -> (r: bool)
    ensures
        r == (*key == Key::Named(NamedKey::Escape)),
{
    match key {
        Key::Named(NamedKey::Escape) => true,
        _ => false,
    }
}

/// Which keys are down and where the cursor is, as the event loop reports
/// it between frames.
#[derive(Debug)]
pub struct InputController {
    key_state: u32,
    cursor_pos: Vec2,
}

/// What an `InputController` held at the start of a frame.
#[derive(Clone, Copy, Debug)]
pub struct InputState {
    key_state: u32,
    cursor_pos: Vec2,
}

impl InputController {
    /// The flags of the keys that are down.
    pub closed spec fn flags(&self) -> u32 {
        self.key_state
    }

    pub closed spec fn cursor(&self) -> Vec2 {
        self.cursor_pos
    }

    pub fn new() -> (r: Self)
        ensures
            r.flags() == 0,
            r.cursor() == (Vec2 { x: 0, y: 0 }),
            forall|key: KeyKind| !is_pressed(r.flags(), key),
    {
        proof {
            assert forall|key: KeyKind| !is_pressed(0, key) by {
                lemma_flags_are_independent(0, key, key);
            }
        }
        InputController { key_state: 0, cursor_pos: Vec2 { x: 0, y: 0 } }
    }

    pub fn state(&self) -> (r: InputState)
        ensures
            r.flags() == self.flags(),
            r.cursor() == self.cursor(),
    {
        InputState::new(self.key_state, self.cursor_pos)
    }

    pub fn handle_cursor(&mut self, x: i32, y: i32)
        ensures
            final(self).cursor() == (Vec2 { x, y }),
            final(self).flags() == old(self).flags(),
    {
        self.cursor_pos.x = x;
        self.cursor_pos.y = y;
    }

    /// Records a key event: a key the game knows is down after it was
    /// pressed and up after it was released; every other key stays as it
    /// was, and an event of a key the game does not know changes nothing.
    pub fn handle_keyboard(&mut self, event: KeyEvent)
        ensures
            final(self).cursor() == old(self).cursor(),
            final(self).flags() == match event.state {
                ElementState::Pressed => old(self).flags() | spec_mask_from_key(event.logical_key),
                ElementState::Released => old(self).flags() & !spec_mask_from_key(
                    event.logical_key,
                ),
            },
            key_kind(event.logical_key) is None ==> final(self).flags() == old(self).flags(),
            forall|key: KeyKind|
                is_pressed(final(self).flags(), key) == if key_kind(event.logical_key) == Some(
                    key,
                ) {
                    event.state == ElementState::Pressed
                } else {
                    is_pressed(old(self).flags(), key)
                },
    {
        let mask = mask_from_key(&event.logical_key);
        let ghost before = self.key_state;
        proof {
            assert(before | 0u32 == before && before & !0u32 == before) by (bit_vector);
        }
        if mask != 0 {
            self.update_state(mask, event.state);
        }
        proof {
            assert forall|key: KeyKind|
                is_pressed(self.key_state, key) == if key_kind(event.logical_key) == Some(key) {
                    event.state == ElementState::Pressed
                } else {
                    is_pressed(before, key)
                } by {
                match key_kind(event.logical_key) {
                    Some(kind) => {
                        lemma_flags_are_independent(before, kind, key);
                    },
                    None => {},
                }
            }
        }
    }

    fn update_state(&mut self, key_mask: u32, state: ElementState)
        ensures
            final(self).cursor_pos == old(self).cursor_pos,
            final(self).key_state == match state {
                ElementState::Pressed => old(self).key_state | key_mask,
                ElementState::Released => old(self).key_state & !key_mask,
            },
    {
        match state {
            ElementState::Pressed => {
                self.key_state = self.key_state | key_mask;
            },
            ElementState::Released => {
                self.key_state = self.key_state & !key_mask;
            },
        }
    }
}

impl InputState {
    /// The flags of the keys that are down.
    pub closed spec fn flags(&self) -> u32 {
        self.key_state
    }

    pub closed spec fn cursor(&self) -> Vec2 {
        self.cursor_pos
    }

    pub fn new(key_state: u32, cursor_pos: Vec2) -> (r: Self)
        ensures
            r.flags() == key_state,
            r.cursor() == cursor_pos,
    {
        InputState { key_state, cursor_pos }
    }

    pub fn cursor_pos(&self) -> (r: Vec2)
        ensures
            r == self.cursor(),
    {
        self.cursor_pos
    }

    pub fn is_key_pressed(&self, key: &KeyKind) -> (r: bool)
        ensures
            r == is_pressed(self.flags(), *key),
    {
        let mask = mask_from_key_kind(key);
        self.key_state & mask > 0
    }

    /// Whether any of `keys` is down.
    pub fn any_pressed(&self, keys: &[KeyKind]) -> (r: bool)
        ensures
            r == any_down(self.flags(), keys@),
    {
        let n = keys.len();
        let mut i: usize = 0;
        while i < n
            invariant
                0 <= i <= n,
                n == keys@.len(),
                forall|j: int| 0 <= j < i ==> !is_pressed(self.flags(), #[trigger] keys@[j]),
            decreases n - i,
        {
            if self.is_key_pressed(&keys[i]) {
                return true;
            }
            i = i + 1;
        }
        false
    }
}

} // verus!
