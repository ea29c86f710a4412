use vstd::prelude::*;

verus! {

/// A key event as the terminal reports it.
#[derive(Clone, Copy, Debug, PartialEq, Eq, Structural)]
pub enum Key {
    Backspace,
    Left,
    Right,
    Up,
    Down,
    Home,
    End,
    PageUp,
    PageDown,
    BackTab,
    Delete,
    Insert,
    /// A function key, numbered from 1.
    F(u8),
    /// A plain character.
    Char(char),
    /// A character with Alt held.
    Alt(char),
    /// A character with Ctrl held.
    Ctrl(char),
    Null,
    Esc,
}

/// The bindings of "move down": the arrow, `j` and Ctrl-n.
pub open spec fn is_down_key(key: Key) -> bool {
    key == Key::Down || key == Key::Char('j') || key == Key::Ctrl('n')
}

/// The bindings of "move up": the arrow, `k` and Ctrl-p.
pub open spec fn is_up_key(key: Key) -> bool {
    key == Key::Up || key == Key::Char('k') || key == Key::Ctrl('p')
}

/// The bindings of "move left": the arrow, `h` and Ctrl-b.
pub open spec fn is_left_key(key: Key) -> bool {
    key == Key::Left || key == Key::Char('h') || key == Key::Ctrl('b')
}

/// The bindings of "move right": the arrow, `l` and Ctrl-f.
pub open spec fn is_right_key(key: Key) -> bool {
    key == Key::Right || key == Key::Char('l') || key == Key::Ctrl('f')
}

/// Whether `key` is bound to "move down".
pub fn down_event(key: Key) -> (r: bool)
    ensures
        r == is_down_key(key),
{
    match key {
        Key::Down | Key::Char('j') | Key::Ctrl('n') => true,
        _ => false,
    }
}

/// Whether `key` is bound to "move up".
pub fn up_event(key: Key) -> (r: bool)
    ensures
        r == is_up_key(key),
{
    match key {
        Key::Up | Key::Char('k') | Key::Ctrl('p') => true,
        _ => false,
    }
}

/// Whether `key` is bound to "move left".
pub fn left_event(key: Key) -> (r: bool)
    ensures
        r == is_left_key(key),
{
    match key {
        Key::Left | Key::Char('h') | Key::Ctrl('b') => true,
        _ => false,
    }
}

/// Whether `key` is bound to "move right".
pub fn right_event(key: Key) -> (r: bool)
    ensures
        r == is_right_key(key),
{
    match key {
        Key::Right | Key::Char('l') | Key::Ctrl('f') => true,
        _ => false,
    }
}

} // verus!
