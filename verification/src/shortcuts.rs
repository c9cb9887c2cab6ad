//! The keyboard shortcuts of the application: one key each, held together
//! with the command key on a Mac and with the control key elsewhere.

use vstd::prelude::*;

verus! {

/// The key that is held down with a shortcut's own key.
#[derive(Clone, Copy, Debug, PartialEq, Eq, Structural)]
pub enum Modifier {
    MacCmd,
    Ctrl,
}

/// The keys that have a shortcut.
#[derive(Clone, Copy, Debug, PartialEq, Eq, Structural)]
pub enum Key {
    B,
    Comma,
    E,
    F,
    S,
    X,
}

/// A key with the modifier that goes with it.
#[derive(Clone, Copy, Debug, PartialEq, Eq, Structural)]
pub struct KeyboardShortcut {
    pub modifier: Modifier,
    pub key: Key,
}

/// The modifier of every shortcut on this kind of machine.
pub open spec fn modifier_for(is_macos: bool) -> Modifier {
    if is_macos {
        Modifier::MacCmd
    } else {
        Modifier::Ctrl
    }
}

/// The modifier of every shortcut on this kind of machine.
pub fn modifiers(is_macos: bool) -> (modifier: Modifier)
    ensures
        modifier == modifier_for(is_macos),
{
    if is_macos {
        Modifier::MacCmd
    } else {
        Modifier::Ctrl
    }
}

/// Starts or ends the edit of a translation.
pub fn edit(is_macos: bool) -> (shortcut: KeyboardShortcut)
    ensures
        shortcut == (KeyboardShortcut { modifier: modifier_for(is_macos), key: Key::E }),
{
    KeyboardShortcut { modifier: modifiers(is_macos), key: Key::E }
}

/// Saves the phrase on display.
pub fn save(is_macos: bool) -> (shortcut: KeyboardShortcut)
    ensures
        shortcut == (KeyboardShortcut { modifier: modifier_for(is_macos), key: Key::S }),
{
    KeyboardShortcut { modifier: modifiers(is_macos), key: Key::S }
}

/// Looks up the text in the input.
pub fn find(is_macos: bool) -> (shortcut: KeyboardShortcut)
    ensures
        shortcut == (KeyboardShortcut { modifier: modifier_for(is_macos), key: Key::F }),
{
    KeyboardShortcut { modifier: modifiers(is_macos), key: Key::F }
}

/// Opens the exercises.
pub fn exercise(is_macos: bool) -> (shortcut: KeyboardShortcut)
    ensures
        shortcut == (KeyboardShortcut { modifier: modifier_for(is_macos), key: Key::X }),
{
    KeyboardShortcut { modifier: modifiers(is_macos), key: Key::X }
}

/// Opens or closes the settings.
pub fn settings(is_macos: bool) -> (shortcut: KeyboardShortcut)
    ensures
        shortcut == (KeyboardShortcut { modifier: modifier_for(is_macos), key: Key::Comma }),
{
    KeyboardShortcut { modifier: modifiers(is_macos), key: Key::Comma }
}

/// Opens or closes the note about the application.
pub fn about(is_macos: bool) -> (shortcut: KeyboardShortcut)
    ensures
        shortcut == (KeyboardShortcut { modifier: modifier_for(is_macos), key: Key::B }),
{
    KeyboardShortcut { modifier: modifiers(is_macos), key: Key::B }
}

} // verus!
