//! What a key event of the window leads to.

use crate::actor::Key;
use vstd::prelude::*;

verus! {

/// A key of the window, as far as the program tells keys apart.
#[derive(Clone, Copy, Debug, PartialEq, Eq, Structural)]
pub enum WindowKey {
    Escape,
    Up,
    Down,
    Left,
    Right,
    Enter,
    Space,
    Other,
}

/// What happened to the key.
#[derive(Clone, Copy, Debug, PartialEq, Eq, Structural)]
pub enum KeyAction {
    Release,
    Press,
    Repeat,
}

/// What the program does about a key event.
#[derive(Clone, Copy, Debug, PartialEq, Eq, Structural)]
pub enum Reaction {
    /// Close the window.
    Close,
    /// Hand the key to the stages.
    Forward(Key),
    /// Nothing.
    Ignore,
}

/// Only a press counts. Escape closes the window; the arrows, enter and the
/// space bar go to the stages; anything else is ignored.
pub open spec fn reaction_to(key: WindowKey, action: KeyAction) -> Reaction {
    if action != KeyAction::Press {
        Reaction::Ignore
    } else {
        match key {
            WindowKey::Escape => Reaction::Close,
            WindowKey::Up => Reaction::Forward(Key::Up),
            WindowKey::Down => Reaction::Forward(Key::Down),
            WindowKey::Left => Reaction::Forward(Key::Left),
            WindowKey::Right => Reaction::Forward(Key::Right),
            WindowKey::Enter => Reaction::Forward(Key::Enter),
            WindowKey::Space => Reaction::Forward(Key::Space),
            WindowKey::Other => Reaction::Ignore,
        }
    }
}

/// Decides what a key event of the window leads to.
pub fn react(key: WindowKey, action: KeyAction) -> (reaction: Reaction)
    ensures
        reaction == reaction_to(key, action),
{
    match action {
        KeyAction::Press => match key {
            WindowKey::Escape => Reaction::Close,
            WindowKey::Up => Reaction::Forward(Key::Up),
            WindowKey::Down => Reaction::Forward(Key::Down),
            WindowKey::Left => Reaction::Forward(Key::Left),
            WindowKey::Right => Reaction::Forward(Key::Right),
            WindowKey::Enter => Reaction::Forward(Key::Enter),
            WindowKey::Space => Reaction::Forward(Key::Space),
            WindowKey::Other => Reaction::Ignore,
        },
        _ => Reaction::Ignore,
    }
}

} // verus!
