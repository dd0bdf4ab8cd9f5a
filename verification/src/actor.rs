//! The handler of key events: which key asks for which command.

use crate::geometry::{Geometry, Segment};
use crate::lines::{LineNode, Placement};
use crate::scene::{layer_needs_update, layer_node};
use rust_animation::layer::Layer;
use stretch::geometry::Point;
use vstd::prelude::*;

verus! {

/// The keys that the scene's stage hands to a handler.
#[derive(Clone, Copy, Debug, PartialEq, Eq, Structural)]
pub enum Key {
    Space,
    Enter,
    Tab,
    Backspace,
    Escape,
    Right,
    Left,
    Down,
    Up,
}

/// The two commands that drive the curve.
#[derive(Clone, Copy, Debug, PartialEq, Eq, Structural)]
pub enum Command {
    /// Throw the scene away and start from one random segment.
    Seed,
    /// Replace every line of the scene by its chain of four.
    Advance,
}

/// The command that a key asks for: the space bar seeds, the up arrow
/// advances, every other key is ignored.
pub open spec fn command_for(key: Key) -> Option<Command> {
    match key {
        Key::Space => Some(Command::Seed),
        Key::Up => Some(Command::Advance),
        _ => None,
    }
}

/// The handler that a stage is given for its key events.
pub struct ActorEvent {
    name: String,
}

impl ActorEvent {
    /// The name of the handler, as a sequence of characters.
    pub closed spec fn spec_name(&self) -> Seq<char> {
        self.name@
    }

    /// A handler named `actor_event`.
    pub fn new() -> (handler: Self)
        ensures
            handler.spec_name() == "actor_event"@,
    {
        ActorEvent { name: "actor_event".to_owned() }
    }

    /// The name of the handler.
    pub fn name(&self) -> (name: &str)
        ensures
            name@ == self.spec_name(),
    {
        self.name.as_str()
    }

    /// The command that a key press asks for.
    pub fn command(&self, key: Key) -> (command: Option<Command>)
        ensures
            command == command_for(key),
    {
        match key {
            Key::Space => Some(Command::Seed),
            Key::Up => Some(Command::Advance),
            _ => None,
        }
    }

    /// Carries out on the scene what a key press asks for: the space bar
    /// seeds it anew, the up arrow advances it by one refinement, and any
    /// other key leaves it as it is.
    pub fn key_down<
        T: Copy,
        R: Fn(u32) -> Point<T>,
        E: Fn(LineNode) -> Segment<T>,
        B: Fn(Point<T>, Point<T>, u32, u32) -> Point<T>,
        C: Fn(Point<T>, Point<T>) -> (Point<T>, Point<T>),
        P: Fn(Segment<T>) -> Placement,
    >(&self, key: Key, layer: &mut Layer, geometry: &Geometry<R, E, B, C, P>)
        requires
            geometry.usable(),
        ensures
            command_for(key) == Some(Command::Seed) ==> geometry.seeded(*final(layer)),
            command_for(key) == Some(Command::Advance) ==> geometry.advanced(
                *old(layer),
                *final(layer),
            ),
            command_for(key).is_some() ==> layer_needs_update(*final(layer)),
            command_for(key).is_none() ==> *final(layer) == *old(layer),
            layer_node(*final(layer)) == layer_node(*old(layer)),
    {
        match self.command(key) {
            Some(Command::Seed) => geometry.seed(layer),
            Some(Command::Advance) => geometry.advance(layer),
            None => {},
        }
    }
}

} // verus!
