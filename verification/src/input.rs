//! What the terminal reports, and what the browser asks of its surroundings.

use vstd::prelude::*;

verus! {

/// Where input goes: to the list, or to the filter query being typed.
#[derive(Clone, Copy, Debug, PartialEq, Eq)]
pub enum Mode {
    Browsing,
    FilterEditing,
}

/// The keys that the browser tells apart.
#[derive(Clone, Copy, Debug, PartialEq, Eq)]
pub enum Key {
    Escape,
    Enter,
    Backspace,
    Up,
    Down,
    Char(char),
    Other,
}

/// How a key event came about. Only a press is acted on.
#[derive(Clone, Copy, Debug, PartialEq, Eq)]
pub enum KeyKind {
    Press,
    Repeat,
    Release,
}

/// One event from the terminal.
#[derive(Clone, Copy, Debug, PartialEq, Eq)]
pub enum InputEvent {
    Key { key: Key, kind: KeyKind },
    Resize,
    Other,
}

/// What the caller is to do after an event has been handled.
#[derive(Debug, PartialEq, Eq)]
pub enum Action {
    /// Nothing beyond drawing the next frame.
    Idle,
    /// Start the player on the stream with this id.
    Play { id: String },
}

/// A preview image to fetch: the catalog position of the stream and its id.
#[derive(Debug, PartialEq, Eq)]
pub struct FetchRequest {
    pub index: usize,
    pub id: String,
}

/// What the caller is to do in one pass of its loop, in this order: carry
/// out the action, then fetch the preview that is asked for.
#[derive(Debug, PartialEq, Eq)]
pub struct Tick {
    pub action: Action,
    pub fetch: Option<FetchRequest>,
}

} // verus!
