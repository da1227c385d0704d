//! The window: its caption, the events that it reports, and what they ask for.

use vstd::prelude::*;
use vstd::string::StringExecFns;

verus! {

/// A button of the mouse.
#[derive(Clone, Copy, Debug, PartialEq, Eq, Structural)]
pub enum MouseButton {
    Left,
    Right,
    Middle,
    /// Another button, by its number.
    Other(u16),
}

/// Whether a button went down or came up.
#[derive(Clone, Copy, Debug, PartialEq, Eq, Structural)]
pub enum ElementState {
    Pressed,
    Released,
}

/// What the window reports. Of a request to close, only whether it names the
/// window that shows the picture is kept.
#[derive(Clone, Copy, Debug, PartialEq, Eq, Structural)]
pub enum WindowEvent {
    MouseButton { button: MouseButton, state: ElementState },
    CloseRequested { active_window: bool },
    Other,
}

/// What an event asks for while a picture is shown.
#[derive(Clone, Copy, Debug, PartialEq, Eq, Structural)]
pub enum Reaction {
    /// Another record.
    Reroll,
    /// The end of the program.
    Quit,
    /// Nothing.
    Ignore,
}

/// A press of the left button asks for another record, a request to close the
/// window that shows the picture ends the program, and nothing else matters.
pub open spec fn reaction_to(event: WindowEvent) -> Reaction {
    match event {
        WindowEvent::MouseButton { button: MouseButton::Left, state: ElementState::Pressed } =>
            Reaction::Reroll,
        WindowEvent::CloseRequested { active_window: true } => Reaction::Quit,
        _ => Reaction::Ignore,
    }
}

/// Decides what an event asks for while a picture is shown.
pub fn react(event: WindowEvent) -> (reaction: Reaction)
    ensures
        reaction == reaction_to(event),
{
    match event {
        WindowEvent::MouseButton { button, state } => {
            if button == MouseButton::Left && state == ElementState::Pressed {
                Reaction::Reroll
            } else {
                Reaction::Ignore
            }
        },
        WindowEvent::CloseRequested { active_window } => {
            if active_window {
                Reaction::Quit
            } else {
                Reaction::Ignore
            }
        },
        WindowEvent::Other => Reaction::Ignore,
    }
}

/// The window's title for a record: the artist, " - ", the album.
pub open spec fn caption_of(artist: Seq<char>, album: Seq<char>) -> Seq<char> {
    artist + " - "@ + album
}

/// Builds the window's title for a record.
pub fn caption(artist: &str, album: &str) -> (title: String)
    ensures
        title@ == caption_of(artist@, album@),
{
    String::from_str(artist).concat(" - ").concat(album)
}

} // verus!
