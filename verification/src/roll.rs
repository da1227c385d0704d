//! The course of the program: which step follows on what has happened.
//!
//! The caller performs what a step asks for (a pick, a request, decoding,
//! showing a picture, waiting for the window) and hands in what came of it.
//! All the deciding is done here.

use vstd::prelude::*;
use crate::catalog::{
    CatalogRow, Selection, SelectionView, ALBUM_IDX, ARTIST_IDX, RELEASE_ID_IDX,
};
use crate::display::{
    caption, caption_of, react, reaction_to, ElementState, MouseButton, Reaction, WindowEvent,
};
use crate::error::{RollError, Severity};
use crate::json::json_document;
use crate::picture::{Bitmap, DecodedImage};
use crate::release::{
    image_request, image_request_spec, image_uri_from_response, image_uri_of_response,
    primary_uri, release_request, release_request_spec, Request, RequestView,
};

verus! {

/// Where the program stands.
#[derive(Debug, PartialEq, Eq)]
pub enum Phase {
    /// Nothing has been asked for yet.
    Idle,
    /// A record is being picked.
    Selecting,
    /// The description of the record's release has been asked for.
    AwaitingMetadata { caption: String },
    /// The image of the release has been asked for.
    AwaitingImage { caption: String },
    /// The bytes of the image are being decoded.
    Decoding { caption: String },
    /// A picture is on the screen.
    Showing,
    /// The program has ended.
    Terminated,
}

/// A phase as characters.
pub ghost enum PhaseView {
    Idle,
    Selecting,
    AwaitingMetadata { caption: Seq<char> },
    AwaitingImage { caption: Seq<char> },
    Decoding { caption: Seq<char> },
    Showing,
    Terminated,
}

impl View for Phase {
    type V = PhaseView;

    open spec fn view(&self) -> PhaseView {
        match self {
            Phase::Idle => PhaseView::Idle,
            Phase::Selecting => PhaseView::Selecting,
            Phase::AwaitingMetadata { caption } => PhaseView::AwaitingMetadata { caption: caption@ },
            Phase::AwaitingImage { caption } => PhaseView::AwaitingImage { caption: caption@ },
            Phase::Decoding { caption } => PhaseView::Decoding { caption: caption@ },
            Phase::Showing => PhaseView::Showing,
            Phase::Terminated => PhaseView::Terminated,
        }
    }
}

/// What has happened since the last step.
#[derive(Debug, PartialEq, Eq)]
pub enum Event {
    /// The program has started.
    Start,
    /// A pick was made in the catalogue.
    Selected(Selection),
    /// A request was answered with success, and with these bytes.
    Response(Vec<u8>),
    /// A request could not be carried out, or was answered without success.
    TransportFailed,
    /// The bytes of the image were decoded, or could not be.
    Decoded(Result<DecodedImage, RollError>),
    /// The window reported something.
    Window(WindowEvent),
}

/// An event as numbers and characters.
pub ghost enum EventView {
    Start,
    Selected(SelectionView),
    Response(Seq<u8>),
    TransportFailed,
    Decoded(Result<Bitmap, RollError>),
    Window(WindowEvent),
}

impl View for Event {
    type V = EventView;

    open spec fn view(&self) -> EventView {
        match self {
            Event::Start => EventView::Start,
            Event::Selected(found) => EventView::Selected(found@),
            Event::Response(body) => EventView::Response(body@),
            Event::TransportFailed => EventView::TransportFailed,
            Event::Decoded(outcome) => EventView::Decoded(
                match outcome {
                    Ok(image) => Ok(image@),
                    Err(e) => Err(*e),
                },
            ),
            Event::Window(event) => EventView::Window(*event),
        }
    }
}

/// What the caller is to do next.
#[derive(Debug, PartialEq, Eq)]
pub enum Action {
    /// Pick a record in the catalogue and hand in `Selected`.
    Select,
    /// Say that the release has no image, then do as for `Select`.
    Reroll,
    /// Perform the request and hand in what `response_event` makes of the
    /// answer, or `TransportFailed` where there is none.
    Fetch(Request),
    /// Decode the bytes with `decode_image` and hand in `Decoded`.
    Decode(Vec<u8>),
    /// Show the picture under the caption, then do as for `Wait`.
    Show { caption: String, image: DecodedImage },
    /// Hand in the next event of the window.
    Wait,
    /// End the program.
    Exit,
    /// End the program with this failure.
    Abort(RollError),
}

/// An action as numbers and characters.
pub ghost enum ActionView {
    Select,
    Reroll,
    Fetch(RequestView),
    Decode(Seq<u8>),
    Show { caption: Seq<char>, image: Bitmap },
    Wait,
    Exit,
    Abort(RollError),
}

impl View for Action {
    type V = ActionView;

    open spec fn view(&self) -> ActionView {
        match self {
            Action::Select => ActionView::Select,
            Action::Reroll => ActionView::Reroll,
            Action::Fetch(request) => ActionView::Fetch(request@),
            Action::Decode(bytes) => ActionView::Decode(bytes@),
            Action::Show { caption, image } => ActionView::Show { caption: caption@, image: image@ },
            Action::Wait => ActionView::Wait,
            Action::Exit => ActionView::Exit,
            Action::Abort(e) => ActionView::Abort(*e),
        }
    }
}

/// What follows on a failure: another pick where it is survived, the end of
/// the program where it is not.
pub open spec fn after_failure(e: RollError) -> (PhaseView, ActionView) {
    if e.spec_severity() == Severity::Recoverable {
        (PhaseView::Selecting, ActionView::Reroll)
    } else {
        (PhaseView::Terminated, ActionView::Abort(e))
    }
}

/// The step that follows on `event` in `phase`.
///
/// - Once terminated, the program stays so.
/// - The start asks for a pick.
/// - A pick with a row asks for the description of its release, under the
///   caption made of its artist and album; a pick without a row is fatal.
/// - The description leads to the request for its first image; where it names
///   none, another record is picked; where it cannot be read, the program ends.
/// - The bytes of the image are given out for decoding, and the picture that
///   comes of it is shown; bytes that cannot be decoded are fatal.
/// - A request that could not be carried out is fatal.
/// - What follows on a failure goes by its severity.
/// - While a picture is shown, the window's events decide.
/// - An event that the phase does not wait for changes nothing.
pub open spec fn step_spec(phase: PhaseView, event: EventView, token: Seq<char>) -> (
    PhaseView,
    ActionView,
) {
    match phase {
        PhaseView::Terminated => (PhaseView::Terminated, ActionView::Exit),
        PhaseView::Idle => match event {
            EventView::Start => (PhaseView::Selecting, ActionView::Select),
            _ => (phase, ActionView::Wait),
        },
        PhaseView::Selecting => match event {
            EventView::Selected(found) => match found.row {
                Some(row) => (
                    PhaseView::AwaitingMetadata {
                        caption: caption_of(row[ARTIST_IDX as int], row[ALBUM_IDX as int]),
                    },
                    ActionView::Fetch(release_request_spec(row[RELEASE_ID_IDX as int], token)),
                ),
                None => (PhaseView::Terminated, ActionView::Abort(RollError::NoRecord)),
            },
            _ => (phase, ActionView::Wait),
        },
        PhaseView::AwaitingMetadata { caption } => match event {
            EventView::Response(body) => match image_uri_of_response(body) {
                Ok(uri) => (
                    PhaseView::AwaitingImage { caption },
                    ActionView::Fetch(image_request_spec(uri)),
                ),
                Err(e) => after_failure(e),
            },
            EventView::TransportFailed => (
                PhaseView::Terminated,
                ActionView::Abort(RollError::Network),
            ),
            _ => (phase, ActionView::Wait),
        },
        PhaseView::AwaitingImage { caption } => match event {
            EventView::Response(body) => (PhaseView::Decoding { caption }, ActionView::Decode(body)),
            EventView::TransportFailed => (
                PhaseView::Terminated,
                ActionView::Abort(RollError::Network),
            ),
            _ => (phase, ActionView::Wait),
        },
        PhaseView::Decoding { caption } => match event {
            EventView::Decoded(outcome) => match outcome {
                Ok(image) => (PhaseView::Showing, ActionView::Show { caption, image }),
                Err(e) => after_failure(e),
            },
            _ => (phase, ActionView::Wait),
        },
        PhaseView::Showing => match event {
            EventView::Window(reported) => match reaction_to(reported) {
                Reaction::Reroll => (PhaseView::Selecting, ActionView::Select),
                Reaction::Quit => (PhaseView::Terminated, ActionView::Exit),
                Reaction::Ignore => (PhaseView::Showing, ActionView::Wait),
            },
            _ => (phase, ActionView::Wait),
        },
    }
}

/// Decides the step that follows on `event` in `phase`. `token` is the token
/// of the user at the remote catalogue.
pub fn step(phase: Phase, event: Event, token: &str) -> (next: (Phase, Action))
    ensures
        (next.0@, next.1@) == step_spec(phase@, event@, token@),
{
    match phase {
        Phase::Terminated => (Phase::Terminated, Action::Exit),
        Phase::Idle => match event {
            Event::Start => (Phase::Selecting, Action::Select),
            _ => (Phase::Idle, Action::Wait),
        },
        Phase::Selecting => match event {
            Event::Selected(found) => match found.row {
                Some(row) => on_row(&row, token),
                None => (Phase::Terminated, Action::Abort(RollError::NoRecord)),
            },
            _ => (Phase::Selecting, Action::Wait),
        },
        Phase::AwaitingMetadata { caption } => match event {
            Event::Response(body) => match image_uri_from_response(body.as_slice()) {
                Ok(uri) => (
                    Phase::AwaitingImage { caption },
                    Action::Fetch(image_request(uri.as_str())),
                ),
                Err(e) => on_failure(e),
            },
            Event::TransportFailed => (Phase::Terminated, Action::Abort(RollError::Network)),
            _ => (Phase::AwaitingMetadata { caption }, Action::Wait),
        },
        Phase::AwaitingImage { caption } => match event {
            Event::Response(body) => (Phase::Decoding { caption }, Action::Decode(body)),
            Event::TransportFailed => (Phase::Terminated, Action::Abort(RollError::Network)),
            _ => (Phase::AwaitingImage { caption }, Action::Wait),
        },
        Phase::Decoding { caption } => match event {
            Event::Decoded(outcome) => match outcome {
                Ok(image) => (Phase::Showing, Action::Show { caption, image }),
                Err(e) => on_failure(e),
            },
            _ => (Phase::Decoding { caption }, Action::Wait),
        },
        Phase::Showing => match event {
            Event::Window(reported) => match react(reported) {
                Reaction::Reroll => (Phase::Selecting, Action::Select),
                Reaction::Quit => (Phase::Terminated, Action::Exit),
                Reaction::Ignore => (Phase::Showing, Action::Wait),
            },
            _ => (Phase::Showing, Action::Wait),
        },
    }
}

/// The step after a failure.
fn on_failure(e: RollError) -> (next: (Phase, Action))
    ensures
        (next.0@, next.1@) == after_failure(e),
{
    match e.severity() {
        Severity::Recoverable => (Phase::Selecting, Action::Reroll),
        Severity::Fatal => (Phase::Terminated, Action::Abort(e)),
    }
}

/// The event that the answer to a request is: its bytes where the status
/// says success, a failed request for every other status.
pub open spec fn response_event_spec(status: u32, body: Seq<u8>) -> EventView {
    if 200 <= status <= 299 {
        EventView::Response(body)
    } else {
        EventView::TransportFailed
    }
}

/// Makes the event of the answer to a request. Only a status from 200 to 299
/// is a success; the bytes of any other answer are not looked at.
pub fn response_event(status: u32, body: Vec<u8>) -> (event: Event)
    ensures
        event@ == response_event_spec(status, body@),
{
    if 200 <= status && status <= 299 {
        Event::Response(body)
    } else {
        Event::TransportFailed
    }
}

/// The step for a row that was picked.
fn on_row(row: &CatalogRow, token: &str) -> (next: (Phase, Action))
    ensures
        next.0@ == (PhaseView::AwaitingMetadata {
            caption: caption_of(row@[ARTIST_IDX as int], row@[ALBUM_IDX as int]),
        }),
        next.1@ == ActionView::Fetch(release_request_spec(row@[RELEASE_ID_IDX as int], token@)),
{
    let title = caption(row.artist(), row.album());
    let request = release_request(row.release_id(), token);
    (Phase::AwaitingMetadata { caption: title }, Action::Fetch(request))
}

/// The number of picks that are asked for when `events` come in one after
/// another, the first of them in `phase`.
pub open spec fn picks_asked(phase: PhaseView, events: Seq<EventView>, token: Seq<char>) -> nat
    decreases events.len(),
{
    if events.len() == 0 {
        0
    } else {
        let next = step_spec(phase, events[0], token);
        let asked: nat = if next.1 is Select || next.1 is Reroll {
            1
        } else {
            0
        };
        asked + picks_asked(next.0, events.drop_first(), token)
    }
}

/// The phase that is reached when `events` come in one after another, the
/// first of them in `phase`.
pub open spec fn phase_after(phase: PhaseView, events: Seq<EventView>, token: Seq<char>) -> PhaseView
    decreases events.len(),
{
    if events.len() == 0 {
        phase
    } else {
        phase_after(step_spec(phase, events[0], token).0, events.drop_first(), token)
    }
}

/// After the end nothing happens any more: whatever comes in, the program
/// stays terminated and no pick is asked for.
pub proof fn lemma_terminated_is_absorbing(events: Seq<EventView>, token: Seq<char>)
    ensures
        phase_after(PhaseView::Terminated, events, token) == PhaseView::Terminated,
        picks_asked(PhaseView::Terminated, events, token) == 0,
    decreases events.len(),
{
    if events.len() > 0 {
        lemma_terminated_is_absorbing(events.drop_first(), token);
    }
}

/// While a picture is shown, a press of the left button asks for exactly one
/// pick.
pub proof fn lemma_left_press_asks_for_one_pick(token: Seq<char>)
    ensures
        ({
            let press = EventView::Window(
                WindowEvent::MouseButton {
                    button: MouseButton::Left,
                    state: ElementState::Pressed,
                },
            );
            &&& step_spec(PhaseView::Showing, press, token) == (
                PhaseView::Selecting,
                ActionView::Select,
            )
            &&& picks_asked(PhaseView::Showing, seq![press], token) == 1
        }),
{
    let press = EventView::Window(
        WindowEvent::MouseButton { button: MouseButton::Left, state: ElementState::Pressed },
    );
    assert(seq![press].drop_first() =~= Seq::<EventView>::empty());
    assert(picks_asked(PhaseView::Selecting, Seq::<EventView>::empty(), token) == 0);
}

/// While a picture is shown, a request to close its window ends the program,
/// and no pick is asked for then or after, whatever comes in.
pub proof fn lemma_close_request_ends_picking(later: Seq<EventView>, token: Seq<char>)
    ensures
        ({
            let close = EventView::Window(WindowEvent::CloseRequested { active_window: true });
            &&& step_spec(PhaseView::Showing, close, token) == (
                PhaseView::Terminated,
                ActionView::Exit,
            )
            &&& phase_after(PhaseView::Showing, seq![close] + later, token)
                == PhaseView::Terminated
            &&& picks_asked(PhaseView::Showing, seq![close] + later, token) == 0
        }),
{
    let close = EventView::Window(WindowEvent::CloseRequested { active_window: true });
    assert((seq![close] + later).drop_first() =~= later);
    assert((seq![close] + later)[0] == close);
    lemma_terminated_is_absorbing(later, token);
}

/// An answer without success ends the program as a failed request does,
/// whatever its bytes are: they are not read, and nothing more is fetched.
pub proof fn lemma_unsuccessful_answer_is_fatal(
    caption: Seq<char>,
    status: u32,
    body: Seq<u8>,
    token: Seq<char>,
)
    requires
        status < 200 || status > 299,
    ensures
        step_spec(
            PhaseView::AwaitingMetadata { caption },
            response_event_spec(status, body),
            token,
        ) == (PhaseView::Terminated, ActionView::Abort(RollError::Network)),
        step_spec(
            PhaseView::AwaitingImage { caption },
            response_event_spec(status, body),
            token,
        ) == (PhaseView::Terminated, ActionView::Abort(RollError::Network)),
{
}

/// An answer that is a JSON text and names no first image does not end the
/// program: another record is picked.
pub proof fn lemma_release_without_image_is_rerolled(
    caption: Seq<char>,
    body: Seq<u8>,
    token: Seq<char>,
)
    requires
        json_document(body) matches Some(doc) && primary_uri(doc) is None,
    ensures
        image_uri_of_response(body) == Err::<Seq<char>, RollError>(RollError::NoImage),
        step_spec(PhaseView::AwaitingMetadata { caption }, EventView::Response(body), token) == (
            PhaseView::Selecting,
            ActionView::Reroll,
        ),
{
}

} // verus!
