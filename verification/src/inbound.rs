//! Inbound frames: what the client does with each frame the server sends.

use vstd::prelude::*;
use crate::render::color_reset;
use crate::render::render_line;
use crate::render::rgb_chars;

verus! {

/// A frame received from the server, reduced to what the client reads of it.
pub enum Inbound {
    /// A text frame with its body.
    Text(String),
    /// A close frame; its code and reason are not read.
    Close,
    /// Any other frame kind (binary, ping, pong), carried as its textual
    /// representation: its UTF-8 payload, or a placeholder description.
    Other(String),
}

/// The mathematical model of an inbound frame.
pub enum FrameModel {
    /// A text frame with its body.
    Text(Seq<char>),
    /// A close frame.
    Close,
    /// Any other frame kind, as its textual representation.
    Other(Seq<char>),
}

impl View for Inbound {
    type V = FrameModel;

    open spec fn view(&self) -> FrameModel {
        match self {
            Inbound::Text(t) => FrameModel::Text(t@),
            Inbound::Close => FrameModel::Close,
            Inbound::Other(t) => FrameModel::Other(t@),
        }
    }
}

/// What the client does in response to one inbound frame.
pub enum Action {
    /// Write this text to standard output.
    Print(String),
    /// Write this completion notice to standard output and end the
    /// process with a success status.
    Disconnect(String),
}

/// The mathematical model of a response.
pub enum ActionModel {
    /// Write this text to standard output.
    Print(Seq<char>),
    /// Write this notice and end the process successfully.
    Disconnect(Seq<char>),
}

impl View for Action {
    type V = ActionModel;

    open spec fn view(&self) -> ActionModel {
        match self {
            Action::Print(t) => ActionModel::Print(t@),
            Action::Disconnect(t) => ActionModel::Disconnect(t@),
        }
    }
}

/// The notice printed when the server closes the session.
pub open spec fn completion_chars() -> Seq<char> {
    "Close Frame Received. Disconnection Complete.\n"@
}

/// The response owed to one inbound frame: a close frame ends the session
/// behind the completion notice, and every other frame is printed as one
/// line — its textual representation wrapped in a pure red color escape.
pub open spec fn action_of(f: FrameModel) -> ActionModel {
    match f {
        FrameModel::Text(t) => ActionModel::Print(
            rgb_chars(255, 0, 0) + t + color_reset() + seq!['\n'],
        ),
        FrameModel::Close => ActionModel::Disconnect(completion_chars()),
        FrameModel::Other(t) => ActionModel::Print(
            rgb_chars(255, 0, 0) + t + color_reset() + seq!['\n'],
        ),
    }
}

/// Decide what the client does with one inbound frame.
pub fn handle_inbound(frame: &Inbound) -> (r: Action)
    ensures
        r@ == action_of(frame@),
{
    match frame {
        Inbound::Text(t) => Action::Print(render_line(t.as_str())),
        Inbound::Close => Action::Disconnect(
            String::from_str("Close Frame Received. Disconnection Complete.\n"),
        ),
        Inbound::Other(t) => Action::Print(render_line(t.as_str())),
    }
}

} // verus!
