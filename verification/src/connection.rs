//! What a connection does with each line it reads.
//!
//! A connection keeps nothing from one line to the next. For each line it
//! learns here what to do: hand a pixel to the draw queue, ask the canvas
//! and write what it answered, write a fixed text, or close. Reading and
//! writing the stream, and waiting for the queue and the canvas, are the
//! caller's.

use vstd::prelude::*;
use crate::command::{Command, InvalidReason};
use crate::grid::{Grid, Size};
use crate::pixel::{Coordinate, Pixel};

verus! {

/// The usage text that `HELP` is answered with when no other is configured.
pub const HELP: &'static str =
    "HELP Pixelflut Commands:\nHELP - PX <x> <y> <RRGGBB[AA]>\nHELP - PX <x> <y>   >>  PX <x> <y> <RRGGBB>\nHELP - SIZE         >>  SIZE <width> <height>\nHELP - HELP         >>  HELP ...";

/// The end of a line.
pub open spec fn newline() -> Seq<char> {
    seq!['\n']
}

/// What a connection wants to know of the canvas.
#[derive(Copy, Clone, PartialEq, Eq, Structural, Hash, Debug)]
pub enum Question {
    /// The pixel at a coordinate.
    PixelAt(Coordinate),
    /// The size of the canvas.
    Size,
}

/// What a connection does for one line.
#[derive(PartialEq, Eq, Debug)]
pub enum Action {
    /// Hand the pixel to the draw queue, waiting while the queue is full,
    /// and write nothing.
    Enqueue(Pixel),
    /// Ask the canvas and write the reply, if there is one.
    Ask(Question),
    /// Write the text.
    Write(String),
    /// Close the connection, for the reason given.
    Close(InvalidReason),
}

/// An `Action` as a mathematical value: the text to write is a sequence of
/// characters.
pub enum ActionView {
    Enqueue(Pixel),
    Ask(Question),
    Write(Seq<char>),
    Close(InvalidReason),
}

impl View for Action {
    type V = ActionView;

    open spec fn view(&self) -> ActionView {
        match self {
            Action::Enqueue(pixel) => ActionView::Enqueue(*pixel),
            Action::Ask(question) => ActionView::Ask(*question),
            Action::Write(text) => ActionView::Write(text@),
            Action::Close(reason) => ActionView::Close(*reason),
        }
    }
}

/// What a connection does for `command`, where `help` is the usage text:
/// a draw goes to the queue; a query and `SIZE` go to the canvas; `HELP` is
/// answered with the usage text and a newline; a line that is no command
/// closes the connection.
pub open spec fn action_for(command: Command, help: Seq<char>) -> ActionView {
    match command {
        Command::Draw(pixel) => ActionView::Enqueue(pixel),
        Command::Query(coordinate) => ActionView::Ask(Question::PixelAt(coordinate)),
        Command::ReportSize => ActionView::Ask(Question::Size),
        Command::Help => ActionView::Write(help + newline()),
        Command::Invalid(reason) => ActionView::Close(reason),
    }
}

/// The line that answers a query: the pixel that was found, as the protocol
/// writes it, and a newline; nothing where none was found.
pub open spec fn query_reply_text(found: Option<Pixel>) -> Option<Seq<char>> {
    match found {
        Some(pixel) => Some(pixel.text() + newline()),
        None => None,
    }
}

/// The line that answers `SIZE`: the size as the protocol writes it, and a
/// newline.
pub open spec fn size_reply_text(size: Size) -> Seq<char> {
    size.text() + newline()
}

/// The characters of a reply, if there is one.
pub open spec fn reply_text(reply: Option<String>) -> Option<Seq<char>> {
    match reply {
        Some(text) => Some(text@),
        None => None,
    }
}

/// Whether `reply` answers `question` from what `grid` may report: for a
/// pixel, the reply to something that `fetch` may report there; for the
/// size, the reply to a size that `size` may report.
pub open spec fn answers<G: Grid>(grid: &G, question: Question, reply: Option<Seq<char>>) -> bool {
    match question {
        Question::PixelAt(coordinate) => exists|found: Option<Pixel>|
            #[trigger] grid.shows(coordinate, found) && reply == query_reply_text(found),
        Question::Size => exists|size: Size| #[trigger]
            grid.measures(size) && reply == Some(size_reply_text(size)),
    }
}

/// What a connection does for `command`.
pub fn act(command: Command, help: &str) -> (action: Action)
    ensures
        action@ == action_for(command, help@),
{
    match command {
        Command::Draw(pixel) => Action::Enqueue(pixel),
        Command::Query(coordinate) => Action::Ask(Question::PixelAt(coordinate)),
        Command::ReportSize => Action::Ask(Question::Size),
        Command::Help => Action::Write(help_reply(help)),
        Command::Invalid(reason) => Action::Close(reason),
    }
}

/// What a connection does for the line `line`.
pub fn on_line(line: &str, help: &str) -> (action: Action)
    ensures
        action@ == action_for(crate::command::spec_parse(line@), help@),
{
    act(crate::command::parse(line), help)
}

/// The reply to `HELP`: the usage text and a newline.
pub fn help_reply(help: &str) -> (reply: String)
    ensures
        reply@ == help@ + newline(),
{
    proof {
        reveal_strlit("\n");
    }
    let mut reply = String::new();
    reply.append(help);
    reply.append("\n");
    reply
}

/// The reply to a query, given what the canvas reported.
pub fn query_reply(found: Option<Pixel>) -> (reply: Option<String>)
    ensures
        reply_text(reply) == query_reply_text(found),
{
    match found {
        Some(pixel) => {
            proof {
                reveal_strlit("\n");
            }
            let mut reply = pixel.to_string();
            reply.append("\n");
            Some(reply)
        },
        None => None,
    }
}

/// The reply to `SIZE`, given the size that the canvas reported.
pub fn size_reply(size: Size) -> (reply: String)
    ensures
        reply@ == size_reply_text(size),
{
    proof {
        reveal_strlit("\n");
    }
    let mut reply = size.to_string();
    reply.append("\n");
    reply
}

/// Asks `grid` what `question` wants to know, with one call of `fetch` or of
/// `size`, and gives the reply to write. The canvas is only read.
pub fn answer<G: Grid>(grid: &G, question: Question) -> (reply: Option<String>)
    ensures
        answers(grid, question, reply_text(reply)),
{
    match question {
        Question::PixelAt(coordinate) => {
            let found = grid.fetch(coordinate);
            query_reply(found)
        },
        Question::Size => {
            let size = grid.size();
            Some(size_reply(size))
        },
    }
}

} // verus!
