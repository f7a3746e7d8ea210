//! The commands of the protocol, one to a line.

use vstd::prelude::*;
use crate::number::{decimal_u32, lemma_decimal_round_trip};
use crate::pixel::{
    is_px, lemma_color_round_trip, lemma_coordinate_words, lemma_pixel_words, px, Color,
    Coordinate, ParseColorError, ParseCoordinateError, ParsePixelError, Pixel,
};
use crate::text::{words, Words};

verus! {

/// Why a line is no command.
#[derive(Copy, Clone, PartialEq, Eq, Structural, Hash, Debug)]
pub enum InvalidReason {
    /// The line is empty, or its first word is none of `PX`, `SIZE`, `HELP`.
    UnknownVerb,
    /// The first word is a verb, but the number of words after it is none
    /// that the verb takes.
    WrongArity,
    /// A coordinate is no decimal numeral, or one too large for a `u32`.
    BadInteger,
    /// The color is none: it has the wrong length, or holds something that
    /// is no hexadecimal digit.
    BadColor { source: ParseColorError },
}

/// What one line asks for.
#[derive(Copy, Clone, PartialEq, Eq, Structural, Hash, Debug)]
pub enum Command {
    /// `PX <x> <y> <color>`: set the color of one pixel.
    Draw(Pixel),
    /// `PX <x> <y>`: report the pixel at a coordinate.
    Query(Coordinate),
    /// `SIZE`: report the size of the canvas.
    ReportSize,
    /// `HELP`: report how the protocol is used.
    Help,
    /// Anything else.
    Invalid(InvalidReason),
}

/// The verb `SIZE`.
pub open spec fn size_verb() -> Seq<char> {
    seq!['S', 'I', 'Z', 'E']
}

/// The verb `HELP`.
pub open spec fn help_verb() -> Seq<char> {
    seq!['H', 'E', 'L', 'P']
}

/// The command that a line of the words `w` gives. The first word is the
/// verb, which is read as it is written, in upper case. The number of words
/// after it decides between the two forms of `PX`, and is checked before
/// any word is read: two make a query, three a draw. `SIZE` and `HELP` stand
/// alone. In a `PX` line the first fault from the left decides the reason.
pub open spec fn command_of(w: Seq<Seq<char>>) -> Command {
    if w.len() == 0 {
        Command::Invalid(InvalidReason::UnknownVerb)
    } else if w[0] == px() {
        if w.len() != 3 && w.len() != 4 {
            Command::Invalid(InvalidReason::WrongArity)
        } else {
            match (decimal_u32(w[1]), decimal_u32(w[2])) {
                (Some(x), Some(y)) => if w.len() == 3 {
                    Command::Query(Coordinate { x, y })
                } else {
                    match Color::spec_parse(w[3]) {
                        Ok(color) => Command::Draw(
                            Pixel { coordinate: Coordinate { x, y }, color },
                        ),
                        Err(source) => Command::Invalid(InvalidReason::BadColor { source }),
                    }
                },
                _ => Command::Invalid(InvalidReason::BadInteger),
            }
        }
    } else if w[0] == size_verb() || w[0] == help_verb() {
        if w.len() != 1 {
            Command::Invalid(InvalidReason::WrongArity)
        } else if w[0] == size_verb() {
            Command::ReportSize
        } else {
            Command::Help
        }
    } else {
        Command::Invalid(InvalidReason::UnknownVerb)
    }
}

/// The command that the line `line` gives.
pub open spec fn spec_parse(line: Seq<char>) -> Command {
    command_of(words(line))
}

/// Whether `word` is `SIZE`.
fn is_size(word: &[char]) -> (same: bool)
    ensures
        same == (word@ == size_verb()),
{
    let same = word.len() == 4 && word[0] == 'S' && word[1] == 'I' && word[2] == 'Z' && word[3]
        == 'E';
    assert(same == (word@ =~= size_verb()));
    same
}

/// Whether `word` is `HELP`.
fn is_help(word: &[char]) -> (same: bool)
    ensures
        same == (word@ == help_verb()),
{
    let same = word.len() == 4 && word[0] == 'H' && word[1] == 'E' && word[2] == 'L' && word[3]
        == 'P';
    assert(same == (word@ =~= help_verb()));
    same
}

/// Reads the command of one line. Every line gives one: what is no command
/// of the protocol gives `Invalid`, with the reason.
pub fn parse(line: &str) -> (command: Command)
    ensures
        command == spec_parse(line@),
{
    let cut = Words::split(line);
    let n: usize = cut.len();
    if n == 0 {
        return Command::Invalid(InvalidReason::UnknownVerb);
    }
    let verb = cut.word(0);
    if is_px(verb) {
        if n == 3 {
            match Coordinate::read(&cut) {
                Ok(coordinate) => Command::Query(coordinate),
                Err(ParseCoordinateError::ParseInt) => Command::Invalid(InvalidReason::BadInteger),
                Err(ParseCoordinateError::WrongFormat) => Command::Invalid(
                    InvalidReason::WrongArity,
                ),
            }
        } else if n == 4 {
            match Pixel::read(&cut) {
                Ok(pixel) => Command::Draw(pixel),
                Err(ParsePixelError::ParseInt) => Command::Invalid(InvalidReason::BadInteger),
                Err(ParsePixelError::ParseColor { source }) => Command::Invalid(
                    InvalidReason::BadColor { source },
                ),
                Err(ParsePixelError::WrongFormat) => Command::Invalid(InvalidReason::WrongArity),
            }
        } else {
            Command::Invalid(InvalidReason::WrongArity)
        }
    } else if is_size(verb) {
        if n == 1 {
            Command::ReportSize
        } else {
            Command::Invalid(InvalidReason::WrongArity)
        }
    } else if is_help(verb) {
        if n == 1 {
            Command::Help
        } else {
            Command::Invalid(InvalidReason::WrongArity)
        }
    } else {
        Command::Invalid(InvalidReason::UnknownVerb)
    }
}

/// A line draws a pixel exactly where it reads as that pixel, and asks for
/// a coordinate exactly where it reads as that coordinate.
pub proof fn lemma_command_agrees(line: Seq<char>)
    ensures
        forall|pixel: Pixel|
            spec_parse(line) == Command::Draw(pixel) <==> Pixel::spec_parse(line) == Ok::<
                Pixel,
                ParsePixelError,
            >(pixel),
        forall|coordinate: Coordinate|
            spec_parse(line) == Command::Query(coordinate) <==> Coordinate::spec_parse(line) == Ok::<
                Coordinate,
                ParseCoordinateError,
            >(coordinate),
{
}

/// A pixel as the protocol writes it is the command to draw that pixel.
pub proof fn lemma_draw_round_trip(pixel: Pixel)
    ensures
        spec_parse(pixel.text()) == Command::Draw(pixel),
{
    lemma_pixel_words(pixel);
    lemma_decimal_round_trip(pixel.coordinate.x as nat);
    lemma_decimal_round_trip(pixel.coordinate.y as nat);
    lemma_color_round_trip(pixel.color);
}

/// A coordinate as the protocol writes it is the query for that coordinate.
pub proof fn lemma_query_round_trip(coordinate: Coordinate)
    ensures
        spec_parse(coordinate.text()) == Command::Query(coordinate),
{
    lemma_coordinate_words(coordinate);
    lemma_decimal_round_trip(coordinate.x as nat);
    lemma_decimal_round_trip(coordinate.y as nat);
}

} // verus!
