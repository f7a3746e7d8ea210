//! Pixels, their coordinates and colors.

use vstd::prelude::*;
use crate::number::{
    decimal_digits, decimal_u32, hex_byte, hex_digits, lemma_decimal_is_word,
    lemma_decimal_round_trip, lemma_hex_digits_no_space, lemma_hex_round_trip, parse_hex_byte,
    parse_u32, push_decimal, push_hex,
};
use crate::text::{chars_of, is_word, lemma_words_next_word, lemma_words_of_word, words, Words};

verus! {

/// The word that begins a line about a pixel: `PX`.
pub open spec fn px() -> Seq<char> {
    seq!['P', 'X']
}

/// One blank, as it stands between the words of a formatted line.
pub open spec fn blank() -> Seq<char> {
    seq![' ']
}

/// Whether `word` is `PX`.
pub fn is_px(word: &[char]) -> (same: bool)
    ensures
        same == (word@ == px()),
{
    let same = word.len() == 2 && word[0] == 'P' && word[1] == 'X';
    assert(same == (word@ =~= px()));
    same
}

/// Why a text is no color.
#[derive(Copy, Clone, PartialEq, Eq, Structural, Hash, Debug)]
pub enum ParseColorError {
    /// It has the length of a color, but not every character is a
    /// hexadecimal digit.
    ParseInt,
    /// It has neither six characters nor eight.
    WrongSize,
}

/// Why a text is no coordinate.
#[derive(Copy, Clone, PartialEq, Eq, Structural, Hash, Debug)]
pub enum ParseCoordinateError {
    /// A word that should be a number is no decimal numeral, or one too
    /// large for a `u32`.
    ParseInt,
    /// The text does not begin with `PX`, or has too few or too many words.
    WrongFormat,
}

/// Why a text is no pixel.
#[derive(Copy, Clone, PartialEq, Eq, Structural, Hash, Debug)]
pub enum ParsePixelError {
    /// A word that should be a number is no decimal numeral, or one too
    /// large for a `u32`.
    ParseInt,
    /// The word that should be a color is none.
    ParseColor { source: ParseColorError },
    /// The text does not begin with `PX`, or has too few or too many words.
    WrongFormat,
}

/// Coordinates to uniquely determine the position of a Pixel.
#[derive(Copy, Clone, PartialEq, Eq, Structural, Hash, Debug)]
pub struct Coordinate {
    pub x: u32,
    pub y: u32,
}

impl Coordinate {
    /// Creates a new Coordinate for the given x and y values.
    pub fn new(x: u32, y: u32) -> (coordinate: Coordinate)
        ensures
            coordinate == (Coordinate { x, y }),
    {
        Coordinate { x, y }
    }

    /// Returns the x value of this Coordinate.
    pub fn x(&self) -> (x: u32)
        ensures
            x == self.x,
    {
        self.x
    }

    /// Returns the y value of this Coordinate.
    pub fn y(&self) -> (y: u32)
        ensures
            y == self.y,
    {
        self.y
    }

    /// The coordinate as the protocol writes it: `PX`, then x and y in
    /// decimal, one blank between each two.
    pub open spec fn text(self) -> Seq<char> {
        px() + blank() + decimal_digits(self.x as nat) + blank() + decimal_digits(self.y as nat)
    }

    /// The coordinate that a line of the words `w` asks for. The words are
    /// read from the left, and the first fault found decides: a first word
    /// that is not `PX`, or a word that is missing, is a wrong format; a
    /// second or third word that is no `u32` is no number; a fourth word is
    /// a wrong format again.
    pub open spec fn from_words(w: Seq<Seq<char>>) -> Result<Coordinate, ParseCoordinateError> {
        if w.len() < 2 || w[0] != px() {
            Err(ParseCoordinateError::WrongFormat)
        } else if decimal_u32(w[1]) is None {
            Err(ParseCoordinateError::ParseInt)
        } else if w.len() < 3 {
            Err(ParseCoordinateError::WrongFormat)
        } else if decimal_u32(w[2]) is None {
            Err(ParseCoordinateError::ParseInt)
        } else if w.len() > 3 {
            Err(ParseCoordinateError::WrongFormat)
        } else {
            Ok(Coordinate { x: decimal_u32(w[1])->0, y: decimal_u32(w[2])->0 })
        }
    }

    /// The coordinate that the line `s` asks for.
    pub open spec fn spec_parse(s: Seq<char>) -> Result<Coordinate, ParseCoordinateError> {
        Coordinate::from_words(words(s))
    }

    /// Reads a coordinate from a line cut into words.
    pub fn read(line: &Words) -> (coordinate: Result<Coordinate, ParseCoordinateError>)
        ensures
            coordinate == Coordinate::from_words(line@),
    {
        let n: usize = line.len();
        if n < 2 || !is_px(line.word(0)) {
            return Err(ParseCoordinateError::WrongFormat);
        }
        let x = match parse_u32(line.word(1)) {
            Some(x) => x,
            None => {
                return Err(ParseCoordinateError::ParseInt);
            },
        };
        if n < 3 {
            return Err(ParseCoordinateError::WrongFormat);
        }
        let y = match parse_u32(line.word(2)) {
            Some(y) => y,
            None => {
                return Err(ParseCoordinateError::ParseInt);
            },
        };
        if n > 3 {
            return Err(ParseCoordinateError::WrongFormat);
        }
        Ok(Coordinate { x, y })
    }

    /// Reads a coordinate from a line of the form `PX <x> <y>`.
    pub fn parse(s: &str) -> (coordinate: Result<Coordinate, ParseCoordinateError>)
        ensures
            coordinate == Coordinate::spec_parse(s@),
    {
        let line = Words::split(s);
        Coordinate::read(&line)
    }

    /// Writes the coordinate at the end of `out`.
    pub fn push_text(&self, out: &mut String)
        ensures
            final(out)@ == old(out)@ + self.text(),
    {
        proof {
            reveal_strlit("PX ");
            reveal_strlit(" ");
        }
        out.append("PX ");
        push_decimal(out, self.x as u64);
        out.append(" ");
        push_decimal(out, self.y as u64);
    }

    /// The coordinate as the protocol writes it.
    pub fn to_string(&self) -> (text: String)
        ensures
            text@ == self.text(),
    {
        let mut text = String::new();
        self.push_text(&mut text);
        text
    }
}

impl core::str::FromStr for Coordinate {
    type Err = ParseCoordinateError;

    fn from_str(s: &str) -> (coordinate: Result<Coordinate, ParseCoordinateError>)
        ensures
            coordinate == Coordinate::spec_parse(s@),
    {
        Coordinate::parse(s)
    }
}

/// The Color which is used for a Pixel: red, green and blue, with or
/// without an alpha channel.
#[derive(Copy, Clone, PartialEq, Eq, Structural, Hash, Debug)]
pub struct Color {
    pub r: u8,
    pub g: u8,
    pub b: u8,
    pub a: Option<u8>,
}

impl Color {
    /// Creates a new Color without an alpha channel.
    pub fn rgb(r: u8, g: u8, b: u8) -> (color: Color)
        ensures
            color == (Color { r, g, b, a: None }),
    {
        Color { r, g, b, a: None }
    }

    /// Creates a new Color with an alpha channel.
    pub fn rgba(r: u8, g: u8, b: u8, a: u8) -> (color: Color)
        ensures
            color == (Color { r, g, b, a: Some(a) }),
    {
        Color { r, g, b, a: Some(a) }
    }

    /// Returns the rgb values of this Color.
    pub fn rgb_values(&self) -> (values: (u8, u8, u8))
        ensures
            values == (self.r, self.g, self.b),
    {
        (self.r, self.g, self.b)
    }

    /// Returns the rgb and the alpha value of this Color.
    pub fn rgba_values(&self) -> (values: (u8, u8, u8, Option<u8>))
        ensures
            values == (self.r, self.g, self.b, self.a),
    {
        (self.r, self.g, self.b, self.a)
    }

    /// Returns `true` if this Color doesn't have an alpha channel.
    pub fn is_rgb(&self) -> (plain: bool)
        ensures
            plain == (self.a is None),
    {
        self.a.is_none()
    }

    /// Returns `true` if this Color does have an alpha channel.
    pub fn is_rgba(&self) -> (alpha: bool)
        ensures
            alpha == (self.a is Some),
    {
        self.a.is_some()
    }

    /// The color as the protocol writes it: two lower-case hexadecimal
    /// digits for each of red, green and blue, and two more for the alpha
    /// channel where the color has one.
    pub open spec fn text(self) -> Seq<char> {
        let rgb = hex_digits(self.r) + hex_digits(self.g) + hex_digits(self.b);
        match self.a {
            Some(a) => rgb + hex_digits(a),
            None => rgb,
        }
    }

    /// The color that `s` writes. Six hexadecimal digits are a color without
    /// an alpha channel, eight are one with it; upper and lower case both
    /// count. A text of another length has the wrong size; one of the right
    /// length that holds anything but hexadecimal digits is no number.
    pub open spec fn spec_parse(s: Seq<char>) -> Result<Color, ParseColorError> {
        if s.len() == 6 {
            match (hex_byte(s[0], s[1]), hex_byte(s[2], s[3]), hex_byte(s[4], s[5])) {
                (Some(r), Some(g), Some(b)) => Ok(Color { r, g, b, a: None }),
                _ => Err(ParseColorError::ParseInt),
            }
        } else if s.len() == 8 {
            match (
                hex_byte(s[0], s[1]),
                hex_byte(s[2], s[3]),
                hex_byte(s[4], s[5]),
                hex_byte(s[6], s[7]),
            ) {
                (Some(r), Some(g), Some(b), Some(a)) => Ok(Color { r, g, b, a: Some(a) }),
                _ => Err(ParseColorError::ParseInt),
            }
        } else {
            Err(ParseColorError::WrongSize)
        }
    }

    /// Reads a color from the characters of one word.
    pub fn from_chars(word: &[char]) -> (color: Result<Color, ParseColorError>)
        ensures
            color == Color::spec_parse(word@),
    {
        let n: usize = word.len();
        if n != 6 && n != 8 {
            return Err(ParseColorError::WrongSize);
        }
        let r = parse_hex_byte(word[0], word[1]);
        let g = parse_hex_byte(word[2], word[3]);
        let b = parse_hex_byte(word[4], word[5]);
        if n == 6 {
            match (r, g, b) {
                (Some(r), Some(g), Some(b)) => Ok(Color { r, g, b, a: None }),
                _ => Err(ParseColorError::ParseInt),
            }
        } else {
            let a = parse_hex_byte(word[6], word[7]);
            match (r, g, b, a) {
                (Some(r), Some(g), Some(b), Some(a)) => Ok(Color { r, g, b, a: Some(a) }),
                _ => Err(ParseColorError::ParseInt),
            }
        }
    }

    /// Reads a color.
    pub fn parse(s: &str) -> (color: Result<Color, ParseColorError>)
        ensures
            color == Color::spec_parse(s@),
    {
        let chars = chars_of(s);
        Color::from_chars(chars.as_slice())
    }

    /// Writes the color at the end of `out`.
    pub fn push_text(&self, out: &mut String)
        ensures
            final(out)@ == old(out)@ + self.text(),
    {
        push_hex(out, self.r);
        push_hex(out, self.g);
        push_hex(out, self.b);
        match self.a {
            Some(a) => {
                push_hex(out, a);
            },
            None => {},
        }
    }

    /// The color as the protocol writes it.
    pub fn to_string(&self) -> (text: String)
        ensures
            text@ == self.text(),
    {
        let mut text = String::new();
        self.push_text(&mut text);
        text
    }
}

impl core::str::FromStr for Color {
    type Err = ParseColorError;

    fn from_str(s: &str) -> (color: Result<Color, ParseColorError>)
        ensures
            color == Color::spec_parse(s@),
    {
        Color::parse(s)
    }
}

/// A color as the protocol writes it is one word.
pub proof fn lemma_color_text_is_word(color: Color)
    ensures
        is_word(color.text()),
{
    lemma_hex_digits_no_space(color.r);
    lemma_hex_digits_no_space(color.g);
    lemma_hex_digits_no_space(color.b);
    if let Some(a) = color.a {
        lemma_hex_digits_no_space(a);
    }
}

/// A color that was written reads back as itself, with an alpha channel
/// exactly where it had one.
pub proof fn lemma_color_round_trip(color: Color)
    ensures
        Color::spec_parse(color.text()) == Ok::<Color, ParseColorError>(color),
{
    lemma_hex_round_trip(color.r);
    lemma_hex_round_trip(color.g);
    lemma_hex_round_trip(color.b);
    if let Some(a) = color.a {
        lemma_hex_round_trip(a);
    }
}

/// A Pixel: where on the Grid it is, and how it looks.
#[derive(Copy, Clone, PartialEq, Eq, Structural, Hash, Debug)]
pub struct Pixel {
    pub coordinate: Coordinate,
    pub color: Color,
}

impl Pixel {
    /// Creates a new Pixel with the given Coordinate and Color.
    pub fn new(coordinate: Coordinate, color: Color) -> (pixel: Pixel)
        ensures
            pixel == (Pixel { coordinate, color }),
    {
        Pixel { coordinate, color }
    }

    /// Returns the Coordinates of this Pixel.
    pub fn coordinate(&self) -> (coordinate: &Coordinate)
        ensures
            *coordinate == self.coordinate,
    {
        &self.coordinate
    }

    /// Returns the Color of this Pixel.
    pub fn color(&self) -> (color: &Color)
        ensures
            *color == self.color,
    {
        &self.color
    }

    /// The pixel as the protocol writes it: its coordinate, a blank, its
    /// color.
    pub open spec fn text(self) -> Seq<char> {
        self.coordinate.text() + blank() + self.color.text()
    }

    /// The pixel that a line of the words `w` draws. The words are read from
    /// the left, and the first fault found decides: a first word that is not
    /// `PX`, or a word that is missing, is a wrong format; a second or third
    /// word that is no `u32` is no number; a fourth word that is no color
    /// carries the color's fault; a fifth word is a wrong format again.
    pub open spec fn from_words(w: Seq<Seq<char>>) -> Result<Pixel, ParsePixelError> {
        if w.len() < 2 || w[0] != px() {
            Err(ParsePixelError::WrongFormat)
        } else if decimal_u32(w[1]) is None {
            Err(ParsePixelError::ParseInt)
        } else if w.len() < 3 {
            Err(ParsePixelError::WrongFormat)
        } else if decimal_u32(w[2]) is None {
            Err(ParsePixelError::ParseInt)
        } else if w.len() < 4 {
            Err(ParsePixelError::WrongFormat)
        } else {
            match Color::spec_parse(w[3]) {
                Err(source) => Err(ParsePixelError::ParseColor { source }),
                Ok(color) => if w.len() > 4 {
                    Err(ParsePixelError::WrongFormat)
                } else {
                    Ok(
                        Pixel {
                            coordinate: Coordinate {
                                x: decimal_u32(w[1])->0,
                                y: decimal_u32(w[2])->0,
                            },
                            color,
                        },
                    )
                },
            }
        }
    }

    /// The pixel that the line `s` draws.
    pub open spec fn spec_parse(s: Seq<char>) -> Result<Pixel, ParsePixelError> {
        Pixel::from_words(words(s))
    }

    /// Reads a pixel from a line cut into words.
    pub fn read(line: &Words) -> (pixel: Result<Pixel, ParsePixelError>)
        ensures
            pixel == Pixel::from_words(line@),
    {
        let n: usize = line.len();
        if n < 2 || !is_px(line.word(0)) {
            return Err(ParsePixelError::WrongFormat);
        }
        let x = match parse_u32(line.word(1)) {
            Some(x) => x,
            None => {
                return Err(ParsePixelError::ParseInt);
            },
        };
        if n < 3 {
            return Err(ParsePixelError::WrongFormat);
        }
        let y = match parse_u32(line.word(2)) {
            Some(y) => y,
            None => {
                return Err(ParsePixelError::ParseInt);
            },
        };
        if n < 4 {
            return Err(ParsePixelError::WrongFormat);
        }
        let color = match Color::from_chars(line.word(3)) {
            Ok(color) => color,
            Err(source) => {
                return Err(ParsePixelError::ParseColor { source });
            },
        };
        if n > 4 {
            return Err(ParsePixelError::WrongFormat);
        }
        Ok(Pixel { coordinate: Coordinate { x, y }, color })
    }

    /// Reads a pixel from a line of the form `PX <x> <y> <color>`.
    pub fn parse(s: &str) -> (pixel: Result<Pixel, ParsePixelError>)
        ensures
            pixel == Pixel::spec_parse(s@),
    {
        let line = Words::split(s);
        Pixel::read(&line)
    }

    /// Writes the pixel at the end of `out`.
    pub fn push_text(&self, out: &mut String)
        ensures
            final(out)@ == old(out)@ + self.text(),
    {
        proof {
            reveal_strlit(" ");
        }
        self.coordinate.push_text(out);
        out.append(" ");
        self.color.push_text(out);
    }

    /// The pixel as the protocol writes it.
    pub fn to_string(&self) -> (text: String)
        ensures
            text@ == self.text(),
    {
        let mut text = String::new();
        self.push_text(&mut text);
        text
    }
}

impl core::str::FromStr for Pixel {
    type Err = ParsePixelError;

    fn from_str(s: &str) -> (pixel: Result<Pixel, ParsePixelError>)
        ensures
            pixel == Pixel::spec_parse(s@),
    {
        Pixel::parse(s)
    }
}


/// The words of a coordinate as the protocol writes it: `PX` and the two
/// numbers.
pub proof fn lemma_coordinate_words(coordinate: Coordinate)
    ensures
        words(coordinate.text()) == seq![
            px(),
            decimal_digits(coordinate.x as nat),
            decimal_digits(coordinate.y as nat),
        ],
{
    let x = decimal_digits(coordinate.x as nat);
    let y = decimal_digits(coordinate.y as nat);
    lemma_decimal_round_trip(coordinate.x as nat);
    lemma_decimal_round_trip(coordinate.y as nat);
    lemma_decimal_is_word(x);
    lemma_decimal_is_word(y);
    lemma_words_of_word(px());
    lemma_words_next_word(px(), ' ', x);
    lemma_words_next_word(px() + blank() + x, ' ', y);
    assert(px().push(' ') == px() + blank());
    assert((px() + blank() + x).push(' ') == px() + blank() + x + blank());
}

/// A coordinate that was written reads back as itself.
pub proof fn lemma_coordinate_round_trip(coordinate: Coordinate)
    ensures
        Coordinate::spec_parse(coordinate.text()) == Ok::<Coordinate, ParseCoordinateError>(
            coordinate,
        ),
{
    lemma_coordinate_words(coordinate);
    lemma_decimal_round_trip(coordinate.x as nat);
    lemma_decimal_round_trip(coordinate.y as nat);
}

/// The words of a pixel as the protocol writes it: those of its coordinate,
/// and its color.
pub proof fn lemma_pixel_words(pixel: Pixel)
    ensures
        words(pixel.text()) == seq![
            px(),
            decimal_digits(pixel.coordinate.x as nat),
            decimal_digits(pixel.coordinate.y as nat),
            pixel.color.text(),
        ],
{
    lemma_coordinate_words(pixel.coordinate);
    lemma_color_text_is_word(pixel.color);
    lemma_words_next_word(pixel.coordinate.text(), ' ', pixel.color.text());
    assert(pixel.coordinate.text().push(' ') == pixel.coordinate.text() + blank());
}

/// A pixel that was written reads back as itself: the same coordinate, the
/// same red, green and blue, and an alpha channel exactly where it had one.
pub proof fn lemma_pixel_round_trip(pixel: Pixel)
    ensures
        Pixel::spec_parse(pixel.text()) == Ok::<Pixel, ParsePixelError>(pixel),
{
    lemma_pixel_words(pixel);
    lemma_decimal_round_trip(pixel.coordinate.x as nat);
    lemma_decimal_round_trip(pixel.coordinate.y as nat);
    lemma_color_round_trip(pixel.color);
}

} // verus!
