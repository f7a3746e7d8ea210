use pixelflut_rs::command::{parse, Command, InvalidReason};
use pixelflut_rs::pixel::{Color, Coordinate, ParseColorError, Pixel};

#[test]
fn px_with_a_color_is_a_draw() {
    assert_eq!(
        parse("PX 10 20 ff00ff"),
        Command::Draw(Pixel::new(Coordinate::new(10, 20), Color::rgb(0xff, 0x00, 0xff)))
    );
    assert_eq!(
        parse("PX 10 20 aabbccdd"),
        Command::Draw(Pixel::new(Coordinate::new(10, 20), Color::rgba(0xaa, 0xbb, 0xcc, 0xdd)))
    );
}

#[test]
fn px_without_a_color_is_a_query() {
    assert_eq!(parse("PX 10 20"), Command::Query(Coordinate::new(10, 20)));
    assert_eq!(parse("PX 0 4294967295"), Command::Query(Coordinate::new(0, u32::MAX)));
}

#[test]
fn size_and_help_stand_alone() {
    assert_eq!(parse("SIZE"), Command::ReportSize);
    assert_eq!(parse("  SIZE\t"), Command::ReportSize);
    assert_eq!(parse("HELP"), Command::Help);
    assert_eq!(parse("HELP\r"), Command::Help);
    assert_eq!(parse("SIZE 1"), Command::Invalid(InvalidReason::WrongArity));
    assert_eq!(parse("HELP me please"), Command::Invalid(InvalidReason::WrongArity));
}

#[test]
fn missing_words_are_a_wrong_arity() {
    assert_eq!(parse("PX 10"), Command::Invalid(InvalidReason::WrongArity));
    assert_eq!(parse("PX"), Command::Invalid(InvalidReason::WrongArity));
    assert_eq!(parse("PX 1 2 ff00ff 4"), Command::Invalid(InvalidReason::WrongArity));
    assert_eq!(parse("PX a"), Command::Invalid(InvalidReason::WrongArity));
    assert_eq!(parse("PX a b c d"), Command::Invalid(InvalidReason::WrongArity));
}

#[test]
fn another_first_word_is_an_unknown_verb() {
    assert_eq!(parse("nope 1 2 3"), Command::Invalid(InvalidReason::UnknownVerb));
    assert_eq!(parse(""), Command::Invalid(InvalidReason::UnknownVerb));
    assert_eq!(parse("   "), Command::Invalid(InvalidReason::UnknownVerb));
    assert_eq!(parse("px 1 2"), Command::Invalid(InvalidReason::UnknownVerb));
    assert_eq!(parse("size"), Command::Invalid(InvalidReason::UnknownVerb));
    assert_eq!(parse("Help"), Command::Invalid(InvalidReason::UnknownVerb));
    assert_eq!(parse("PXX 1 2"), Command::Invalid(InvalidReason::UnknownVerb));
    assert_eq!(parse("P 1 2"), Command::Invalid(InvalidReason::UnknownVerb));
    assert_eq!(parse("SIZES"), Command::Invalid(InvalidReason::UnknownVerb));
    assert_eq!(parse("HELPX"), Command::Invalid(InvalidReason::UnknownVerb));
}

#[test]
fn a_bad_color_is_told_from_other_faults() {
    assert_eq!(
        parse("PX 1 2 zzzzzz"),
        Command::Invalid(InvalidReason::BadColor { source: ParseColorError::ParseInt })
    );
    assert_eq!(
        parse("PX 1 2 abcde"),
        Command::Invalid(InvalidReason::BadColor { source: ParseColorError::WrongSize })
    );
    assert_eq!(
        parse("PX 1 2 aabbccdde"),
        Command::Invalid(InvalidReason::BadColor { source: ParseColorError::WrongSize })
    );
}

#[test]
fn a_bad_coordinate_is_a_bad_integer() {
    assert_eq!(parse("PX a 2"), Command::Invalid(InvalidReason::BadInteger));
    assert_eq!(parse("PX 1 -2"), Command::Invalid(InvalidReason::BadInteger));
    assert_eq!(parse("PX +1 2"), Command::Invalid(InvalidReason::BadInteger));
    assert_eq!(parse("PX 4294967296 2"), Command::Invalid(InvalidReason::BadInteger));
    assert_eq!(parse("PX 1 4294967296 ff00ff"), Command::Invalid(InvalidReason::BadInteger));
    assert_eq!(parse("PX x 2 zzzzzz"), Command::Invalid(InvalidReason::BadInteger));
    assert_eq!(parse("PX 1 y abcde"), Command::Invalid(InvalidReason::BadInteger));
}

#[test]
fn a_written_pixel_is_the_command_to_draw_it() {
    for pixel in [
        Pixel::new(Coordinate::new(0, 0), Color::rgb(0, 0, 0)),
        Pixel::new(Coordinate::new(1023, 767), Color::rgb(0xff, 0x0f, 0x00)),
        Pixel::new(Coordinate::new(u32::MAX, u32::MAX), Color::rgba(1, 2, 3, 0)),
        Pixel::new(Coordinate::new(5, 6), Color::rgba(0xaa, 0xbb, 0xcc, 0xdd)),
    ] {
        assert_eq!(parse(&pixel.to_string()), Command::Draw(pixel));
        assert_eq!(parse(&pixel.coordinate().to_string()), Command::Query(*pixel.coordinate()));
    }
}
