use pixelflut_rs::pixel::{
    Color, Coordinate, ParseColorError, ParseCoordinateError, ParsePixelError, Pixel,
};

#[test]
fn display_pixel() {
    let px = Pixel::new(Coordinate::new(1024, 768), Color::rgb(0x00, 0xff, 0x00));
    assert_eq!(px.to_string(), "PX 1024 768 00ff00")
}

#[test]
fn fromstr_pixel() {
    let pixel: Pixel = "PX 1024 768 ff0f00".parse().unwrap();
    assert_eq!(pixel, Pixel::new(Coordinate::new(1024, 768), Color::rgb(0xff, 0x0f, 0x00)));
    let pixel: Result<Pixel, ParsePixelError> = "PX 1024 768 ff0f00 hallo".parse();
    assert_eq!(pixel.unwrap_err(), ParsePixelError::WrongFormat);
    let pixel: Result<Pixel, ParsePixelError> = "PX 1024 768".parse();
    assert_eq!(pixel.unwrap_err(), ParsePixelError::WrongFormat);
    let pixel: Result<Pixel, ParsePixelError> = "nope 1024 768 ff0f00".parse();
    assert_eq!(pixel.unwrap_err(), ParsePixelError::WrongFormat);
}

#[test]
fn display_coordinate() {
    let coord = Coordinate::new(1024, 768);
    assert_eq!(coord.to_string(), "PX 1024 768")
}

#[test]
fn fromstr_coordinate() {
    let coord: Coordinate = "PX 1024 768".parse().unwrap();
    assert_eq!(coord, Coordinate::new(1024, 768));
    let pixel: Result<Coordinate, ParseCoordinateError> = "PX 1024 768 ff0f00".parse();
    assert_eq!(pixel.unwrap_err(), ParseCoordinateError::WrongFormat);
    let pixel: Result<Coordinate, ParseCoordinateError> = "PX 1024".parse();
    assert_eq!(pixel.unwrap_err(), ParseCoordinateError::WrongFormat);
    let pixel: Result<Coordinate, ParseCoordinateError> = "nope 1024 768".parse();
    assert_eq!(pixel.unwrap_err(), ParseCoordinateError::WrongFormat);
}

#[test]
fn display_color_rgb() {
    let rgb = Color::rgb(0x00, 0x00, 0x00);
    assert_eq!(rgb.to_string(), "000000");
    let rgb = Color::rgb(0x0f, 0x0f, 0x0f);
    assert_eq!(rgb.to_string(), "0f0f0f");
    let rgb = Color::rgb(0xff, 0xff, 0xff);
    assert_eq!(rgb.to_string(), "ffffff");
}

#[test]
fn display_color_rgba() {
    let rgba = Color::rgba(0x00, 0x00, 0x00, 0x00);
    assert_eq!(rgba.to_string(), "00000000");
    let rgba = Color::rgba(0x0f, 0x0f, 0x0f, 0x0f);
    assert_eq!(rgba.to_string(), "0f0f0f0f");
    let rgba = Color::rgba(0xff, 0xff, 0xff, 0xff);
    assert_eq!(rgba.to_string(), "ffffffff");
}

#[test]
fn fromstr_color() {
    let color: Color = "ff0f00".parse().unwrap();
    assert_eq!(color, Color::rgb(0xff, 0x0f, 0x00));
    let color: Color = "ff0f00f0".parse().unwrap();
    assert_eq!(color, Color::rgba(0xff, 0x0f, 0x00, 0xf0));
    let color: Result<Color, ParseColorError> = "000000f".parse();
    assert_eq!(color.unwrap_err(), ParseColorError::WrongSize);
}

#[test]
fn getters_give_back_what_the_constructors_took() {
    let coordinate = Coordinate::new(7, 9);
    assert_eq!((coordinate.x(), coordinate.y()), (7, 9));
    let color = Color::rgb(0xff, 0x0f, 0x00);
    assert_eq!(color.rgb_values(), (0xff, 0x0f, 0x00));
    assert_eq!(color.rgba_values(), (0xff, 0x0f, 0x00, None));
    assert!(color.is_rgb());
    assert!(!color.is_rgba());
    let color = Color::rgba(0xff, 0x0f, 0x00, 0xaa);
    assert_eq!(color.rgb_values(), (0xff, 0x0f, 0x00));
    assert_eq!(color.rgba_values(), (0xff, 0x0f, 0x00, Some(0xaa)));
    assert!(color.is_rgba());
    assert!(!color.is_rgb());
    let pixel = Pixel::new(coordinate, color);
    assert_eq!(*pixel.coordinate(), coordinate);
    assert_eq!(*pixel.color(), color);
}

#[test]
fn pixel_without_alpha_reads_back_as_written() {
    for &(x, y) in &[(0u32, 0u32), (10, 20), (1024, 768), (u32::MAX, 1), (7, u32::MAX)] {
        for &(r, g, b) in &[(0u8, 0u8, 0u8), (0xff, 0x00, 0xff), (0x0a, 0xb0, 0x9f), (255, 255, 255)] {
            let pixel = Pixel::new(Coordinate::new(x, y), Color::rgb(r, g, b));
            let text = pixel.to_string();
            assert_eq!(text.len(), pixel.coordinate().to_string().len() + 7);
            let back = Pixel::parse(&text).unwrap();
            assert_eq!(back, pixel);
            assert!(back.color().is_rgb());
        }
    }
}

#[test]
fn pixel_with_alpha_reads_back_as_written() {
    for &(x, y) in &[(0u32, 0u32), (10, 20), (4294967295, 4294967295)] {
        for &(r, g, b, a) in &[(0u8, 0u8, 0u8, 0u8), (0xaa, 0xbb, 0xcc, 0xdd), (1, 2, 3, 255)] {
            let pixel = Pixel::new(Coordinate::new(x, y), Color::rgba(r, g, b, a));
            let text = pixel.to_string();
            let back = Pixel::parse(&text).unwrap();
            assert_eq!(back, pixel);
            assert!(back.color().is_rgba());
            assert_eq!(back.color().rgba_values().3, Some(a));
        }
    }
}

#[test]
fn every_color_channel_value_reads_back_as_written() {
    for v in 0..=255u8 {
        let rgb = Color::rgb(v, 255 - v, v / 2);
        assert_eq!(Color::parse(&rgb.to_string()), Ok(rgb));
        assert_eq!(rgb.to_string(), format!("{:02x}{:02x}{:02x}", v, 255 - v, v / 2));
        let rgba = Color::rgba(v / 3, v, 255 - v, v);
        assert_eq!(Color::parse(&rgba.to_string()), Ok(rgba));
        assert_eq!(rgba.to_string(), format!("{:02x}{:02x}{:02x}{:02x}", v / 3, v, 255 - v, v));
    }
}

#[test]
fn coordinate_reads_back_as_written() {
    for &(x, y) in &[(0u32, 0u32), (9, 10), (99, 100), (1024, 768), (u32::MAX, u32::MAX)] {
        let coordinate = Coordinate::new(x, y);
        assert_eq!(coordinate.to_string(), format!("PX {} {}", x, y));
        assert_eq!(Coordinate::parse(&coordinate.to_string()), Ok(coordinate));
    }
}

#[test]
fn color_takes_upper_and_lower_case() {
    assert_eq!(Color::parse("FF0F00"), Ok(Color::rgb(0xff, 0x0f, 0x00)));
    assert_eq!(Color::parse("aAbBcCdD"), Ok(Color::rgba(0xaa, 0xbb, 0xcc, 0xdd)));
    assert_eq!(Color::rgb(0xAB, 0xCD, 0xEF).to_string(), "abcdef");
}

#[test]
fn color_of_wrong_length_has_the_wrong_size() {
    for text in ["", "f", "abcde", "0000000", "000000000", "ffffffffffff"] {
        assert_eq!(Color::parse(text), Err(ParseColorError::WrongSize));
    }
}

#[test]
fn color_with_other_than_hex_digits_is_no_number() {
    for text in ["zzzzzz", "ff0f0g", "+f0f0f", "ff 0f0", "0x0f0f", "ff0f00f-", "ff0f00\u{e9}\u{e9}"] {
        assert_eq!(Color::parse(text), Err(ParseColorError::ParseInt));
    }
}

#[test]
fn coordinate_faults_are_found_from_the_left() {
    assert_eq!(Coordinate::parse(""), Err(ParseCoordinateError::WrongFormat));
    assert_eq!(Coordinate::parse("PX"), Err(ParseCoordinateError::WrongFormat));
    assert_eq!(Coordinate::parse("px 1 2"), Err(ParseCoordinateError::WrongFormat));
    assert_eq!(Coordinate::parse("PX a"), Err(ParseCoordinateError::ParseInt));
    assert_eq!(Coordinate::parse("PX 1 b"), Err(ParseCoordinateError::ParseInt));
    assert_eq!(Coordinate::parse("PX a 2 3"), Err(ParseCoordinateError::ParseInt));
    assert_eq!(Coordinate::parse("PX 1 2 c"), Err(ParseCoordinateError::WrongFormat));
    assert_eq!(Coordinate::parse("PX -1 2"), Err(ParseCoordinateError::ParseInt));
    assert_eq!(Coordinate::parse("PX +1 2"), Err(ParseCoordinateError::ParseInt));
    assert_eq!(Coordinate::parse("PX 1.5 2"), Err(ParseCoordinateError::ParseInt));
}

#[test]
fn coordinate_must_fit_in_32_bits() {
    assert_eq!(Coordinate::parse("PX 4294967295 0"), Ok(Coordinate::new(4294967295, 0)));
    assert_eq!(Coordinate::parse("PX 4294967296 0"), Err(ParseCoordinateError::ParseInt));
    assert_eq!(Coordinate::parse("PX 0 4294967296"), Err(ParseCoordinateError::ParseInt));
    assert_eq!(
        Coordinate::parse("PX 99999999999999999999999999999999999999999 0"),
        Err(ParseCoordinateError::ParseInt)
    );
    assert_eq!(
        Coordinate::parse("PX 000000000000000000000000000000000000000042 007"),
        Ok(Coordinate::new(42, 7))
    );
}

#[test]
fn pixel_faults_are_found_from_the_left() {
    assert_eq!(Pixel::parse(""), Err(ParsePixelError::WrongFormat));
    assert_eq!(Pixel::parse("PX"), Err(ParsePixelError::WrongFormat));
    assert_eq!(Pixel::parse("PX x"), Err(ParsePixelError::ParseInt));
    assert_eq!(Pixel::parse("PX 1"), Err(ParsePixelError::WrongFormat));
    assert_eq!(Pixel::parse("PX 1 y"), Err(ParsePixelError::ParseInt));
    assert_eq!(Pixel::parse("PX 1 2"), Err(ParsePixelError::WrongFormat));
    assert_eq!(
        Pixel::parse("PX 1 2 zzzzzz"),
        Err(ParsePixelError::ParseColor { source: ParseColorError::ParseInt })
    );
    assert_eq!(
        Pixel::parse("PX 1 2 abcde extra"),
        Err(ParsePixelError::ParseColor { source: ParseColorError::WrongSize })
    );
    assert_eq!(Pixel::parse("PX 1 2 abcdef extra"), Err(ParsePixelError::WrongFormat));
    assert_eq!(Pixel::parse("PX 4294967296 2 abcdef"), Err(ParsePixelError::ParseInt));
}

#[test]
fn words_may_be_parted_by_any_run_of_spaces() {
    let pixel = Pixel::new(Coordinate::new(10, 20), Color::rgb(0xff, 0x00, 0xff));
    assert_eq!(Pixel::parse("  PX\t10   20 \u{a0} ff00ff\r\n"), Ok(pixel));
    assert_eq!(Pixel::parse("PX\u{3000}10\u{2003}20\u{85}ff00ff"), Ok(pixel));
    assert_eq!(Coordinate::parse("\tPX 10\t20 "), Ok(Coordinate::new(10, 20)));
}
