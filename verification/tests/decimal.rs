use backlight::decimal::{parse_brightness, render_brightness, to_digit, ParseFailure};

#[test]
fn content_with_a_newline_is_read() {
    assert_eq!(parse_brightness("128\n"), Ok(128));
}

#[test]
fn content_above_the_maximum_is_refused() {
    assert_eq!(parse_brightness("999"), Err(ParseFailure::OutOfRange));
    assert_eq!(parse_brightness("256"), Err(ParseFailure::OutOfRange));
    assert_eq!(parse_brightness("256\n"), Err(ParseFailure::OutOfRange));
    assert_eq!(parse_brightness("1000"), Err(ParseFailure::OutOfRange));
    assert_eq!(
        parse_brightness("340282366920938463463374607431768211456"),
        Err(ParseFailure::OutOfRange)
    );
    assert_eq!(parse_brightness("65536"), Err(ParseFailure::OutOfRange));
    assert_eq!(parse_brightness("6553600"), Err(ParseFailure::OutOfRange));
}

#[test]
fn content_that_is_no_number_is_refused() {
    assert_eq!(parse_brightness("abc"), Err(ParseFailure::NotAnInteger));
    assert_eq!(parse_brightness(""), Err(ParseFailure::NotAnInteger));
    assert_eq!(parse_brightness("\n"), Err(ParseFailure::NotAnInteger));
    assert_eq!(parse_brightness("   "), Err(ParseFailure::NotAnInteger));
    assert_eq!(parse_brightness("-5"), Err(ParseFailure::NotAnInteger));
    assert_eq!(parse_brightness("-0"), Err(ParseFailure::NotAnInteger));
    assert_eq!(parse_brightness("+"), Err(ParseFailure::NotAnInteger));
    assert_eq!(parse_brightness("++1"), Err(ParseFailure::NotAnInteger));
    assert_eq!(parse_brightness("+ 1"), Err(ParseFailure::NotAnInteger));
    assert_eq!(parse_brightness("1 2"), Err(ParseFailure::NotAnInteger));
    assert_eq!(parse_brightness("12a"), Err(ParseFailure::NotAnInteger));
    assert_eq!(parse_brightness("999x"), Err(ParseFailure::NotAnInteger));
    assert_eq!(parse_brightness("x999"), Err(ParseFailure::NotAnInteger));
    assert_eq!(parse_brightness("1.5"), Err(ParseFailure::NotAnInteger));
    assert_eq!(parse_brightness("0x10"), Err(ParseFailure::NotAnInteger));
    assert_eq!(parse_brightness("\u{661}\u{662}"), Err(ParseFailure::NotAnInteger));
    assert_eq!(parse_brightness("\u{ff11}"), Err(ParseFailure::NotAnInteger));
}

#[test]
fn every_level_in_range_is_read() {
    assert_eq!(parse_brightness("0"), Ok(0));
    assert_eq!(parse_brightness("7"), Ok(7));
    assert_eq!(parse_brightness("42"), Ok(42));
    assert_eq!(parse_brightness("255"), Ok(255));
    assert_eq!(parse_brightness("+5"), Ok(5));
    assert_eq!(parse_brightness("+255"), Ok(255));
    assert_eq!(parse_brightness("007"), Ok(7));
    assert_eq!(parse_brightness("0000000000000000000000000000000255"), Ok(255));
    assert_eq!(parse_brightness("00"), Ok(0));
}

#[test]
fn surrounding_whitespace_is_ignored() {
    assert_eq!(parse_brightness(" \t 12 \r\n"), Ok(12));
    assert_eq!(parse_brightness("\n\n255"), Ok(255));
    assert_eq!(parse_brightness("\u{a0}42\u{3000}"), Ok(42));
    assert_eq!(parse_brightness("  +9\n"), Ok(9));
    assert_eq!(parse_brightness(" 999 "), Err(ParseFailure::OutOfRange));
    assert_eq!(parse_brightness(" abc "), Err(ParseFailure::NotAnInteger));
    for level in 0..=255u8 {
        let padded = format!(" \n{}\t\n", level);
        assert_eq!(parse_brightness(&padded), Ok(level));
    }
}

#[test]
fn parsing_succeeds_where_the_standard_library_does() {
    let alphabet = [' ', '\n', '+', '-', '0', '1', '2', '5', '6', '9', 'a'];
    let mut texts: Vec<String> = vec![String::new()];
    let mut start = 0;
    for _ in 0..5 {
        let end = texts.len();
        for i in start..end {
            for c in alphabet {
                let mut longer = texts[i].clone();
                longer.push(c);
                texts.push(longer);
            }
        }
        start = end;
    }
    for text in &texts {
        let expected: Option<u8> = text.trim().parse::<u8>().ok();
        assert_eq!(parse_brightness(text).ok(), expected, "{:?}", text);
    }
}

#[test]
fn every_level_is_rendered_in_decimal() {
    assert_eq!(render_brightness(0), "0");
    assert_eq!(render_brightness(7), "7");
    assert_eq!(render_brightness(10), "10");
    assert_eq!(render_brightness(99), "99");
    assert_eq!(render_brightness(100), "100");
    assert_eq!(render_brightness(128), "128");
    assert_eq!(render_brightness(205), "205");
    assert_eq!(render_brightness(255), "255");
    for level in 0..=255u8 {
        assert_eq!(render_brightness(level), level.to_string());
    }
}

#[test]
fn a_rendered_level_is_read_back() {
    for level in 0..=255u8 {
        assert_eq!(parse_brightness(&render_brightness(level)), Ok(level));
    }
}

#[test]
fn digits_have_their_values() {
    assert_eq!(to_digit('0'), Some(0));
    assert_eq!(to_digit('5'), Some(5));
    assert_eq!(to_digit('9'), Some(9));
    assert_eq!(to_digit('/'), None);
    assert_eq!(to_digit(':'), None);
    assert_eq!(to_digit('a'), None);
    assert_eq!(to_digit('+'), None);
    assert_eq!(to_digit('\u{663}'), None);
    for code in 0..=0x10FFFFu32 {
        if let Some(c) = char::from_u32(code) {
            assert_eq!(to_digit(c).map(|d| d as u32), if c.is_ascii() { c.to_digit(10) } else { None });
        }
    }
}
