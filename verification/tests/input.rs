use tictactoe::input::{pairUp, parseMove, InputError};
use tictactoe::number::{parseDigits, parseNumber, NumberError};
use tictactoe::text::{characters, digitOf, inClass, isWhitespace, scanRun, CharClass};

#[test]
fn two_numbers_are_a_move() {
    assert_eq!(parseMove("1 2"), Ok((1, 2)));
    assert_eq!(parseMove("0 0\n"), Ok((0, 0)));
    assert_eq!(parseMove("2 1\r\n"), Ok((2, 1)));
}

#[test]
fn column_comes_before_row() {
    assert_eq!(parseMove("2 0\n"), Ok((2, 0)));
    assert_eq!(parseMove("0 2\n"), Ok((0, 2)));
}

#[test]
fn numbers_off_the_grid_are_still_read() {
    assert_eq!(parseMove("3 7\n"), Ok((3, 7)));
    assert_eq!(parseMove("120 45\n"), Ok((120, 45)));
}

#[test]
fn any_whitespace_parts_the_words() {
    assert_eq!(parseMove("  1   2  \n"), Ok((1, 2)));
    assert_eq!(parseMove("1\t2"), Ok((1, 2)));
    assert_eq!(parseMove("\u{3000}1\u{a0}2\u{2028}"), Ok((1, 2)));
}

#[test]
fn three_words_are_refused() {
    assert_eq!(parseMove("1 1 1"), Err(InputError::ArgumentCount));
    assert_eq!(parseMove("1 1 1\n"), Err(InputError::ArgumentCount));
    assert_eq!(parseMove("a b c d\n"), Err(InputError::ArgumentCount));
}

#[test]
fn one_word_is_refused() {
    assert_eq!(parseMove("1\n"), Err(InputError::ArgumentCount));
    assert_eq!(parseMove("11\n"), Err(InputError::ArgumentCount));
    assert_eq!(parseMove("   x  "), Err(InputError::ArgumentCount));
}

#[test]
fn no_word_is_refused() {
    assert_eq!(parseMove(""), Err(InputError::ArgumentCount));
    assert_eq!(parseMove("\n"), Err(InputError::ArgumentCount));
    assert_eq!(parseMove(" \t \n"), Err(InputError::ArgumentCount));
}

#[test]
fn letter_for_the_column_is_refused() {
    assert_eq!(parseMove("a 1"), Err(InputError::Column(NumberError::InvalidDigit)));
    assert_eq!(parseMove("a 1\n"), Err(InputError::Column(NumberError::InvalidDigit)));
}

#[test]
fn letter_for_the_row_is_refused() {
    assert_eq!(parseMove("1 b\n"), Err(InputError::Row(NumberError::InvalidDigit)));
    assert_eq!(parseMove("1 -1\n"), Err(InputError::Row(NumberError::InvalidDigit)));
    assert_eq!(parseMove("1 1.0\n"), Err(InputError::Row(NumberError::InvalidDigit)));
}

#[test]
fn two_bad_words_are_both_reported() {
    assert_eq!(
        parseMove("x y\n"),
        Err(InputError::Both(NumberError::InvalidDigit, NumberError::InvalidDigit))
    );
    assert_eq!(
        parseMove("99999999999999999999999999 +\n"),
        Err(InputError::Both(NumberError::TooLarge, NumberError::InvalidDigit))
    );
}

#[test]
fn input_error_messages() {
    assert_eq!(InputError::ArgumentCount.message(), "Incorrect number of arguments");
    assert_eq!(
        InputError::Column(NumberError::InvalidDigit).message(),
        "invalid digit found in string"
    );
    assert_eq!(
        InputError::Row(NumberError::TooLarge).message(),
        "number too large to fit in target type"
    );
    assert_eq!(
        InputError::Both(NumberError::InvalidDigit, NumberError::TooLarge).message(),
        "invalid digit found in string, number too large to fit in target type"
    );
}

#[test]
fn number_error_messages() {
    assert_eq!(NumberError::Empty.message(), "cannot parse integer from empty string");
    assert_eq!(NumberError::InvalidDigit.message(), "invalid digit found in string");
    assert_eq!(NumberError::TooLarge.message(), "number too large to fit in target type");
}

#[test]
fn numbers_are_decimal() {
    assert_eq!(parseNumber("0"), Ok(0));
    assert_eq!(parseNumber("7"), Ok(7));
    assert_eq!(parseNumber("10"), Ok(10));
    assert_eq!(parseNumber("4096"), Ok(4096));
    assert_eq!(parseNumber("0012"), Ok(12));
}

#[test]
fn plus_sign_may_lead() {
    assert_eq!(parseNumber("+2"), Ok(2));
    assert_eq!(parseNumber("+"), Err(NumberError::InvalidDigit));
    assert_eq!(parseNumber("++2"), Err(NumberError::InvalidDigit));
    assert_eq!(parseNumber("2+"), Err(NumberError::InvalidDigit));
}

#[test]
fn minus_sign_is_no_digit() {
    assert_eq!(parseNumber("-"), Err(NumberError::InvalidDigit));
    assert_eq!(parseNumber("-0"), Err(NumberError::InvalidDigit));
    assert_eq!(parseNumber("-3"), Err(NumberError::InvalidDigit));
}

#[test]
fn empty_word_is_no_number() {
    assert_eq!(parseNumber(""), Err(NumberError::Empty));
}

#[test]
fn other_characters_are_no_digits() {
    assert_eq!(parseNumber("a"), Err(NumberError::InvalidDigit));
    assert_eq!(parseNumber("1a"), Err(NumberError::InvalidDigit));
    assert_eq!(parseNumber("1 "), Err(NumberError::InvalidDigit));
    assert_eq!(parseNumber("\u{661}"), Err(NumberError::InvalidDigit));
    assert_eq!(parseNumber("0x10"), Err(NumberError::InvalidDigit));
}

#[test]
fn largest_number_is_read() {
    let largest = format!("{}", usize::MAX);
    assert_eq!(parseNumber(&largest), Ok(usize::MAX));
    let padded = format!("+000{}", usize::MAX);
    assert_eq!(parseNumber(&padded), Ok(usize::MAX));
}

#[test]
fn numbers_above_the_largest_are_too_large() {
    let above = format!("{}", usize::MAX as u128 + 1);
    assert_eq!(parseNumber(&above), Err(NumberError::TooLarge));
    let tenfold = format!("{}0", usize::MAX);
    assert_eq!(parseNumber(&tenfold), Err(NumberError::TooLarge));
    assert_eq!(
        parseNumber("340282366920938463463374607431768211456"),
        Err(NumberError::TooLarge)
    );
}

#[test]
fn overflow_before_a_bad_character_is_too_large() {
    assert_eq!(
        parseNumber("340282366920938463463374607431768211456x"),
        Err(NumberError::TooLarge)
    );
    assert_eq!(
        parseNumber("x340282366920938463463374607431768211456"),
        Err(NumberError::InvalidDigit)
    );
}

#[test]
fn agrees_with_the_standard_reading() {
    let words = [
        "", "+", "-", "0", "+0", "-0", "12", "+12", "1_000", " 1", "1 ", "18446744073709551615",
        "18446744073709551616", "4294967295", "4294967296", "99999999999999999999", "9a",
        "99999999999999999999a", "a99999999999999999999", "000000000000000000000001",
    ];
    for word in words {
        let expected = match word.parse::<usize>() {
            Ok(n) => Ok(n),
            Err(e) => Err(format!("{}", e)),
        };
        let got = match parseNumber(word) {
            Ok(n) => Ok(n),
            Err(e) => Err(e.message()),
        };
        assert_eq!(got, expected);
    }
}

#[test]
fn digits_of_a_part_of_a_line() {
    let chars: Vec<char> = "ab 42 7".chars().collect();
    assert_eq!(parseDigits(&chars, 3, 5), Ok(42));
    assert_eq!(parseDigits(&chars, 6, 7), Ok(7));
    assert_eq!(parseDigits(&chars, 0, 2), Err(NumberError::InvalidDigit));
    assert_eq!(parseDigits(&chars, 3, 7), Err(NumberError::InvalidDigit));
    assert_eq!(parseDigits(&chars, 4, 4), Err(NumberError::Empty));
}

#[test]
fn pairs_of_readings() {
    assert_eq!(pairUp(Ok(1), Ok(2)), Ok((1, 2)));
    assert_eq!(pairUp(Err(NumberError::Empty), Ok(2)), Err(InputError::Column(NumberError::Empty)));
    assert_eq!(
        pairUp(Ok(1), Err(NumberError::TooLarge)),
        Err(InputError::Row(NumberError::TooLarge))
    );
    assert_eq!(
        pairUp(Err(NumberError::Empty), Err(NumberError::TooLarge)),
        Err(InputError::Both(NumberError::Empty, NumberError::TooLarge))
    );
}

#[test]
fn whitespace_is_what_the_standard_library_says() {
    let mut code = 0u32;
    while code <= 0x10FFFF {
        if let Some(c) = char::from_u32(code) {
            assert_eq!(isWhitespace(c), c.is_whitespace());
        }
        code += 1;
    }
}

#[test]
fn digits_are_the_ascii_digits() {
    assert_eq!(digitOf('0'), Some(0));
    assert_eq!(digitOf('5'), Some(5));
    assert_eq!(digitOf('9'), Some(9));
    assert_eq!(digitOf('/'), None);
    assert_eq!(digitOf(':'), None);
    assert_eq!(digitOf('a'), None);
    assert_eq!(digitOf('\u{0663}'), None);
}

#[test]
fn classes_of_characters() {
    assert!(inClass(' ', CharClass::Space));
    assert!(!inClass(' ', CharClass::Word));
    assert!(inClass('x', CharClass::Word));
    assert!(!inClass('x', CharClass::Digit));
    assert!(inClass('3', CharClass::Digit));
    assert!(inClass('3', CharClass::Word));
}

#[test]
fn runs_end_at_the_first_other_character() {
    let chars: Vec<char> = "  12 ab".chars().collect();
    assert_eq!(scanRun(&chars, 0, CharClass::Space), 2);
    assert_eq!(scanRun(&chars, 2, CharClass::Space), 2);
    assert_eq!(scanRun(&chars, 2, CharClass::Word), 4);
    assert_eq!(scanRun(&chars, 2, CharClass::Digit), 4);
    assert_eq!(scanRun(&chars, 5, CharClass::Digit), 5);
    assert_eq!(scanRun(&chars, 5, CharClass::Word), 7);
    assert_eq!(scanRun(&chars, 7, CharClass::Word), 7);
}

#[test]
fn characters_of_a_line() {
    assert_eq!(characters("a 1\n"), vec!['a', ' ', '1', '\n']);
    assert_eq!(characters(""), Vec::<char>::new());
    assert_eq!(characters("é\u{3000}"), vec!['é', '\u{3000}']);
}
