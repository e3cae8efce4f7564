//! Reading a word as a coordinate.
use vstd::prelude::*;
use vstd::string::*;
use crate::text::{
    characters, digitOf, digit_value, in_class, is_digit, lemma_run_end,
    lemma_run_end_is_maximal, run_end, CharClass,
};

verus! {

/// Why a word is no coordinate.
#[derive(Copy, Clone, Debug, PartialEq, Eq, Structural)]
pub enum NumberError {
    /// There is nothing to read.
    Empty,
    /// A character is no decimal digit, or a sign stands alone.
    InvalidDigit,
    /// The digits stand for more than a `usize` holds.
    TooLarge,
}

/// The text shown to the player for each kind of unreadable number.
pub open spec fn number_error_text(e: NumberError) -> Seq<char> {
    match e {
        NumberError::Empty => "cannot parse integer from empty string"@,
        NumberError::InvalidDigit => "invalid digit found in string"@,
        NumberError::TooLarge => "number too large to fit in target type"@,
    }
}

impl NumberError {
    /// The text shown to the player for this error.
    pub fn message(&self) -> (s: String)
        ensures
            s@ == number_error_text(*self),
    {
        match self {
            NumberError::Empty => String::from_str("cannot parse integer from empty string"),
            NumberError::InvalidDigit => String::from_str("invalid digit found in string"),
            NumberError::TooLarge => String::from_str("number too large to fit in target type"),
        }
    }
}

/// The number that a sequence of decimal digits stands for, the first
/// digit weighing most. The empty sequence stands for zero.
pub open spec fn decimal_value(digits: Seq<char>) -> nat
    decreases digits.len(),
{
    if digits.len() == 0 {
        0
    } else {
        10 * decimal_value(digits.drop_last()) + digit_value(digits.last())
    }
}

/// A word without the one `+` that may lead it.
pub open spec fn unsigned_part(word: Seq<char>) -> Seq<char> {
    if word.len() > 0 && word[0] == '+' {
        word.drop_first()
    } else {
        word
    }
}

/// The digits that a sequence of characters begins with.
pub open spec fn leading_digits(s: Seq<char>) -> Seq<char> {
    s.take(run_end(s, 0, CharClass::Digit))
}

/// What a word reads as: the number its decimal digits stand for, where
/// the word is made of one or more digits, with or without a `+` before
/// them, and the number fits a `usize`.
///
/// Of the words that are no number, the empty one is `Empty`. One whose
/// leading digits already exceed a `usize` is `TooLarge`, whatever follows
/// them. Any other holds a character that is no digit, or no digit at all,
/// and is `InvalidDigit`.
pub open spec fn read_number(word: Seq<char>) -> Result<usize, NumberError> {
    let body = unsigned_part(word);
    if word.len() == 0 {
        Err(NumberError::Empty)
    } else if decimal_value(leading_digits(body)) > usize::MAX {
        Err(NumberError::TooLarge)
    } else if body.len() == 0 || leading_digits(body).len() < body.len() {
        Err(NumberError::InvalidDigit)
    } else {
        Ok(decimal_value(body) as usize)
    }
}

/// Appending a digit multiplies the value by ten and adds the digit.
pub proof fn lemma_decimal_value_step(digits: Seq<char>, n: int)
    requires
        0 <= n < digits.len(),
    ensures
        decimal_value(digits.take(n + 1)) == 10 * decimal_value(digits.take(n)) + digit_value(
            digits[n],
        ),
{
    assert(digits.take(n + 1).drop_last() =~= digits.take(n));
}

/// The value of a sequence of digits is at least that of each of its
/// prefixes.
pub proof fn lemma_decimal_value_grows(digits: Seq<char>, n: int, m: int)
    requires
        0 <= n <= m <= digits.len(),
    ensures
        decimal_value(digits.take(n)) <= decimal_value(digits.take(m)),
    decreases m - n,
{
    if n < m {
        lemma_decimal_value_grows(digits, n, m - 1);
        lemma_decimal_value_step(digits, m - 1);
    }
}

/// A word reads as a number exactly when, the `+` that may lead it set
/// aside, it is made of one or more decimal digits and stands for no more
/// than a `usize` holds; the number is then the one the digits stand for.
pub proof fn lemma_number_is_digits(word: Seq<char>)
    ensures
        read_number(word) is Ok <==> ({
            let body = unsigned_part(word);
            &&& body.len() > 0
            &&& forall|k: int| 0 <= k < body.len() ==> is_digit(body[k])
            &&& decimal_value(body) <= usize::MAX
        }),
        read_number(word) matches Ok(n) ==> n == decimal_value(unsigned_part(word)),
{
    let body = unsigned_part(word);
    lemma_run_end_is_maximal(body, 0, CharClass::Digit);
    if forall|k: int| 0 <= k < body.len() ==> is_digit(body[k]) {
        lemma_run_end(body, 0, body.len() as int, CharClass::Digit);
    }
    assert(body.take(body.len() as int) =~= body);
}

/// Reads the characters of `chars` from `from` up to `to` as a number.
pub fn parseDigits(chars: &[char], from: usize, to: usize) -> (r: Result<usize, NumberError>)
    requires
        from <= to <= chars@.len(),
    ensures
        r == read_number(chars@.subrange(from as int, to as int)),
{
    let ghost word = chars@.subrange(from as int, to as int);
    let ghost body = unsigned_part(word);
    if from == to {
        return Err(NumberError::Empty);
    }
    let start = if chars[from] == '+' {
        from + 1
    } else {
        from
    };
    assert(body =~= chars@.subrange(start as int, to as int));
    let mut value: usize = 0;
    let mut i = start;
    while i < to
        invariant
            from <= start <= i <= to <= chars@.len(),
            from < to,
            body == unsigned_part(chars@.subrange(from as int, to as int)),
            body == chars@.subrange(start as int, to as int),
            forall|k: int| 0 <= k < i - start ==> in_class(body[k], CharClass::Digit),
            value == decimal_value(body.take(i - start)),
        decreases to - i,
    {
        let digit = match digitOf(chars[i]) {
            Some(digit) => digit,
            None => {
                proof {
                    lemma_run_end(body, 0, i - start, CharClass::Digit);
                }
                return Err(NumberError::InvalidDigit);
            },
        };
        proof {
            lemma_decimal_value_step(body, i - start);
        }
        if value > (usize::MAX - digit) / 10 {
            proof {
                // The digits read so far, this one included, are among the
                // leading digits, whose value is then too large as well.
                let read = i - start + 1;
                let run = run_end(body, 0, CharClass::Digit);
                lemma_run_end_is_maximal(body, 0, CharClass::Digit);
                assert(read <= run) by {
                    if run < read {
                        assert(in_class(body[run], CharClass::Digit));
                    }
                }
                lemma_decimal_value_grows(body.take(run), read, run);
                assert(body.take(run).take(read) =~= body.take(read));
                assert(body.take(run).take(run) =~= body.take(run));
            }
            return Err(NumberError::TooLarge);
        }
        value = value * 10 + digit;
        i += 1;
    }
    proof {
        lemma_run_end(body, 0, body.len() as int, CharClass::Digit);
        assert(body.take(body.len() as int) =~= body);
    }
    if start == to {
        Err(NumberError::InvalidDigit)
    } else {
        Ok(value)
    }
}

/// Reads `word` as a coordinate.
pub fn parseNumber(word: &str) -> (r: Result<usize, NumberError>)
    ensures
        r == read_number(word@),
{
    let chars = characters(word);
    assert(chars@.subrange(0, chars@.len() as int) =~= chars@);
    parseDigits(chars.as_slice(), 0, chars.len())
}

} // verus!
