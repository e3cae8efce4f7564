//! Reading a line of input as a move.
use vstd::prelude::*;
use vstd::string::*;
use crate::number::{number_error_text, parseDigits, read_number, NumberError};
use crate::text::{characters, lemma_run_end_is_maximal, run_end, scanRun, CharClass};

verus! {

/// Why a line of input names no move.
#[derive(Copy, Clone, Debug, PartialEq, Eq, Structural)]
pub enum InputError {
    /// The line does not hold exactly two words.
    ArgumentCount,
    /// The first word is no number.
    Column(NumberError),
    /// The second word is no number.
    Row(NumberError),
    /// Neither word is a number.
    Both(NumberError, NumberError),
}

/// The text shown to the player for each kind of unreadable line.
pub open spec fn input_error_text(e: InputError) -> Seq<char> {
    match e {
        InputError::ArgumentCount => "Incorrect number of arguments"@,
        InputError::Column(column) => number_error_text(column),
        InputError::Row(row) => number_error_text(row),
        InputError::Both(column, row) => number_error_text(column) + ", "@ + number_error_text(
            row,
        ),
    }
}

impl InputError {
    /// The text shown to the player for this error.
    pub fn message(&self) -> (s: String)
        ensures
            s@ == input_error_text(*self),
    {
        match self {
            InputError::ArgumentCount => String::from_str("Incorrect number of arguments"),
            InputError::Column(column) => column.message(),
            InputError::Row(row) => row.message(),
            InputError::Both(column, row) => {
                let mut s = column.message();
                s.append(", ");
                let tail = row.message();
                s.append(tail.as_str());
                s
            },
        }
    }
}

/// The words of `s` that begin at or after `from`, in order. A word is a
/// longest stretch of characters none of which parts words.
///
/// The word sought begins where the parting characters from `from` on end,
/// and there is one unless the sequence ends there: a word has a character
/// at least.
pub open spec fn words_from(s: Seq<char>, from: int) -> Seq<Seq<char>>
    decreases s.len() - from,
{
    let start = run_end(s, from, CharClass::Space);
    let end = run_end(s, start, CharClass::Word);
    if from <= start < end <= s.len() {
        seq![s.subrange(start, end)] + words_from(s, end)
    } else {
        Seq::empty()
    }
}

/// The words of a line.
pub open spec fn words(line: Seq<char>) -> Seq<Seq<char>> {
    words_from(line, 0)
}

/// What two readings, of a column and of a row, amount to.
pub open spec fn pair_up(
    column: Result<usize, NumberError>,
    row: Result<usize, NumberError>,
) -> Result<(usize, usize), InputError> {
    match (column, row) {
        (Ok(x), Ok(y)) => Ok((x, y)),
        (Err(e), Ok(_)) => Err(InputError::Column(e)),
        (Ok(_), Err(e)) => Err(InputError::Row(e)),
        (Err(e1), Err(e2)) => Err(InputError::Both(e1, e2)),
    }
}

/// The move that a line names: a column and a row, in this order, where
/// the line holds two words and both read as numbers.
pub open spec fn read_move(line: Seq<char>) -> Result<(usize, usize), InputError> {
    if words(line).len() != 2 {
        Err(InputError::ArgumentCount)
    } else {
        pair_up(read_number(words(line)[0]), read_number(words(line)[1]))
    }
}

/// Where parting characters are followed by a word, that word is the
/// first of the words from there on, and the others are those that follow
/// its end.
pub proof fn lemma_words_from_step(s: Seq<char>, from: int)
    requires
        0 <= from <= s.len(),
        run_end(s, from, CharClass::Space) < s.len(),
    ensures
        ({
            let start = run_end(s, from, CharClass::Space);
            let end = run_end(s, start, CharClass::Word);
            &&& from <= start < end <= s.len()
            &&& words_from(s, from) == seq![s.subrange(start, end)] + words_from(s, end)
        }),
{
    let start = run_end(s, from, CharClass::Space);
    lemma_run_end_is_maximal(s, from, CharClass::Space);
    lemma_run_end_is_maximal(s, start, CharClass::Word);
}

/// Where only parting characters are left, no word is.
pub proof fn lemma_words_from_end(s: Seq<char>, from: int)
    requires
        0 <= from <= s.len(),
        run_end(s, from, CharClass::Space) == s.len(),
    ensures
        words_from(s, from) == Seq::<Seq<char>>::empty(),
{
    lemma_run_end_is_maximal(s, s.len() as int, CharClass::Word);
}

/// Combines the readings of a column and of a row.
pub fn pairUp(column: Result<usize, NumberError>, row: Result<usize, NumberError>) -> (r: Result<
    (usize, usize),
    InputError,
>)
    ensures
        r == pair_up(column, row),
{
    match (column, row) {
        (Ok(x), Ok(y)) => Ok((x, y)),
        (Err(e), Ok(_)) => Err(InputError::Column(e)),
        (Ok(_), Err(e)) => Err(InputError::Row(e)),
        (Err(e1), Err(e2)) => Err(InputError::Both(e1, e2)),
    }
}

/// Reads a line of input as a move: a column, then a row.
pub fn parseMove(line: &str) -> (r: Result<(usize, usize), InputError>)
    ensures
        r == read_move(line@),
{
    let chars = characters(line);
    let chars = chars.as_slice();
    let n = chars.len();
    let columnStart = scanRun(chars, 0, CharClass::Space);
    if columnStart == n {
        proof {
            lemma_words_from_end(chars@, 0);
        }
        return Err(InputError::ArgumentCount);
    }
    let columnEnd = scanRun(chars, columnStart, CharClass::Word);
    let rowStart = scanRun(chars, columnEnd, CharClass::Space);
    proof {
        lemma_words_from_step(chars@, 0);
    }
    if rowStart == n {
        proof {
            lemma_words_from_end(chars@, columnEnd as int);
        }
        return Err(InputError::ArgumentCount);
    }
    let rowEnd = scanRun(chars, rowStart, CharClass::Word);
    let rest = scanRun(chars, rowEnd, CharClass::Space);
    proof {
        lemma_words_from_step(chars@, columnEnd as int);
    }
    if rest != n {
        proof {
            lemma_words_from_step(chars@, rowEnd as int);
        }
        return Err(InputError::ArgumentCount);
    }
    proof {
        lemma_words_from_end(chars@, rowEnd as int);
    }
    pairUp(parseDigits(chars, columnStart, columnEnd), parseDigits(chars, rowStart, rowEnd))
}

} // verus!
