//! Characters by kind, and runs of characters of one kind.
use vstd::prelude::*;

verus! {

/// The characters that part one word of a line from the next: those that
/// Unicode lists as White_Space.
pub open spec fn is_space(c: char) -> bool {
    let code = c as u32;
    ||| 0x09 <= code <= 0x0D
    ||| code == 0x20
    ||| code == 0x85
    ||| code == 0xA0
    ||| code == 0x1680
    ||| 0x2000 <= code <= 0x200A
    ||| code == 0x2028
    ||| code == 0x2029
    ||| code == 0x202F
    ||| code == 0x205F
    ||| code == 0x3000
}

/// The ten decimal digits of ASCII.
pub open spec fn is_digit(c: char) -> bool {
    0x30 <= c as u32 <= 0x39
}

/// The number that a decimal digit stands for.
pub open spec fn digit_value(c: char) -> nat {
    (c as u32 - 0x30) as nat
}

/// The kinds of character that the reading of a line tells apart.
#[derive(Copy, Clone, Debug, PartialEq, Eq, Structural)]
pub enum CharClass {
    /// Characters that part words.
    Space,
    /// Characters that words are made of: all but the parting ones.
    Word,
    /// The decimal digits.
    Digit,
}

/// `c` is of the kind `class`.
pub open spec fn in_class(c: char, class: CharClass) -> bool {
    match class {
        CharClass::Space => is_space(c),
        CharClass::Word => !is_space(c),
        CharClass::Digit => is_digit(c),
    }
}

/// Where the run of characters of one kind that starts at `from` ends: the
/// first position at or after `from` whose character is of another kind,
/// or the length of `s` if there is none.
pub open spec fn run_end(s: Seq<char>, from: int, class: CharClass) -> int
    decreases s.len() - from,
{
    if 0 <= from < s.len() && in_class(s[from], class) {
        run_end(s, from + 1, class)
    } else {
        from
    }
}

/// A stretch of characters of one kind that cannot be extended to the
/// right is the run that starts at its first position.
pub proof fn lemma_run_end(s: Seq<char>, from: int, to: int, class: CharClass)
    requires
        0 <= from <= to <= s.len(),
        forall|k: int| from <= k < to ==> in_class(s[k], class),
        to == s.len() || !in_class(s[to], class),
    ensures
        run_end(s, from, class) == to,
    decreases to - from,
{
    if from < to {
        lemma_run_end(s, from + 1, to, class);
    }
}

/// A run stays inside the sequence, holds characters of its kind only, and
/// stops at the end or before a character of another kind.
pub proof fn lemma_run_end_is_maximal(s: Seq<char>, from: int, class: CharClass)
    requires
        0 <= from <= s.len(),
    ensures
        from <= run_end(s, from, class) <= s.len(),
        forall|k: int| from <= k < run_end(s, from, class) ==> in_class(s[k], class),
        run_end(s, from, class) == s.len() || !in_class(s[run_end(s, from, class)], class),
    decreases s.len() - from,
{
    if from < s.len() && in_class(s[from], class) {
        lemma_run_end_is_maximal(s, from + 1, class);
    }
}

/// Tells whether `c` parts words.
pub fn isWhitespace(c: char) -> (b: bool)
    ensures
        b == is_space(c),
{
    let code = c as u32;
    (0x09 <= code && code <= 0x0D) || code == 0x20 || code == 0x85 || code == 0xA0 || code
        == 0x1680 || (0x2000 <= code && code <= 0x200A) || code == 0x2028 || code == 0x2029
        || code == 0x202F || code == 0x205F || code == 0x3000
}

/// The value of `c` as a decimal digit, if it is one.
pub fn digitOf(c: char) -> (d: Option<usize>)
    ensures
        d is Some <==> is_digit(c),
        d matches Some(v) ==> v == digit_value(c),
{
    let code = c as u32;
    if 0x30 <= code && code <= 0x39 {
        Some((code - 0x30) as usize)
    } else {
        None
    }
}

/// Tells whether `c` is of the kind `class`.
pub fn inClass(c: char, class: CharClass) -> (b: bool)
    ensures
        b == in_class(c, class),
{
    match class {
        CharClass::Space => isWhitespace(c),
        CharClass::Word => !isWhitespace(c),
        CharClass::Digit => digitOf(c).is_some(),
    }
}

/// Finds the end of the run of characters of the kind `class` that starts
/// at `from`.
pub fn scanRun(chars: &[char], from: usize, class: CharClass) -> (end: usize)
    requires
        from <= chars@.len(),
    ensures
        end == run_end(chars@, from as int, class),
        from <= end <= chars@.len(),
{
    let mut end = from;
    while end < chars.len() && inClass(chars[end], class)
        invariant
            from <= end <= chars@.len(),
            forall|k: int| from <= k < end ==> in_class(chars@[k], class),
        decreases chars@.len() - end,
    {
        end += 1;
    }
    proof {
        lemma_run_end(chars@, from as int, end as int, class);
    }
    end
}

/// The characters of `line`, in order.
pub fn characters(line: &str) -> (chars: Vec<char>)
    ensures
        chars@ == line@,
{
    let mut chars: Vec<char> = Vec::new();
    for c in it: line.chars()
        invariant
            it.seq() == line@,
            chars@ == it.seq().take(it.index() as int),
    {
        chars.push(c);
    }
    chars
}

} // verus!
