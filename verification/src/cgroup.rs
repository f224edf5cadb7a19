//! The control group's accounting files.
//!
//! The kernel publishes the memory limit and the memory usage of a
//! control group as two small text files, each holding one decimal number
//! and a newline. This module says what number such contents stand for
//! and turns the contents of a file, or the fact that it could not be
//! read, into a [`Reading`].
//!
//! A text is read as `str::trim` followed by `str::parse::<usize>` reads
//! it: whitespace at both ends is dropped, and what is left must be an
//! optional `+` and then decimal digits, one at least, whose value fits
//! in a `usize`.

use crate::errors::{outcome, ErrorKind, ErrorView, Outcome, Reading};
use vstd::prelude::*;
use vstd::std_specs::iter::IteratorSpec;

verus! {

/// Where the control group publishes the memory limit, in bytes.
pub const LIMIT_PATH: &'static str = "/sys/fs/cgroup/memory/memory.limit_in_bytes";

/// Where the control group publishes the memory in use, in bytes.
pub const USAGE_PATH: &'static str = "/sys/fs/cgroup/memory/memory.usage_in_bytes";

/// Whether a character has the Unicode property `White_Space`.
pub open spec fn is_whitespace(c: char) -> bool {
    let code = c as u32;
    ||| 0x09 <= code <= 0x0D
    ||| code == 0x20
    ||| code == 0x85
    ||| code == 0xA0
    ||| code == 0x1680
    ||| 0x2000 <= code <= 0x200A
    ||| code == 0x2028
    ||| code == 0x2029
    ||| code == 0x202F
    ||| code == 0x205F
    ||| code == 0x3000
}

/// Whether a character is one of `0` to `9`.
pub open spec fn is_digit(c: char) -> bool {
    0x30 <= c as u32 <= 0x39
}

/// The value of a decimal digit; zero for any other character.
pub open spec fn digit_value(c: char) -> nat {
    if is_digit(c) {
        (c as u32 - 0x30) as nat
    } else {
        0
    }
}

/// A text without the whitespace that it begins with.
pub open spec fn trim_start(text: Seq<char>) -> Seq<char>
    decreases text.len(),
{
    if text.len() > 0 && is_whitespace(text.first()) {
        trim_start(text.drop_first())
    } else {
        text
    }
}

/// A text without the whitespace that it ends with.
pub open spec fn trim_end(text: Seq<char>) -> Seq<char>
    decreases text.len(),
{
    if text.len() > 0 && is_whitespace(text.last()) {
        trim_end(text.drop_last())
    } else {
        text
    }
}

/// A text without the whitespace at either end.
pub open spec fn trim(text: Seq<char>) -> Seq<char> {
    trim_end(trim_start(text))
}

/// Whether a text holds decimal digits and nothing else.
pub open spec fn all_digits(text: Seq<char>) -> bool {
    forall|i: int| 0 <= i < text.len() ==> is_digit(#[trigger] text[i])
}

/// The number that a run of decimal digits spells.
pub open spec fn decimal_value(digits: Seq<char>) -> nat
    decreases digits.len(),
{
    if digits.len() == 0 {
        0
    } else {
        10 * decimal_value(digits.drop_last()) + digit_value(digits.last())
    }
}

/// A text without the `+` that it may begin with.
pub open spec fn without_sign(text: Seq<char>) -> Seq<char> {
    if text.len() > 0 && text.first() == '+' {
        text.drop_first()
    } else {
        text
    }
}

/// The number that a text spells: an optional `+`, then decimal digits,
/// one at least, and nothing else. A text of any other shape spells
/// none, nor does one whose value is beyond `usize::MAX`.
pub open spec fn number_in(text: Seq<char>) -> Option<usize> {
    let digits = without_sign(text);
    if digits.len() > 0 && all_digits(digits) && decimal_value(digits) <= usize::MAX {
        Some(decimal_value(digits) as usize)
    } else {
        None
    }
}

/// The count of bytes that the contents of an accounting file stand for.
pub open spec fn quantity_in(contents: Seq<char>) -> Option<usize> {
    number_in(trim(contents))
}

/// What a file yields: the quantity in its contents, and a failure that
/// names the file where it could not be read or holds no quantity.
pub open spec fn file_outcome(path: Seq<char>, contents: Option<Seq<char>>) -> Outcome {
    match contents {
        Some(text) => match quantity_in(text) {
            Some(bytes) => Ok(bytes),
            None => Err(ErrorView::File(path)),
        },
        None => Err(ErrorView::File(path)),
    }
}

/// Whether `start` is where the leading whitespace of a text ends.
pub open spec fn is_first_after_whitespace(text: Seq<char>, start: int) -> bool {
    &&& 0 <= start <= text.len()
    &&& forall|i: int| 0 <= i < start ==> is_whitespace(#[trigger] text[i])
    &&& start < text.len() ==> !is_whitespace(text[start])
}

/// Whether `end` is where the trailing whitespace of a text begins.
pub open spec fn is_last_before_whitespace(text: Seq<char>, end: int) -> bool {
    &&& 0 <= end <= text.len()
    &&& forall|i: int| end <= i < text.len() ==> is_whitespace(#[trigger] text[i])
    &&& 0 < end ==> !is_whitespace(text[end - 1])
}

/// Past leading whitespace a text begins where its first other character
/// stands.
pub proof fn lemma_trim_start(text: Seq<char>, start: int)
    requires
        is_first_after_whitespace(text, start),
    ensures
        trim_start(text) == text.subrange(start, text.len() as int),
    decreases start,
{
    if start > 0 {
        let rest = text.drop_first();
        assert(is_first_after_whitespace(rest, start - 1));
        lemma_trim_start(rest, start - 1);
        assert(rest.subrange(start - 1, rest.len() as int) =~= text.subrange(
            start,
            text.len() as int,
        ));
    }
}

/// Before trailing whitespace a text ends where its last other character
/// stands.
pub proof fn lemma_trim_end(text: Seq<char>, end: int)
    requires
        is_last_before_whitespace(text, end),
    ensures
        trim_end(text) == text.take(end),
    decreases text.len() - end,
{
    if end < text.len() {
        lemma_trim_end(text.drop_last(), end);
    }
}

/// Where the part of a text that is left after trimming begins and ends.
/// Outside these bounds the text is whitespace. Where anything is left,
/// it begins and ends with a character that is none.
pub proof fn lemma_trim_bounds(text: Seq<char>) -> (bounds: (int, int))
    ensures
        0 <= bounds.0 <= bounds.1 <= text.len(),
        trim(text) == text.subrange(bounds.0, bounds.1),
        forall|i: int| 0 <= i < bounds.0 ==> is_whitespace(#[trigger] text[i]),
        forall|i: int| bounds.1 <= i < text.len() ==> is_whitespace(#[trigger] text[i]),
        bounds.0 < bounds.1 ==> !is_whitespace(text[bounds.0]) && !is_whitespace(
            text[bounds.1 - 1],
        ),
{
    let start = choose|start: int| is_first_after_whitespace(text, start);
    assert(is_first_after_whitespace(text, start)) by {
        lemma_leading_whitespace_ends(text);
    }
    let tail = text.subrange(start, text.len() as int);
    let end = choose|end: int| is_last_before_whitespace(tail, end);
    assert(is_last_before_whitespace(tail, end)) by {
        lemma_trailing_whitespace_begins(tail);
    }
    lemma_trim_start(text, start);
    lemma_trim_end(tail, end);
    assert forall|i: int| start + end <= i < text.len() implies is_whitespace(
        #[trigger] text[i],
    ) by {
        assert(text[i] == tail[i - start]);
    }
    (start, start + end)
}

/// The leading whitespace of a text ends somewhere.
proof fn lemma_leading_whitespace_ends(text: Seq<char>)
    ensures
        exists|start: int| is_first_after_whitespace(text, start),
    decreases text.len(),
{
    if text.len() > 0 && is_whitespace(text.first()) {
        let rest = text.drop_first();
        lemma_leading_whitespace_ends(rest);
        let start = choose|start: int| is_first_after_whitespace(rest, start);
        assert forall|i: int| 0 <= i < start + 1 implies is_whitespace(#[trigger] text[i]) by {
            if i > 0 {
                assert(text[i] == rest[i - 1]);
            }
        }
        assert(is_first_after_whitespace(text, start + 1));
    } else {
        assert(is_first_after_whitespace(text, 0));
    }
}

/// The trailing whitespace of a text begins somewhere.
proof fn lemma_trailing_whitespace_begins(text: Seq<char>)
    ensures
        exists|end: int| is_last_before_whitespace(text, end),
    decreases text.len(),
{
    if text.len() > 0 && is_whitespace(text.last()) {
        let rest = text.drop_last();
        lemma_trailing_whitespace_begins(rest);
        let end = choose|end: int| is_last_before_whitespace(rest, end);
        assert forall|i: int| end <= i < text.len() implies is_whitespace(#[trigger] text[i]) by {
            if i < rest.len() {
                assert(text[i] == rest[i]);
            }
        }
        assert(is_last_before_whitespace(text, end));
    } else {
        assert(is_last_before_whitespace(text, text.len() as int));
    }
}

/// Contents that hold a character which is no digit, no whitespace and
/// no `+` hold no quantity.
pub proof fn lemma_foreign_character(contents: Seq<char>, at: int)
    requires
        0 <= at < contents.len(),
        !is_digit(contents[at]),
        !is_whitespace(contents[at]),
        contents[at] != '+',
    ensures
        quantity_in(contents) is None,
{
    let (start, _) = lemma_trim_bounds(contents);
    let trimmed = trim(contents);
    let digits = without_sign(trimmed);
    if trimmed.first() == '+' {
        assert(digits[at - start - 1] == contents[at]);
    } else {
        assert(digits[at - start] == contents[at]);
    }
}

/// Contents that hold whitespace and nothing else, and empty contents,
/// hold no quantity.
pub proof fn lemma_blank(contents: Seq<char>)
    requires
        forall|i: int| 0 <= i < contents.len() ==> is_whitespace(#[trigger] contents[i]),
    ensures
        quantity_in(contents) is None,
{
    lemma_trim_bounds(contents);
}

/// Digits and a newline after them, as the kernel writes a count, hold
/// the number that the digits spell, where it fits in a `usize`.
pub proof fn lemma_line_of_digits(digits: Seq<char>)
    requires
        digits.len() > 0,
        all_digits(digits),
        decimal_value(digits) <= usize::MAX,
    ensures
        quantity_in(digits.push('\n')) == Some(decimal_value(digits) as usize),
        quantity_in(digits) == Some(decimal_value(digits) as usize),
{
    let line = digits.push('\n');
    assert(line.drop_last() =~= digits);
}

/// One more digit multiplies the value by ten and adds the digit.
pub proof fn lemma_decimal_step(digits: Seq<char>, count: int)
    requires
        0 <= count < digits.len(),
    ensures
        decimal_value(digits.take(count + 1)) == 10 * decimal_value(digits.take(count))
            + digit_value(digits[count]),
{
    assert(digits.take(count + 1).drop_last() =~= digits.take(count));
}

/// The digits read so far never spell more than the whole run does.
pub proof fn lemma_decimal_prefix(digits: Seq<char>, count: int)
    requires
        0 <= count <= digits.len(),
    ensures
        decimal_value(digits.take(count)) <= decimal_value(digits),
    decreases digits.len() - count,
{
    if count == digits.len() {
        assert(digits.take(count) =~= digits);
    } else {
        lemma_decimal_step(digits, count);
        lemma_decimal_prefix(digits, count + 1);
    }
}

/// Whether a character has the Unicode property `White_Space`.
fn whitespace(c: char) -> (yes: bool)
    ensures
        yes == is_whitespace(c),
{
    let code: u32 = c as u32;
    (0x09 <= code && code <= 0x0D) || code == 0x20 || code == 0x85 || code == 0xA0 || code
        == 0x1680 || (0x2000 <= code && code <= 0x200A) || code == 0x2028 || code == 0x2029
        || code == 0x202F || code == 0x205F || code == 0x3000
}

/// The value of a decimal digit, and nothing for any other character.
fn digit(c: char) -> (value: Option<usize>)
    ensures
        value is Some <==> is_digit(c),
        value is Some ==> value->0 == digit_value(c),
{
    let code: u32 = c as u32;
    if 0x30 <= code && code <= 0x39 {
        Some((code - 0x30) as usize)
    } else {
        None
    }
}

/// The characters of a text, one by one.
fn characters(text: &str) -> (chars: Vec<char>)
    ensures
        chars@ == text@,
{
    let mut chars: Vec<char> = Vec::new();
    for c in it: text.chars()
        invariant
            it.seq() == text@,
            chars@ == it.seq().take(it.index() as int),
    {
        chars.push(c);
    }
    chars
}

/// Reads the count of bytes that the contents of an accounting file
/// stand for.
pub fn parse_usize(contents: &str) -> (quantity: Option<usize>)
    ensures
        quantity == quantity_in(contents@),
{
    let chars = characters(contents);
    let length = chars.len();
    let mut start: usize = 0;
    while start < length && whitespace(chars[start])
        invariant
            length == chars@.len(),
            start <= length,
            forall|i: int| 0 <= i < start ==> is_whitespace(#[trigger] chars@[i]),
        decreases length - start,
    {
        start += 1;
    }
    let mut end: usize = length;
    while end > start && whitespace(chars[end - 1])
        invariant
            length == chars@.len(),
            start <= end <= length,
            forall|i: int| end <= i < length ==> is_whitespace(#[trigger] chars@[i]),
        decreases end - start,
    {
        end -= 1;
    }
    proof {
        let tail = chars@.subrange(start as int, length as int);
        lemma_trim_start(chars@, start as int);
        lemma_trim_end(tail, end - start);
        assert(trim(contents@) =~= chars@.subrange(start as int, end as int));
    }
    let mut at: usize = start;
    if at < end && chars[at] == '+' {
        at += 1;
    }
    let first = at;
    let ghost digits = chars@.subrange(first as int, end as int);
    assert(digits =~= without_sign(trim(contents@)));
    if at == end {
        return None;
    }
    let mut value: usize = 0;
    while at < end
        invariant
            length == chars@.len(),
            first <= at <= end <= length,
            digits == chars@.subrange(first as int, end as int),
            digits == without_sign(trim(contents@)),
            all_digits(digits.take(at - first)),
            value == decimal_value(digits.take(at - first)),
        decreases end - at,
    {
        proof {
            lemma_decimal_step(digits, at - first);
            lemma_decimal_prefix(digits, at - first + 1);
        }
        let units = match digit(chars[at]) {
            Some(units) => units,
            None => { return None; },
        };
        let tens = match value.checked_mul(10) {
            Some(tens) => tens,
            None => { return None; },
        };
        value = match tens.checked_add(units) {
            Some(sum) => sum,
            None => { return None; },
        };
        at += 1;
    }
    assert(digits.take(at - first) =~= digits);
    Some(value)
}

/// Turns what was read from the accounting file at `path` into a
/// reading.
///
/// `contents` is the text of the file, or nothing where the file could
/// not be opened or read. Nothing, and contents that hold no quantity,
/// give the one failure that names the file.
pub fn read_file_usize(path: &str, contents: Option<&str>) -> (reading: Reading)
    ensures
        outcome(reading) == file_outcome(path@, contents.deep_view()),
{
    let quantity = match contents {
        Some(text) => parse_usize(text),
        None => None,
    };
    match quantity {
        Some(bytes) => Ok(bytes),
        None => Err(ErrorKind::File(path.to_owned())),
    }
}

} // verus!
