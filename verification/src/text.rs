//! Text helpers shared by the rest of the library: decimal numbers, and the
//! string tests that DNS names need.

use vstd::prelude::*;
use vstd::string::*;

verus! {

/// The character that stands for the decimal digit `d`.
pub open spec fn digit_char(d: nat) -> char {
    if d == 0 {
        '0'
    } else if d == 1 {
        '1'
    } else if d == 2 {
        '2'
    } else if d == 3 {
        '3'
    } else if d == 4 {
        '4'
    } else if d == 5 {
        '5'
    } else if d == 6 {
        '6'
    } else if d == 7 {
        '7'
    } else if d == 8 {
        '8'
    } else {
        '9'
    }
}

/// The decimal notation of `n`, without sign and without leading zeros.
pub open spec fn decimal_digits(n: nat) -> Seq<char>
    decreases n,
{
    if n < 10 {
        seq![digit_char(n)]
    } else {
        decimal_digits(n / 10).push(digit_char(n % 10))
    }
}

fn digit_text(d: u64) -> (text: &'static str)
    requires
        d < 10,
    ensures
        text@ == seq![digit_char(d as nat)],
{
    proof {
        reveal_strlit("0");
        reveal_strlit("1");
        reveal_strlit("2");
        reveal_strlit("3");
        reveal_strlit("4");
        reveal_strlit("5");
        reveal_strlit("6");
        reveal_strlit("7");
        reveal_strlit("8");
        reveal_strlit("9");
    }
    let text = if d == 0 {
        "0"
    } else if d == 1 {
        "1"
    } else if d == 2 {
        "2"
    } else if d == 3 {
        "3"
    } else if d == 4 {
        "4"
    } else if d == 5 {
        "5"
    } else if d == 6 {
        "6"
    } else if d == 7 {
        "7"
    } else if d == 8 {
        "8"
    } else {
        "9"
    };
    assert(text@ =~= seq![digit_char(d as nat)]);
    text
}

/// Writes `n` in decimal notation.
pub fn decimal(n: u64) -> (text: String)
    ensures
        text@ == decimal_digits(n as nat),
    decreases n,
{
    if n < 10 {
        String::from_str(digit_text(n))
    } else {
        let mut text = decimal(n / 10);
        text.append(digit_text(n % 10));
        assert(text@ =~= decimal_digits((n / 10) as nat).push(digit_char((n % 10) as nat)));
        text
    }
}

/// The number that a decimal digit stands for; nothing for any other
/// character.
pub open spec fn digit_of(c: char) -> Option<nat> {
    if c == '0' {
        Some(0)
    } else if c == '1' {
        Some(1)
    } else if c == '2' {
        Some(2)
    } else if c == '3' {
        Some(3)
    } else if c == '4' {
        Some(4)
    } else if c == '5' {
        Some(5)
    } else if c == '6' {
        Some(6)
    } else if c == '7' {
        Some(7)
    } else if c == '8' {
        Some(8)
    } else if c == '9' {
        Some(9)
    } else {
        None
    }
}

/// Tells whether a text holds decimal digits only.
pub open spec fn all_digits(digits: Seq<char>) -> bool {
    forall|i: int| 0 <= i < digits.len() ==> digit_of(#[trigger] digits[i]) is Some
}

/// The number that a run of decimal digits stands for.
pub open spec fn digits_value(digits: Seq<char>) -> nat
    decreases digits.len(),
{
    if digits.len() == 0 {
        0
    } else {
        digits_value(digits.drop_last()) * 10 + match digit_of(digits.last()) {
            Some(digit) => digit,
            None => 0,
        }
    }
}

/// A text without the plus sign that may stand in front of a number.
pub open spec fn unsigned_part(text: Seq<char>) -> Seq<char> {
    if text.len() > 0 && text[0] == '+' {
        text.subrange(1, text.len() as int)
    } else {
        text
    }
}

/// The number that a text stands for: an optional plus sign, then at least
/// one decimal digit and nothing else, with a value that 32 bits can hold.
pub open spec fn parsed_u32(text: Seq<char>) -> Option<u32> {
    let digits = unsigned_part(text);
    if digits.len() > 0 && all_digits(digits) && digits_value(digits) <= u32::MAX {
        Some(digits_value(digits) as u32)
    } else {
        None
    }
}

/// A run of digits stands for no less than any of its beginnings.
proof fn lemma_beginning_stands_for_less(digits: Seq<char>, length: int)
    requires
        0 <= length <= digits.len(),
    ensures
        digits_value(digits.take(length)) <= digits_value(digits),
    decreases digits.len(),
{
    if length == digits.len() {
        assert(digits.take(length) =~= digits);
    } else {
        lemma_beginning_stands_for_less(digits.drop_last(), length);
        assert(digits.drop_last().take(length) =~= digits.take(length));
    }
}

fn digit(c: char) -> (value: Option<u64>)
    ensures
        match digit_of(c) {
            Some(digit) => value == Some(digit as u64),
            None => value is None,
        },
        value matches Some(digit) ==> digit < 10,
{
    if c == '0' {
        Some(0)
    } else if c == '1' {
        Some(1)
    } else if c == '2' {
        Some(2)
    } else if c == '3' {
        Some(3)
    } else if c == '4' {
        Some(4)
    } else if c == '5' {
        Some(5)
    } else if c == '6' {
        Some(6)
    } else if c == '7' {
        Some(7)
    } else if c == '8' {
        Some(8)
    } else if c == '9' {
        Some(9)
    } else {
        None
    }
}

/// Reads a number from a text, as [`parsed_u32`] says.
pub fn parse_u32(text: &str) -> (number: Option<u32>)
    ensures
        number == parsed_u32(text@),
{
    let chars = chars_of(text);
    let start: usize = if chars.len() > 0 && chars[0] == '+' {
        1
    } else {
        0
    };
    let ghost digits = unsigned_part(text@);
    assert(digits =~= chars@.subrange(start as int, chars.len() as int));
    if start == chars.len() {
        return None;
    }
    let mut value: u64 = 0;
    let mut index: usize = start;
    assert(digits.take(0) =~= Seq::<char>::empty());
    while index < chars.len()
        invariant
            start <= index <= chars.len(),
            start < chars.len(),
            digits == unsigned_part(text@),
            digits == chars@.subrange(start as int, chars.len() as int),
            all_digits(digits.take(index - start)),
            value == digits_value(digits.take(index - start)),
            value <= u32::MAX,
        decreases chars.len() - index,
    {
        let ghost seen = digits.take(index - start);
        let ghost grown = digits.take(index - start + 1);
        assert(grown.drop_last() =~= seen);
        assert(grown.last() == chars@[index as int]);
        match digit(chars[index]) {
            None => {
                assert(digit_of(digits[index - start]) is None);
                return None;
            },
            Some(units) => {
                let next: u64 = value * 10 + units;
                assert(next == digits_value(grown));
                if next > 0xffff_ffff {
                    proof {
                        lemma_beginning_stands_for_less(digits, index - start + 1);
                    }
                    return None;
                }
                assert forall|i: int| 0 <= i < grown.len() implies digit_of(
                    #[trigger] grown[i],
                ) is Some by {
                    if i < seen.len() {
                        assert(grown[i] == seen[i]);
                    }
                }
                value = next;
            },
        }
        index = index + 1;
    }
    assert(digits.take(index - start) =~= digits);
    Some(value as u32)
}

/// The characters of `text`, one by one.
pub fn chars_of(text: &str) -> (chars: Vec<char>)
    ensures
        chars@ == text@,
{
    let length: usize = text.unicode_len();
    let mut chars: Vec<char> = Vec::new();
    let mut index: usize = 0;
    while index < length
        invariant
            length == text@.len(),
            index <= length,
            chars@ == text@.subrange(0, index as int),
        decreases length - index,
    {
        chars.push(text.get_char(index));
        assert(chars@ =~= text@.subrange(0, index as int + 1));
        index = index + 1;
    }
    assert(chars@ =~= text@);
    chars
}

/// Tells whether two texts hold the same characters.
pub fn same_text(left: &str, right: &str) -> (same: bool)
    ensures
        same == (left@ == right@),
{
    let left_chars = chars_of(left);
    let right_chars = chars_of(right);
    if left_chars.len() != right_chars.len() {
        return false;
    }
    let mut index: usize = 0;
    while index < left_chars.len()
        invariant
            left_chars@ == left@,
            right_chars@ == right@,
            left_chars.len() == right_chars.len(),
            index <= left_chars.len(),
            left@.subrange(0, index as int) == right@.subrange(0, index as int),
        decreases left_chars.len() - index,
    {
        if left_chars[index] != right_chars[index] {
            return false;
        }
        assert(left@.subrange(0, index as int + 1) =~= left@.subrange(0, index as int).push(
            left@[index as int],
        ));
        assert(right@.subrange(0, index as int + 1) =~= right@.subrange(0, index as int).push(
            right@[index as int],
        ));
        index = index + 1;
    }
    assert(left@ =~= left@.subrange(0, index as int));
    assert(right@ =~= right@.subrange(0, index as int));
    true
}

/// Tells whether `needle` stands in `haystack` from position `start` on.
pub open spec fn occurs_at(needle: Seq<char>, haystack: Seq<char>, start: int) -> bool {
    0 <= start && start + needle.len() <= haystack.len() && haystack.subrange(
        start,
        start + needle.len(),
    ) == needle
}

/// Tells whether `needle` occurs somewhere in `haystack` as a run of
/// consecutive characters. The empty text occurs in every text.
pub open spec fn occurs_in(needle: Seq<char>, haystack: Seq<char>) -> bool {
    exists|start: int| occurs_at(needle, haystack, start)
}

fn found_at(needle: &Vec<char>, haystack: &Vec<char>, start: usize) -> (found: bool)
    requires
        start + needle.len() <= haystack.len(),
    ensures
        found == occurs_at(needle@, haystack@, start as int),
{
    let mut index: usize = 0;
    while index < needle.len()
        invariant
            start + needle.len() <= haystack.len(),
            index <= needle.len(),
            forall|k: int| 0 <= k < index ==> haystack@[start + k] == needle@[k],
        decreases needle.len() - index,
    {
        if haystack[start + index] != needle[index] {
            assert(haystack@.subrange(start as int, start + needle.len())[index as int]
                != needle@[index as int]);
            return false;
        }
        index = index + 1;
    }
    assert(haystack@.subrange(start as int, start + needle.len()) =~= needle@);
    true
}

/// Tells whether `needle` occurs somewhere in `haystack`.
pub fn contains(haystack: &str, needle: &str) -> (found: bool)
    ensures
        found == occurs_in(needle@, haystack@),
{
    let haystack_chars = chars_of(haystack);
    let needle_chars = chars_of(needle);
    if needle_chars.len() > haystack_chars.len() {
        return false;
    }
    let last: usize = haystack_chars.len() - needle_chars.len();
    let mut start: usize = 0;
    loop
        invariant
            haystack_chars@ == haystack@,
            needle_chars@ == needle@,
            last + needle_chars.len() == haystack_chars.len(),
            start <= last,
            forall|earlier: int| 0 <= earlier < start ==> !occurs_at(needle@, haystack@, earlier),
        decreases last - start,
    {
        if found_at(&needle_chars, &haystack_chars, start) {
            return true;
        }
        if start == last {
            return false;
        }
        start = start + 1;
    }
}

/// The parts in order, with the separator between each two of them.
pub open spec fn joined(parts: Seq<Seq<char>>, separator: Seq<char>) -> Seq<char>
    decreases parts.len(),
{
    if parts.len() == 0 {
        Seq::empty()
    } else if parts.len() == 1 {
        parts[0]
    } else {
        joined(parts.drop_last(), separator) + separator + parts.last()
    }
}

/// Joins the parts, putting the separator between each two of them.
pub fn join(parts: &Vec<String>, separator: &str) -> (text: String)
    ensures
        text@ == joined(parts.deep_view(), separator@),
{
    let mut text = String::new();
    let mut index: usize = 0;
    while index < parts.len()
        invariant
            index <= parts.len(),
            text@ == joined(parts.deep_view().take(index as int), separator@),
        decreases parts.len() - index,
    {
        let ghost before = parts.deep_view().take(index as int);
        let ghost after = parts.deep_view().take(index as int + 1);
        assert(after.drop_last() =~= before);
        assert(after.last() == parts[index as int]@);
        if index > 0 {
            text.append(separator);
        } else {
            assert(text@ + parts[index as int]@ =~= parts[index as int]@);
        }
        text.append(parts[index].as_str());
        index = index + 1;
    }
    assert(parts.deep_view().take(index as int) =~= parts.deep_view());
    text
}

/// How a truth value is written.
pub open spec fn bool_text(value: bool) -> Seq<char> {
    if value {
        "true"@
    } else {
        "false"@
    }
}

/// Writes a truth value.
pub fn bool_str(value: bool) -> (text: &'static str)
    ensures
        text@ == bool_text(value),
{
    if value {
        "true"
    } else {
        "false"
    }
}

/// The text of an optional string, empty where there is none.
pub open spec fn text_or_empty(value: Option<String>) -> Seq<char> {
    match value {
        Some(text) => text@,
        None => Seq::empty(),
    }
}

/// Writes the text of an optional string, empty where there is none.
pub fn optional_text(value: &Option<String>) -> (text: String)
    ensures
        text@ == text_or_empty(*value),
{
    match value {
        Some(text) => text.clone(),
        None => String::new(),
    }
}

/// Copies a list of strings.
pub fn copy_strings(list: &Vec<String>) -> (copy: Vec<String>)
    ensures
        copy@ == list@,
        copy.deep_view() == list.deep_view(),
{
    let copy = list.clone();
    assert(copy@ =~= list@);
    assert(copy.deep_view() =~= list.deep_view());
    copy
}

/// Copies an optional string.
pub fn copy_optional_string(value: &Option<String>) -> (copy: Option<String>)
    ensures
        copy == *value,
{
    match value {
        Some(text) => Some(text.clone()),
        None => None,
    }
}

} // verus!
