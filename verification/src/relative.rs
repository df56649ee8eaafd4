//! Phrases such as "2 hours ago": which of them name the current day.

use vstd::prelude::*;

use crate::date::current_date;
use crate::date::Date;
use crate::text::chars_of;
use crate::text::contains;
use crate::text::has;
use crate::text::is_space;
use crate::text::is_whitespace;
use crate::text::slice_of;
use crate::text::trim_start;

verus! {

/// `text` in lower case, as `str::to_lowercase` gives it.
pub uninterp spec fn lowercase(text: Seq<char>) -> Seq<char>;

/// The lower-case form of `text` (`str::to_lowercase`). It depends on the text
/// alone.
#[verifier::external_body]
pub(crate) fn to_lower(text: &str) -> (lower: String)
    ensures
        lower@ == lowercase(text@),
{
    text.to_lowercase()
}

/// The number of characters before the first white space of `s`.
pub open spec fn word_len(s: Seq<char>) -> nat
    decreases s.len(),
{
    if s.len() == 0 || is_whitespace(s[0]) {
        0
    } else {
        1 + word_len(s.subrange(1, s.len() as int))
    }
}

/// The first run of characters of `s` that holds no white space; empty where
/// `s` holds nothing else.
pub open spec fn first_word(s: Seq<char>) -> Seq<char> {
    trim_start(s).take(word_len(trim_start(s)) as int)
}

/// Whether `c` is one of the digits `0` to `9`.
pub open spec fn is_digit(c: char) -> bool {
    '0' <= c <= '9'
}

/// The number that a run of digits writes in base ten.
pub open spec fn digits_value(digits: Seq<char>) -> nat
    decreases digits.len(),
{
    if digits.len() == 0 {
        0
    } else {
        digits_value(digits.drop_last()) * 10 + (digits.last() as u32 - '0' as u32) as nat
    }
}

/// The digits of a word that may begin with a sign.
pub open spec fn unsigned_part(word: Seq<char>) -> Seq<char> {
    if word.len() > 0 && (word[0] == '+' || word[0] == '-') {
        word.subrange(1, word.len() as int)
    } else {
        word
    }
}

/// The integer that `word` writes: one or more digits, with `+` or `-` before
/// them or without. `None` for any other word.
pub open spec fn integer_of(word: Seq<char>) -> Option<int> {
    let digits = unsigned_part(word);
    if digits.len() > 0 && (forall|i: int| 0 <= i < digits.len() ==> is_digit(#[trigger] digits[i])) {
        if word[0] == '-' {
            Some(-(digits_value(digits) as int))
        } else {
            Some(digits_value(digits) as int)
        }
    } else {
        None
    }
}

/// Whether a phrase in lower case speaks of the current day: it mentions hours,
/// minutes or "just now", or it mentions days and begins with the number 0 or 1.
pub open spec fn is_recent(lower: Seq<char>) -> bool {
    ||| contains(lower, "hour"@)
    ||| contains(lower, "minute"@)
    ||| contains(lower, "just now"@)
    ||| (contains(lower, "day"@) && (integer_of(first_word(lower)) == Some(0int) || integer_of(
        first_word(lower),
    ) == Some(1int)))
}

/// The day that a phrase in lower case names, seen from `today`.
pub open spec fn relative_day(lower: Seq<char>, today: Date) -> Option<Date> {
    if is_recent(lower) {
        Some(today)
    } else {
        None
    }
}

/// The first word of the text.
pub fn leading_word(chars: &Vec<char>) -> (word: Vec<char>)
    ensures
        word@ == first_word(chars@),
{
    let n = chars.len();
    let mut from: usize = 0;
    assert(chars@.subrange(0, n as int) == chars@);
    while from < n && is_space(chars[from])
        invariant
            from <= n == chars.len(),
            trim_start(chars@) == trim_start(chars@.subrange(from as int, n as int)),
        decreases n - from,
    {
        assert(chars@.subrange(from as int, n as int).subrange(1, n - from) == chars@.subrange(
            from + 1,
            n as int,
        ));
        from += 1;
    }
    let ghost rest = chars@.subrange(from as int, n as int);
    assert(trim_start(chars@) == rest);
    let mut to: usize = from;
    assert(chars@.subrange(to as int, n as int) == rest);
    while to < n && !is_space(chars[to])
        invariant
            from <= to <= n == chars.len(),
            rest == chars@.subrange(from as int, n as int),
            word_len(rest) == (to - from) + word_len(chars@.subrange(to as int, n as int)),
        decreases n - to,
    {
        assert(chars@.subrange(to as int, n as int).subrange(1, n - to) == chars@.subrange(
            to + 1,
            n as int,
        ));
        to += 1;
    }
    assert(rest.take(to - from) == chars@.subrange(from as int, to as int));
    slice_of(chars, from, to)
}

/// Whether the word writes the integer 0 or the integer 1.
pub fn names_zero_or_one(word: &Vec<char>) -> (r: bool)
    ensures
        r == (integer_of(word@) == Some(0int) || integer_of(word@) == Some(1int)),
{
    let n = word.len();
    if n == 0 {
        return false;
    }
    let negative = word[0] == '-';
    let start: usize = if word[0] == '+' || word[0] == '-' {
        1
    } else {
        0
    };
    if start == n {
        return false;
    }
    let ghost digits = unsigned_part(word@);
    assert(digits == word@.subrange(start as int, n as int));
    // 0 and 1 stand for themselves, 2 for every larger number.
    let mut seen: u8 = 0;
    let mut i: usize = start;
    assert(digits.take(0) == Seq::<char>::empty());
    while i < n
        invariant
            start <= i <= n == word.len(),
            digits == word@.subrange(start as int, n as int),
            digits == unsigned_part(word@),
            negative == (word@[0] == '-'),
            forall|k: int| 0 <= k < i - start ==> is_digit(#[trigger] digits[k]),
            seen <= 2,
            seen < 2 ==> digits_value(digits.take(i - start)) == seen,
            seen == 2 ==> digits_value(digits.take(i - start)) >= 2,
        decreases n - i,
    {
        let c = word[i];
        if c < '0' || c > '9' {
            assert(!is_digit(digits[i - start]));
            return false;
        }
        assert(digits.take(i - start + 1).drop_last() == digits.take(i - start));
        assert(digits.take(i - start + 1).last() == c);
        if seen == 0 && c == '0' {
            seen = 0;
        } else if seen == 0 && c == '1' {
            seen = 1;
        } else {
            seen = 2;
        }
        i += 1;
    }
    assert(digits.take(n - start) == digits);
    if negative {
        seen == 0
    } else {
        seen < 2
    }
}

/// Whether a phrase in lower case speaks of the current day.
pub fn phrase_is_recent(lower: &str) -> (r: bool)
    ensures
        r == is_recent(lower@),
{
    let chars = chars_of(lower);
    if has(&chars, &chars_of("hour")) || has(&chars, &chars_of("minute")) || has(
        &chars,
        &chars_of("just now"),
    ) {
        return true;
    }
    if has(&chars, &chars_of("day")) {
        let word = leading_word(&chars);
        return names_zero_or_one(&word);
    }
    false
}

/// The day that `text` names, seen from `today`: `today` for a phrase that
/// speaks of the current day, nothing for any other text.
pub fn relative_date_on(text: &str, today: Date) -> (r: Option<Date>)
    ensures
        r == relative_day(lowercase(text@), today),
{
    let lower = to_lower(text);
    if phrase_is_recent(lower.as_str()) {
        Some(today)
    } else {
        None
    }
}

/// The day that `text` names, seen from the current date: that date, whichever
/// it is, for a phrase that speaks of the current day, and nothing for any
/// other text.
pub fn parse_relative_date(text: &str) -> (r: Option<Date>)
    ensures
        r is Some <==> is_recent(lowercase(text@)),
        r matches Some(day) ==> day.is_valid(),
{
    relative_date_on(text, current_date())
}

} // verus!
