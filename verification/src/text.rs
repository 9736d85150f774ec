//! Text handling on character sequences.
//!
//! Every string in the crate is modelled by the sequence of its characters.
//! The functions here are the handful of string operations the rest of the
//! crate needs, each stated directly over that sequence.

use vstd::prelude::*;

verus! {

/// The views of the elements of a sequence.
pub open spec fn views<T: View>(items: Seq<T>) -> Seq<T::V> {
    Seq::new(items.len(), |i: int| items[i]@)
}

/// The view of an optional value.
pub open spec fn opt_view<T: View>(item: Option<T>) -> Option<T::V> {
    match item {
        Some(value) => Some(value@),
        None => None,
    }
}

/// The first element of a sequence that satisfies a predicate.
pub open spec fn first_where<A>(items: Seq<A>, wanted: spec_fn(A) -> bool) -> Option<A>
    decreases items.len(),
{
    if items.len() == 0 {
        None
    } else if wanted(items[0]) {
        Some(items[0])
    } else {
        first_where(items.drop_first(), wanted)
    }
}

/// An element that satisfies the predicate, with none before it, is the first.
pub proof fn lemma_first_where_at<A>(items: Seq<A>, wanted: spec_fn(A) -> bool, at: int)
    requires
        0 <= at < items.len(),
        wanted(items[at]),
        forall|i: int| 0 <= i < at ==> !wanted(#[trigger] items[i]),
    ensures
        first_where(items, wanted) == Some(items[at]),
    decreases items.len(),
{
    if at > 0 {
        assert(!wanted(items[0]));
        let rest = items.drop_first();
        assert forall|i: int| 0 <= i < at - 1 implies !wanted(#[trigger] rest[i]) by {
            assert(rest[i] == items[i + 1]);
        }
        lemma_first_where_at(rest, wanted, at - 1);
    }
}

/// Without a satisfying element there is no first one.
pub proof fn lemma_first_where_none<A>(items: Seq<A>, wanted: spec_fn(A) -> bool)
    requires
        forall|i: int| 0 <= i < items.len() ==> !wanted(#[trigger] items[i]),
    ensures
        first_where(items, wanted) is None,
    decreases items.len(),
{
    if items.len() > 0 {
        assert(!wanted(items[0]));
        let rest = items.drop_first();
        assert forall|i: int| 0 <= i < rest.len() implies !wanted(#[trigger] rest[i]) by {
            assert(rest[i] == items[i + 1]);
        }
        lemma_first_where_none(rest, wanted);
    }
}

/// What the first satisfying element is like.
pub proof fn lemma_first_where_holds<A>(items: Seq<A>, wanted: spec_fn(A) -> bool)
    ensures
        match first_where(items, wanted) {
            Some(found) => wanted(found) && items.contains(found),
            None => forall|i: int| 0 <= i < items.len() ==> !wanted(#[trigger] items[i]),
        },
    decreases items.len(),
{
    if items.len() > 0 && !wanted(items[0]) {
        let rest = items.drop_first();
        lemma_first_where_holds(rest, wanted);
        match first_where(rest, wanted) {
            Some(found) => {
                let k = choose|k: int| 0 <= k < rest.len() && rest[k] == found;
                assert(items[k + 1] == found);
            },
            None => {
                assert forall|i: int| 0 <= i < items.len() implies !wanted(#[trigger] items[i]) by {
                    if i > 0 {
                        assert(items[i] == rest[i - 1]);
                    }
                }
            },
        }
    } else if items.len() > 0 {
        assert(items[0] == items[0]);
    }
}

/// The characters of a string, in order.
pub fn chars_of(text: &str) -> (chars: Vec<char>)
    ensures
        chars@ == text@,
{
    let mut chars: Vec<char> = Vec::new();
    for c in it: text.chars()
        invariant
            chars@ == it.seq().take(it.index() as int),
            it.seq() == text@,
    {
        chars.push(c);
    }
    chars
}

/// Whether two strings hold the same characters.
pub fn same_text(left: &str, right: &str) -> (same: bool)
    ensures
        same == (left@ == right@),
{
    left.to_owned() == right.to_owned()
}

/// Whether a string holds no character.
pub fn empty(text: &str) -> (yes: bool)
    ensures
        yes == (text@.len() == 0),
{
    text.unicode_len() == 0
}

/// Whether `prefix` starts `text`.
pub open spec fn begins(text: Seq<char>, prefix: Seq<char>) -> bool {
    &&& prefix.len() <= text.len()
    &&& text.take(prefix.len() as int) == prefix
}

/// Whether `suffix` ends `text`.
pub open spec fn ends(text: Seq<char>, suffix: Seq<char>) -> bool {
    &&& suffix.len() <= text.len()
    &&& text.skip(text.len() - suffix.len()) == suffix
}

/// Whether `part` occurs in `text` at position `at`.
pub open spec fn occurs_at(text: Seq<char>, part: Seq<char>, at: int) -> bool {
    &&& 0 <= at <= text.len() - part.len()
    &&& text.subrange(at, at + part.len()) == part
}

/// Whether `part` occurs anywhere in `text`.
pub open spec fn occurs(text: Seq<char>, part: Seq<char>) -> bool {
    exists|at: int| occurs_at(text, part, at)
}

/// Whether `text` begins with `prefix`.
pub fn starts_with(text: &str, prefix: &str) -> (yes: bool)
    ensures
        yes == begins(text@, prefix@),
{
    let total: usize = text.unicode_len();
    let wanted: usize = prefix.unicode_len();
    if wanted > total {
        return false;
    }
    same_text(text.substring_char(0, wanted), prefix)
}

/// Whether `text` ends with `suffix`.
pub fn ends_with(text: &str, suffix: &str) -> (yes: bool)
    ensures
        yes == ends(text@, suffix@),
{
    let total: usize = text.unicode_len();
    let wanted: usize = suffix.unicode_len();
    if wanted > total {
        return false;
    }
    same_text(text.substring_char(total - wanted, total), suffix)
}

/// Whether `part` occurs in `text`.
pub fn contains(text: &str, part: &str) -> (yes: bool)
    ensures
        yes == occurs(text@, part@),
{
    let total: usize = text.unicode_len();
    let wanted: usize = part.unicode_len();
    if wanted > total {
        return false;
    }
    let mut at: usize = 0;
    while at <= total - wanted
        invariant
            total == text@.len(),
            wanted == part@.len(),
            wanted <= total,
            at <= total - wanted + 1,
            forall|i: int| 0 <= i < at ==> !occurs_at(text@, part@, i),
        decreases total - wanted + 1 - at,
    {
        if same_text(text.substring_char(at, at + wanted), part) {
            assert(occurs_at(text@, part@, at as int));
            return true;
        }
        if at == total - wanted {
            return false;
        }
        at = at + 1;
    }
    false
}

/// The characters that Unicode gives the `White_Space` property.
pub open spec fn is_white_space(c: char) -> bool {
    ||| '\u{9}' <= c <= '\u{d}'
    ||| c == ' '
    ||| c == '\u{85}'
    ||| c == '\u{a0}'
    ||| c == '\u{1680}'
    ||| '\u{2000}' <= c <= '\u{200a}'
    ||| c == '\u{2028}'
    ||| c == '\u{2029}'
    ||| c == '\u{202f}'
    ||| c == '\u{205f}'
    ||| c == '\u{3000}'
}

/// Whether a character is white space.
pub fn white_space(c: char) -> (yes: bool)
    ensures
        yes == is_white_space(c),
{
    ('\u{9}' <= c && c <= '\u{d}') || c == ' ' || c == '\u{85}' || c == '\u{a0}' || c
        == '\u{1680}' || ('\u{2000}' <= c && c <= '\u{200a}') || c == '\u{2028}' || c == '\u{2029}'
        || c == '\u{202f}' || c == '\u{205f}' || c == '\u{3000}'
}

/// `text` without the leading and trailing characters that `strip` selects.
pub open spec fn stripped(text: Seq<char>, strip: spec_fn(char) -> bool) -> Seq<char>
    decreases text.len(),
{
    if text.len() == 0 {
        text
    } else if strip(text[0]) {
        stripped(text.drop_first(), strip)
    } else if strip(text.last()) {
        stripped(text.drop_last(), strip)
    } else {
        text
    }
}

/// `text` without leading and trailing white space.
pub open spec fn trimmed(text: Seq<char>) -> Seq<char> {
    stripped(text, |c: char| is_white_space(c))
}

/// Whether `text` holds nothing but white space.
pub open spec fn is_blank(text: Seq<char>) -> bool {
    forall|i: int| 0 <= i < text.len() ==> is_white_space(#[trigger] text[i])
}

/// A text is blank exactly where trimming leaves nothing of it.
pub proof fn law_blank_is_trimmed_away(text: Seq<char>)
    ensures
        trimmed(text).len() == 0 <==> is_blank(text),
    decreases text.len(),
{
    if text.len() > 0 {
        if is_white_space(text[0]) {
            let rest = text.drop_first();
            law_blank_is_trimmed_away(rest);
            if is_blank(rest) {
                assert forall|i: int| 0 <= i < text.len() implies is_white_space(
                    #[trigger] text[i],
                ) by {
                    if i > 0 {
                        assert(text[i] == rest[i - 1]);
                    }
                }
            }
            if is_blank(text) {
                assert forall|i: int| 0 <= i < rest.len() implies is_white_space(
                    #[trigger] rest[i],
                ) by {
                    assert(rest[i] == text[i + 1]);
                }
            }
        } else {
            assert(!is_white_space(text[0]));
            if is_white_space(text.last()) {
                law_blank_is_trimmed_away(text.drop_last());
                assert(text.drop_last()[0] == text[0]);
            }
        }
    }
}

proof fn lemma_strip_front(text: Seq<char>, strip: spec_fn(char) -> bool, from: int)
    requires
        0 <= from <= text.len(),
        forall|i: int| 0 <= i < from ==> strip(#[trigger] text[i]),
    ensures
        stripped(text, strip) == stripped(text.skip(from), strip),
    decreases from,
{
    if from > 0 {
        assert(strip(text[0]));
        let rest = text.drop_first();
        assert forall|i: int| 0 <= i < from - 1 implies strip(#[trigger] rest[i]) by {
            assert(rest[i] == text[i + 1]);
        }
        lemma_strip_front(rest, strip, from - 1);
        assert(rest.skip(from - 1) == text.skip(from));
    } else {
        assert(text.skip(0) == text);
    }
}

proof fn lemma_strip_back(text: Seq<char>, strip: spec_fn(char) -> bool, to: int)
    requires
        0 < to <= text.len(),
        !strip(text[0]),
        forall|i: int| to <= i < text.len() ==> strip(#[trigger] text[i]),
    ensures
        stripped(text, strip) == stripped(text.take(to), strip),
    decreases text.len() - to,
{
    if to < text.len() {
        assert(strip(text[text.len() - 1]));
        lemma_strip_back(text.drop_last(), strip, to);
        assert(text.drop_last().take(to) == text.take(to));
    } else {
        assert(text.take(to) == text);
    }
}

proof fn lemma_stripped_is(text: Seq<char>, strip: spec_fn(char) -> bool, from: int, to: int)
    requires
        0 <= from <= to <= text.len(),
        forall|i: int| 0 <= i < from ==> strip(#[trigger] text[i]),
        forall|i: int| to <= i < text.len() ==> strip(#[trigger] text[i]),
        from < to ==> !strip(text[from]) && !strip(text[to - 1]),
    ensures
        stripped(text, strip) == text.subrange(from, to),
{
    if from == to {
        assert forall|i: int| 0 <= i < text.len() implies strip(#[trigger] text[i]) by {
            assert(i < from || to <= i);
        }
        lemma_strip_front(text, strip, text.len() as int);
        assert(text.skip(text.len() as int) =~= text.subrange(from, to));
    } else {
        lemma_strip_front(text, strip, from);
        let tail = text.skip(from);
        assert(tail[0] == text[from]);
        assert forall|i: int| to - from <= i < tail.len() implies strip(#[trigger] tail[i]) by {
            assert(tail[i] == text[from + i]);
        }
        lemma_strip_back(tail, strip, to - from);
        let kept = tail.take(to - from);
        assert(kept.last() == text[to - 1]);
        assert(kept == text.subrange(from, to));
    }
}

/// `text` without leading and trailing white space.
pub fn trim(text: &str) -> (rest: String)
    ensures
        rest@ == trimmed(text@),
{
    let chars = chars_of(text);
    let ghost strip = |c: char| is_white_space(c);
    let mut from: usize = 0;
    while from < chars.len() && white_space(chars[from])
        invariant
            from <= chars@.len(),
            forall|i: int| 0 <= i < from ==> is_white_space(#[trigger] chars@[i]),
        decreases chars@.len() - from,
    {
        from = from + 1;
    }
    let mut to: usize = chars.len();
    while to > from && white_space(chars[to - 1])
        invariant
            from <= to <= chars@.len(),
            forall|i: int| to <= i < chars@.len() ==> is_white_space(#[trigger] chars@[i]),
        decreases to,
    {
        to = to - 1;
    }
    proof {
        lemma_stripped_is(text@, strip, from as int, to as int);
    }
    text.substring_char(from, to).to_owned()
}

/// Whether `text` is empty or nothing but white space.
pub fn blank(text: &str) -> (yes: bool)
    ensures
        yes == is_blank(text@),
{
    for c in it: text.chars()
        invariant
            it.seq() == text@,
            forall|i: int| 0 <= i < it.index() ==> is_white_space(#[trigger] text@[i]),
    {
        if !white_space(c) {
            assert(text@[it.index() as int] == c);
            return false;
        }
    }
    true
}

/// Whether a character is an ASCII double quote.
pub open spec fn is_quote(c: char) -> bool {
    c == '"'
}

/// `text` without leading and trailing double quotes.
pub open spec fn unquoted(text: Seq<char>) -> Seq<char> {
    stripped(text, |c: char| is_quote(c))
}

/// `text` without leading and trailing double quotes.
pub fn trim_quotes(text: &str) -> (rest: String)
    ensures
        rest@ == unquoted(text@),
{
    let chars = chars_of(text);
    let ghost strip = |c: char| is_quote(c);
    let mut from: usize = 0;
    while from < chars.len() && chars[from] == '"'
        invariant
            from <= chars@.len(),
            forall|i: int| 0 <= i < from ==> is_quote(#[trigger] chars@[i]),
        decreases chars@.len() - from,
    {
        from = from + 1;
    }
    let mut to: usize = chars.len();
    while to > from && chars[to - 1] == '"'
        invariant
            from <= to <= chars@.len(),
            forall|i: int| to <= i < chars@.len() ==> is_quote(#[trigger] chars@[i]),
        decreases to,
    {
        to = to - 1;
    }
    proof {
        lemma_stripped_is(text@, strip, from as int, to as int);
    }
    text.substring_char(from, to).to_owned()
}

/// An ASCII letter in lower case; any other character unchanged.
pub open spec fn lower(c: char) -> char {
    if 'A' <= c <= 'Z' {
        ((c as u8) + 32) as u8 as char
    } else {
        c
    }
}

/// `text` with its ASCII letters in lower case.
pub open spec fn lowered(text: Seq<char>) -> Seq<char> {
    text.map_values(|c: char| lower(c))
}

/// The characters of `text`, its ASCII letters in lower case.
pub fn lower_chars(text: &str) -> (chars: Vec<char>)
    ensures
        chars@ == lowered(text@),
{
    let mut chars: Vec<char> = Vec::new();
    for c in it: text.chars()
        invariant
            chars@ == lowered(it.seq().take(it.index() as int)),
            it.seq() == text@,
    {
        let folded: char = if 'A' <= c && c <= 'Z' {
            ((c as u8) + 32) as char
        } else {
            c
        };
        chars.push(folded);
    }
    chars
}

/// Whether the characters are those of `text`.
pub fn chars_are(chars: &Vec<char>, text: &str) -> (yes: bool)
    ensures
        yes == (chars@ == text@),
{
    if chars.len() != text.unicode_len() {
        return false;
    }
    assert(chars@.take(chars@.len() as int) == chars@);
    chars_begin(chars, text)
}

/// Whether the characters begin with `prefix`.
pub fn chars_begin(chars: &Vec<char>, prefix: &str) -> (yes: bool)
    ensures
        yes == begins(chars@, prefix@),
{
    let wanted: usize = prefix.unicode_len();
    if wanted > chars.len() {
        return false;
    }
    chars_match_at(chars, prefix, 0)
}

fn chars_match_at(chars: &Vec<char>, part: &str, at: usize) -> (yes: bool)
    requires
        at + part@.len() <= chars@.len(),
    ensures
        yes == (chars@.subrange(at as int, at + part@.len()) == part@),
{
    let wanted = chars_of(part);
    let total: usize = chars.len();
    let ghost here = chars@.subrange(at as int, at + part@.len());
    let mut i: usize = 0;
    while i < wanted.len()
        invariant
            wanted@ == part@,
            total == chars@.len(),
            i <= wanted@.len(),
            at + wanted@.len() <= total,
            here == chars@.subrange(at as int, at + part@.len()),
            forall|k: int| 0 <= k < i ==> #[trigger] here[k] == wanted@[k],
        decreases wanted@.len() - i,
    {
        assert(here[i as int] == chars@[at + i]);
        if chars[at + i] != wanted[i] {
            return false;
        }
        i = i + 1;
    }
    assert(here =~= part@);
    true
}

/// Whether `part` occurs among the characters.
pub fn chars_contain(chars: &Vec<char>, part: &str) -> (yes: bool)
    ensures
        yes == occurs(chars@, part@),
{
    let wanted: usize = part.unicode_len();
    if wanted > chars.len() {
        return false;
    }
    let last: usize = chars.len() - wanted;
    let mut at: usize = 0;
    loop
        invariant
            wanted == part@.len(),
            last == chars@.len() - wanted,
            at <= last,
            forall|i: int| 0 <= i < at ==> !occurs_at(chars@, part@, i),
        decreases last - at,
    {
        if chars_match_at(chars, part, at) {
            assert(occurs_at(chars@, part@, at as int));
            return true;
        }
        if at == last {
            return false;
        }
        at = at + 1;
    }
}

/// Whether two texts agree when ASCII case is ignored.
pub fn same_ignoring_case(left: &str, right: &str) -> (same: bool)
    ensures
        same == (lowered(left@) == lowered(right@)),
{
    let a = lower_chars(left);
    let b = lower_chars(right);
    if a.len() != b.len() {
        return false;
    }
    let mut i: usize = 0;
    while i < a.len()
        invariant
            i <= a@.len(),
            a@.len() == b@.len(),
            a@ == lowered(left@),
            b@ == lowered(right@),
            forall|k: int| 0 <= k < i ==> a@[k] == b@[k],
        decreases a@.len() - i,
    {
        if a[i] != b[i] {
            return false;
        }
        i = i + 1;
    }
    assert(a@ =~= b@);
    true
}

/// The decimal digit for a value below ten.
pub open spec fn digit_char(digit: nat) -> char {
    ('0' as u32 + digit) as char
}

/// The decimal form of a number, without leading zeros.
pub open spec fn decimal(number: nat) -> Seq<char>
    decreases number,
{
    if number < 10 {
        seq![digit_char(number)]
    } else {
        decimal(number / 10).push(digit_char(number % 10))
    }
}

fn digit_text(digit: u64) -> (text: &'static str)
    requires
        digit < 10,
    ensures
        text@ == seq![digit_char(digit as nat)],
{
    proof {
        reveal_strlit("0");
        reveal_strlit("1");
        reveal_strlit("2");
        reveal_strlit("3");
        reveal_strlit("4");
        reveal_strlit("5");
        reveal_strlit("6");
        reveal_strlit("7");
        reveal_strlit("8");
        reveal_strlit("9");
    }
    match digit {
        0 => "0",
        1 => "1",
        2 => "2",
        3 => "3",
        4 => "4",
        5 => "5",
        6 => "6",
        7 => "7",
        8 => "8",
        _ => "9",
    }
}

/// The decimal form of a number.
pub fn decimal_text(number: u64) -> (text: String)
    ensures
        text@ == decimal(number as nat),
    decreases number,
{
    if number < 10 {
        digit_text(number).to_owned()
    } else {
        let mut text = decimal_text(number / 10);
        text.append(digit_text(number % 10));
        assert(text@ =~= decimal(number as nat));
        text
    }
}

/// Whether a character is a decimal digit.
pub open spec fn is_digit(c: char) -> bool {
    '0' <= c <= '9'
}

/// The number that a row of decimal digits denotes.
pub open spec fn digits_value(digits: Seq<char>) -> nat
    decreases digits.len(),
{
    if digits.len() == 0 {
        0
    } else {
        digits_value(digits.drop_last()) * 10 + ((digits.last() as u32) - ('0' as u32)) as nat
    }
}

/// `text` without a leading plus sign.
pub open spec fn unsigned_part(text: Seq<char>) -> Seq<char> {
    if text.len() > 0 && text[0] == '+' {
        text.drop_first()
    } else {
        text
    }
}

/// Whether every character is a decimal digit.
pub open spec fn all_digits(text: Seq<char>) -> bool {
    forall|i: int| 0 <= i < text.len() ==> is_digit(#[trigger] text[i])
}

/// The number a text denotes: decimal digits after an optional plus sign.
pub open spec fn number_of(text: Seq<char>) -> Option<nat> {
    let digits = unsigned_part(text);
    if digits.len() > 0 && all_digits(digits) {
        Some(digits_value(digits))
    } else {
        None
    }
}

/// The number a text denotes, when it fits.
pub fn parse_number(text: &str) -> (number: Option<u64>)
    ensures
        number == match number_of(text@) {
            Some(value) if value <= u64::MAX => Some(value as u64),
            _ => None::<u64>,
        },
{
    let chars = chars_of(text);
    let from: usize = if chars.len() > 0 && chars[0] == '+' {
        1
    } else {
        0
    };
    let ghost digits = text@.skip(from as int);
    proof {
        if from == 0 {
            assert(digits == text@);
        } else {
            assert(digits == text@.drop_first());
        }
    }
    if from == chars.len() {
        return None;
    }
    let mut value: u64 = 0;
    let mut i: usize = from;
    let mut fits: bool = true;
    while i < chars.len()
        invariant
            chars@ == text@,
            from <= i <= chars@.len(),
            digits == text@.skip(from as int),
            digits == unsigned_part(text@),
            forall|k: int| 0 <= k < i - from ==> is_digit(#[trigger] digits[k]),
            fits ==> value == digits_value(digits.take(i - from)),
            !fits ==> digits_value(digits.take(i - from)) > u64::MAX,
        decreases chars@.len() - i,
    {
        let c: char = chars[i];
        assert(digits[i - from] == c);
        if !('0' <= c && c <= '9') {
            assert(!is_digit(digits[i - from]));
            return None;
        }
        let digit: u64 = (c as u32 - '0' as u32) as u64;
        proof {
            let next = digits.take(i + 1 - from);
            assert(next.drop_last() == digits.take(i - from));
            assert(next.last() == c);
        }
        if fits {
            match value.checked_mul(10) {
                Some(shifted) => match shifted.checked_add(digit) {
                    Some(total) => {
                        value = total;
                    },
                    None => {
                        fits = false;
                    },
                },
                None => {
                    fits = false;
                },
            }
        }
        i = i + 1;
    }
    proof {
        assert(digits.take(i - from) == digits);
    }
    if fits {
        Some(value)
    } else {
        None
    }
}

/// The number a text denotes, when it fits in 32 bits.
pub fn parse_small_number(text: &str) -> (number: Option<u32>)
    ensures
        number == match number_of(text@) {
            Some(value) if value <= u32::MAX => Some(value as u32),
            _ => None::<u32>,
        },
{
    match parse_number(text) {
        Some(value) => if value <= u32::MAX as u64 {
            Some(value as u32)
        } else {
            None
        },
        None => None,
    }
}

/// The decimal form of a number denotes that number.
pub proof fn lemma_decimal_denotes(number: nat)
    ensures
        decimal(number).len() > 0,
        all_digits(decimal(number)),
        digits_value(decimal(number)) == number,
        number_of(decimal(number)) == Some(number),
    decreases number,
{
    let text = decimal(number);
    if number >= 10 {
        lemma_decimal_denotes(number / 10);
        let front = decimal(number / 10);
        assert(text.drop_last() =~= front);
        assert forall|i: int| 0 <= i < text.len() implies is_digit(#[trigger] text[i]) by {
            if i < front.len() {
                assert(text[i] == front[i]);
            }
        }
    } else {
        assert(text.drop_last() =~= Seq::<char>::empty());
        assert(digits_value(Seq::<char>::empty()) == 0);
    }
    assert(is_digit(text[0]));
}

/// The texts one after another, with `separator` between neighbours.
pub open spec fn joined(parts: Seq<Seq<char>>, separator: Seq<char>) -> Seq<char>
    decreases parts.len(),
{
    if parts.len() == 0 {
        Seq::empty()
    } else if parts.len() == 1 {
        parts[0]
    } else {
        joined(parts.drop_last(), separator) + separator + parts.last()
    }
}

/// The texts one after another, with `separator` between neighbours.
pub fn join(parts: &Vec<String>, separator: &str) -> (text: String)
    ensures
        text@ == joined(views(parts@), separator@),
{
    let mut text = String::new();
    let mut i: usize = 0;
    while i < parts.len()
        invariant
            i <= parts@.len(),
            text@ == joined(views(parts@).take(i as int), separator@),
        decreases parts@.len() - i,
    {
        proof {
            let upto = views(parts@).take(i + 1);
            assert(upto.drop_last() == views(parts@).take(i as int));
            assert(upto.last() == parts@[i as int]@);
        }
        if i == 0 {
            text = parts[i].clone();
        } else {
            text.append(separator);
            text.append(parts[i].as_str());
        }
        i = i + 1;
    }
    assert(views(parts@).take(i as int) == views(parts@));
    text
}

/// How many characters stand before the first white space.
pub open spec fn word_length(text: Seq<char>) -> nat
    decreases text.len(),
{
    if text.len() == 0 || is_white_space(text[0]) {
        0
    } else {
        1 + word_length(text.drop_first())
    }
}

/// The maximal runs of characters that are not white space, in order.
pub open spec fn words(text: Seq<char>) -> Seq<Seq<char>>
    decreases text.len(),
{
    if text.len() == 0 {
        Seq::empty()
    } else if is_white_space(text[0]) {
        words(text.drop_first())
    } else {
        proof {
            lemma_word_length(text);
        }
        seq![text.take(word_length(text) as int)] + words(text.skip(word_length(text) as int))
    }
}

/// A word is no longer than the text it starts.
pub proof fn lemma_word_length(text: Seq<char>)
    ensures
        word_length(text) <= text.len(),
        text.len() > 0 && !is_white_space(text[0]) ==> word_length(text) > 0,
    decreases text.len(),
{
    if text.len() > 0 && !is_white_space(text[0]) {
        lemma_word_length(text.drop_first());
    }
}

proof fn lemma_word_length_is(text: Seq<char>, length: int)
    requires
        0 <= length <= text.len(),
        forall|i: int| 0 <= i < length ==> !is_white_space(#[trigger] text[i]),
        length < text.len() ==> is_white_space(text[length]),
    ensures
        word_length(text) == length,
    decreases text.len(),
{
    if length > 0 {
        assert(!is_white_space(text[0]));
        let rest = text.drop_first();
        assert forall|i: int| 0 <= i < length - 1 implies !is_white_space(#[trigger] rest[i]) by {
            assert(rest[i] == text[i + 1]);
        }
        lemma_word_length_is(rest, length - 1);
    }
}

/// The maximal runs of characters that are not white space, in order.
pub fn split_words(text: &str) -> (found: Vec<String>)
    ensures
        views(found@) == words(text@),
{
    let chars = chars_of(text);
    let mut found: Vec<String> = Vec::new();
    let mut at: usize = 0;
    assert(text@.skip(0) == text@);
    assert(views(found@) + words(text@) =~= words(text@));
    while at < chars.len()
        invariant
            chars@ == text@,
            at <= chars@.len(),
            views(found@) + words(text@.skip(at as int)) == words(text@),
        decreases chars@.len() - at,
    {
        let ghost rest = text@.skip(at as int);
        assert(rest[0] == chars@[at as int]);
        proof {
            lemma_word_length(rest);
        }
        if white_space(chars[at]) {
            assert(rest.drop_first() == text@.skip(at + 1));
            at = at + 1;
        } else {
            let start: usize = at;
            while at < chars.len() && !white_space(chars[at])
                invariant
                    start <= at <= chars@.len(),
                    forall|i: int| start <= i < at ==> !is_white_space(#[trigger] chars@[i]),
                decreases chars@.len() - at,
            {
                at = at + 1;
            }
            let ghost before = found@;
            found.push(text.substring_char(start, at).to_owned());
            proof {
                assert forall|i: int| 0 <= i < at - start implies !is_white_space(
                    #[trigger] rest[i],
                ) by {
                    assert(rest[i] == chars@[start + i]);
                }
                if at - start < rest.len() {
                    assert(rest[at - start] == chars@[at as int]);
                }
                lemma_word_length_is(rest, at - start);
                let word = rest.take(at - start);
                assert(word == text@.subrange(start as int, at as int));
                assert(rest.skip(at - start) == text@.skip(at as int));
                assert(views(found@) =~= views(before).push(word));
                assert(views(before) + (seq![word] + words(text@.skip(at as int))) =~= views(found@)
                    + words(text@.skip(at as int)));
            }
        }
    }
    proof {
        lemma_word_length(text@.skip(at as int));
        assert(words(text@.skip(at as int)) =~= Seq::<Seq<char>>::empty());
        assert(views(found@) + Seq::<Seq<char>>::empty() =~= views(found@));
    }
    found
}

/// Where the part of a path after its last slash starts.
pub open spec fn name_start(path: Seq<char>) -> nat
    decreases path.len(),
{
    if path.len() == 0 || path.last() == '/' {
        path.len()
    } else {
        name_start(path.drop_last())
    }
}

/// The part of a path after its last slash.
pub open spec fn after_last_slash(path: Seq<char>) -> Seq<char> {
    path.skip(name_start(path) as int)
}

/// The final component of a path: what a file manager would call its name.
/// Empty components and `.` components do not count; a path that ends in `..`
/// or has no component has no name.
pub open spec fn path_name(path: Seq<char>) -> Option<Seq<char>>
    decreases path.len(),
{
    proof {
        lemma_name_start(path);
    }
    let name = after_last_slash(path);
    if name.len() == 0 || name == seq!['.'] {
        if name_start(path) == 0 {
            None
        } else {
            path_name(path.take(name_start(path) - 1))
        }
    } else if name == seq!['.', '.'] {
        None
    } else {
        Some(name)
    }
}

/// The last slash lies in the path.
pub proof fn lemma_name_start(path: Seq<char>)
    ensures
        name_start(path) <= path.len(),
        name_start(path) > 0 ==> path[name_start(path) - 1] == '/',
    decreases path.len(),
{
    if path.len() > 0 && path.last() != '/' {
        lemma_name_start(path.drop_last());
    }
}

/// Where the part of `path[..to]` after its last slash starts.
fn find_name_start(chars: &Vec<char>, to: usize) -> (start: usize)
    requires
        to <= chars@.len(),
    ensures
        start == name_start(chars@.take(to as int)),
        start <= to,
{
    let mut start: usize = to;
    while start > 0 && chars[start - 1] != '/'
        invariant
            start <= to <= chars@.len(),
            name_start(chars@.take(to as int)) == name_start(chars@.take(start as int)),
        decreases start,
    {
        assert(chars@.take(start as int).drop_last() == chars@.take(start - 1));
        start = start - 1;
    }
    start
}

/// The final component of a path, if it has one.
pub fn file_name(path: &str) -> (name: Option<String>)
    ensures
        opt_view(name) == path_name(path@),
{
    proof {
        reveal_strlit(".");
        reveal_strlit("..");
    }
    let chars = chars_of(path);
    let mut to: usize = chars.len();
    assert(path@.take(to as int) == path@);
    loop
        invariant
            chars@ == path@,
            to <= chars@.len(),
            path_name(path@) == path_name(path@.take(to as int)),
            "."@ =~= seq!['.'],
            ".."@ =~= seq!['.', '.'],
        decreases to,
    {
        let start: usize = find_name_start(&chars, to);
        let name: String = path.substring_char(start, to).to_owned();
        assert(name@ == after_last_slash(path@.take(to as int)));
        if start == to || same_text(name.as_str(), ".") {
            if start == 0 {
                return None;
            }
            assert(path@.take(to as int).take(start - 1) == path@.take(start - 1));
            to = start - 1;
        } else if same_text(name.as_str(), "..") {
            return None;
        } else {
            return Some(name);
        }
    }
}

/// A slash with none after it, or no slash at all, fixes where the name starts.
pub proof fn lemma_name_start_is(path: Seq<char>, at: int)
    requires
        0 <= at <= path.len(),
        at > 0 ==> path[at - 1] == '/',
        forall|i: int| at <= i < path.len() ==> #[trigger] path[i] != '/',
    ensures
        name_start(path) == at,
    decreases path.len(),
{
    if at < path.len() {
        assert(path[path.len() - 1] != '/');
        lemma_name_start_is(path.drop_last(), at);
    }
}

/// A text that neither starts nor ends with white space is its own trimmed form.
pub proof fn lemma_trimmed_same(text: Seq<char>)
    requires
        text.len() > 0,
        !is_white_space(text[0]),
        !is_white_space(text.last()),
    ensures
        trimmed(text) == text,
{
}

/// Whether one text comes before another, or is the same, in dictionary order by
/// character code.
pub open spec fn text_up_to(left: Seq<char>, right: Seq<char>) -> bool
    decreases left.len(),
{
    if left.len() == 0 {
        true
    } else if right.len() == 0 {
        false
    } else if left[0] == right[0] {
        text_up_to(left.drop_first(), right.drop_first())
    } else {
        left[0] < right[0]
    }
}

/// Whether one text comes before another, or is the same, in dictionary order by
/// character code.
pub fn not_after(left: &str, right: &str) -> (yes: bool)
    ensures
        yes == text_up_to(left@, right@),
{
    let a = chars_of(left);
    let b = chars_of(right);
    let mut i: usize = 0;
    assert(a@.skip(0) =~= a@ && b@.skip(0) =~= b@);
    while i < a.len() && i < b.len()
        invariant
            a@ == left@,
            b@ == right@,
            i <= a@.len(),
            i <= b@.len(),
            text_up_to(a@, b@) == text_up_to(a@.skip(i as int), b@.skip(i as int)),
        decreases a@.len() - i,
    {
        let ghost p = a@.skip(i as int);
        let ghost q = b@.skip(i as int);
        assert(p[0] == a@[i as int] && q[0] == b@[i as int]);
        if a[i] != b[i] {
            return a[i] < b[i];
        }
        assert(p.drop_first() =~= a@.skip(i + 1) && q.drop_first() =~= b@.skip(i + 1));
        i = i + 1;
    }
    i == a.len()
}

/// Of two texts one comes first.
pub proof fn lemma_text_order_total(left: Seq<char>, right: Seq<char>)
    ensures
        text_up_to(left, right) || text_up_to(right, left),
    decreases left.len(),
{
    if left.len() > 0 && right.len() > 0 && left[0] == right[0] {
        lemma_text_order_total(left.drop_first(), right.drop_first());
    }
}

/// The dictionary order is transitive.
pub proof fn lemma_text_order_transitive(a: Seq<char>, b: Seq<char>, c: Seq<char>)
    requires
        text_up_to(a, b),
        text_up_to(b, c),
    ensures
        text_up_to(a, c),
    decreases a.len(),
{
    if a.len() > 0 && b.len() > 0 && c.len() > 0 && a[0] == b[0] && b[0] == c[0] {
        lemma_text_order_transitive(a.drop_first(), b.drop_first(), c.drop_first());
    }
}

/// Two texts that come up to each other are the same.
pub proof fn lemma_text_order_antisymmetric(left: Seq<char>, right: Seq<char>)
    requires
        text_up_to(left, right),
        text_up_to(right, left),
    ensures
        left == right,
    decreases left.len(),
{
    if left.len() > 0 {
        lemma_text_order_antisymmetric(left.drop_first(), right.drop_first());
        assert(left =~= seq![left[0]] + left.drop_first());
        assert(right =~= seq![right[0]] + right.drop_first());
    } else {
        assert(left =~= right);
    }
}

/// Whether entries are listed by name: in dictionary order, and each name once.
pub open spec fn listed_by_name<T>(entries: Seq<(Seq<char>, T)>) -> bool {
    forall|i: int, j: int|
        0 <= i < j < entries.len() ==> text_up_to(
            (#[trigger] entries[i]).0,
            (#[trigger] entries[j]).0,
        ) && entries[i].0 != entries[j].0
}

/// Entries of which each comes before the next are listed by name.
pub proof fn lemma_steps_list_by_name<T>(entries: Seq<(Seq<char>, T)>)
    requires
        forall|i: int|
            0 <= i < entries.len() - 1 ==> text_up_to(
                (#[trigger] entries[i]).0,
                entries[i + 1].0,
            ) && entries[i].0 != entries[i + 1].0,
    ensures
        listed_by_name(entries),
    decreases entries.len(),
{
    if entries.len() > 0 {
        let front = entries.drop_last();
        assert forall|i: int| 0 <= i < front.len() - 1 implies text_up_to(
            (#[trigger] front[i]).0,
            front[i + 1].0,
        ) && front[i].0 != front[i + 1].0 by {
            assert(entries[i] == front[i]);
        }
        lemma_steps_list_by_name(front);
        assert forall|i: int, j: int| 0 <= i < j < entries.len() implies text_up_to(
            (#[trigger] entries[i]).0,
            (#[trigger] entries[j]).0,
        ) && entries[i].0 != entries[j].0 by {
            if j < front.len() {
                assert(front[i] == entries[i] && front[j] == entries[j]);
            } else if i < j - 1 {
                let middle = entries[j - 1].0;
                assert(front[i] == entries[i] && front[j - 1] == entries[j - 1]);
                assert(text_up_to(middle, entries[j].0));
                lemma_text_order_transitive(entries[i].0, middle, entries[j].0);
                if entries[i].0 == entries[j].0 {
                    lemma_text_order_antisymmetric(middle, entries[j].0);
                }
            }
        }
    }
}

} // verus!
