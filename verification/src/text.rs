//! Text handling: the handful of string operations that the policy needs, each
//! with an exact description in terms of the characters of its input.

use vstd::prelude::*;

verus! {

/// Appends one character, as the standard library documents `String::push`.
pub assume_specification[ String::push ](text: &mut String, c: char)
    ensures
        final(text)@ == old(text)@.push(c),
;

// ---------------------------------------------------------------- characters
/// The characters with the Unicode `White_Space` property.
pub open spec fn white_space(c: char) -> bool {
    let n = c as u32;
    ||| 0x09 <= n <= 0x0d
    ||| n == 0x20
    ||| n == 0x85
    ||| n == 0xa0
    ||| n == 0x1680
    ||| 0x2000 <= n <= 0x200a
    ||| n == 0x2028
    ||| n == 0x2029
    ||| n == 0x202f
    ||| n == 0x205f
    ||| n == 0x3000
}

/// The characters of the Unicode general category `Cc`.
pub open spec fn control(c: char) -> bool {
    let n = c as u32;
    n <= 0x1f || 0x7f <= n <= 0x9f
}

pub open spec fn ascii_lowercase(c: char) -> bool {
    'a' <= c <= 'z'
}

pub open spec fn ascii_uppercase(c: char) -> bool {
    'A' <= c <= 'Z'
}

pub open spec fn ascii_digit(c: char) -> bool {
    '0' <= c <= '9'
}

pub open spec fn ascii_alphanumeric(c: char) -> bool {
    ascii_lowercase(c) || ascii_uppercase(c) || ascii_digit(c)
}

pub open spec fn ascii_hexdigit(c: char) -> bool {
    ascii_digit(c) || 'a' <= c <= 'f' || 'A' <= c <= 'F'
}

pub fn is_white_space(c: char) -> (yes: bool)
    ensures
        yes == white_space(c),
{
    let n: u32 = c as u32;
    (0x09 <= n && n <= 0x0d) || n == 0x20 || n == 0x85 || n == 0xa0 || n == 0x1680 || (0x2000 <= n
        && n <= 0x200a) || n == 0x2028 || n == 0x2029 || n == 0x202f || n == 0x205f || n == 0x3000
}

pub fn is_control(c: char) -> (yes: bool)
    ensures
        yes == control(c),
{
    let n: u32 = c as u32;
    n <= 0x1f || (0x7f <= n && n <= 0x9f)
}

pub fn is_ascii_lowercase(c: char) -> (yes: bool)
    ensures
        yes == ascii_lowercase(c),
{
    'a' <= c && c <= 'z'
}

pub fn is_ascii_digit(c: char) -> (yes: bool)
    ensures
        yes == ascii_digit(c),
{
    '0' <= c && c <= '9'
}

pub fn is_ascii_alphanumeric(c: char) -> (yes: bool)
    ensures
        yes == ascii_alphanumeric(c),
{
    is_ascii_lowercase(c) || ('A' <= c && c <= 'Z') || is_ascii_digit(c)
}

pub fn is_ascii_hexdigit(c: char) -> (yes: bool)
    ensures
        yes == ascii_hexdigit(c),
{
    is_ascii_digit(c) || ('a' <= c && c <= 'f') || ('A' <= c && c <= 'F')
}

// ---------------------------------------------------------------- conversion
/// The characters of a string.
pub fn chars_of(text: &str) -> (chars: Vec<char>)
    ensures
        chars@ == text@,
{
    let mut chars: Vec<char> = Vec::new();
    for c in iter: text.chars()
        invariant
            chars@ == text@.take(iter.index() as int),
            iter.seq() == text@,
    {
        chars.push(c);
        assert(text@.take(iter.index() + 1) == text@.take(iter.index() as int).push(c));
    }
    assert(text@.take(text@.len() as int) == text@);
    chars
}

/// The characters `from..to` as a string.
pub fn text_of(chars: &Vec<char>, from: usize, to: usize) -> (text: String)
    requires
        from <= to <= chars@.len(),
    ensures
        text@ == chars@.subrange(from as int, to as int),
{
    let mut text = String::new();
    let mut at: usize = from;
    while at < to
        invariant
            from <= at <= to <= chars@.len(),
            text@ == chars@.subrange(from as int, at as int),
        decreases to - at,
    {
        text.push(chars[at]);
        assert(chars@.subrange(from as int, at + 1) == chars@.subrange(from as int, at as int).push(
            chars@[at as int],
        ));
        at = at + 1;
    }
    text
}

/// Whether two strings hold the same characters.
pub fn same(left: &str, right: &str) -> (yes: bool)
    ensures
        yes == (left@ == right@),
{
    left.to_owned() == right.to_owned()
}


/// Whether `text` begins with `prefix`.
pub open spec fn prefixed(text: Seq<char>, prefix: Seq<char>) -> bool {
    prefix.is_prefix_of(text)
}

pub fn starts_with(text: &str, prefix: &str) -> (yes: bool)
    ensures
        yes == prefixed(text@, prefix@),
{
    let whole = chars_of(text);
    let start = chars_of(prefix);
    if start.len() > whole.len() {
        return false;
    }
    let mut at: usize = 0;
    while at < start.len()
        invariant
            at <= start@.len() <= whole@.len(),
            whole@ == text@,
            start@ == prefix@,
            forall|i: int| 0 <= i < at ==> whole@[i] == start@[i],
        decreases start@.len() - at,
    {
        if whole[at] != start[at] {
            assert(text@.subrange(0, prefix@.len() as int)[at as int] != prefix@[at as int]);
            return false;
        }
        at = at + 1;
    }
    assert(text@.subrange(0, prefix@.len() as int) =~= prefix@);
    true
}

/// Whether the character occurs in the text.
pub fn contains(text: &str, wanted: char) -> (yes: bool)
    ensures
        yes == text@.contains(wanted),
{
    let chars = chars_of(text);
    let mut at: usize = 0;
    while at < chars.len()
        invariant
            at <= chars@.len(),
            chars@ == text@,
            forall|i: int| 0 <= i < at ==> text@[i] != wanted,
        decreases chars@.len() - at,
    {
        if chars[at] == wanted {
            assert(text@[at as int] == wanted);
            return true;
        }
        at = at + 1;
    }
    false
}

// ------------------------------------------------------------------ trimming
/// The text without its leading white space.
pub open spec fn trim_start(text: Seq<char>) -> Seq<char>
    decreases text.len(),
{
    if text.len() > 0 && white_space(text.first()) {
        trim_start(text.drop_first())
    } else {
        text
    }
}

/// The text without its trailing white space.
pub open spec fn trim_end(text: Seq<char>) -> Seq<char>
    decreases text.len(),
{
    if text.len() > 0 && white_space(text.last()) {
        trim_end(text.drop_last())
    } else {
        text
    }
}

/// The text without the white space around it.
pub open spec fn trimmed(text: Seq<char>) -> Seq<char> {
    trim_end(trim_start(text))
}

pub fn trim(text: &str) -> (result: String)
    ensures
        result@ == trimmed(text@),
{
    let chars = chars_of(text);
    let mut from: usize = 0;
    assert(chars@.skip(0) == chars@);
    while from < chars.len() && is_white_space(chars[from])
        invariant
            from <= chars@.len(),
            trim_start(chars@.skip(from as int)) == trim_start(chars@),
        decreases chars@.len() - from,
    {
        assert(chars@.skip(from as int).drop_first() == chars@.skip(from + 1));
        from = from + 1;
    }
    let ghost kept = chars@.skip(from as int);
    assert(trim_start(chars@) == kept);
    let mut to: usize = chars.len();
    assert(kept == chars@.subrange(from as int, to as int));
    while to > from && is_white_space(chars[to - 1])
        invariant
            from <= to <= chars@.len(),
            trim_end(chars@.subrange(from as int, to as int)) == trim_end(kept),
        decreases to,
    {
        assert(chars@.subrange(from as int, to as int).drop_last() == chars@.subrange(
            from as int,
            to - 1,
        ));
        to = to - 1;
    }
    text_of(&chars, from, to)
}

// ----------------------------------------------------------------- splitting
/// The pieces between the occurrences of a separator: one more than there are
/// separators.
pub open spec fn pieces(text: Seq<char>, separator: char) -> Seq<Seq<char>>
    decreases text.len(),
{
    if text.contains(separator) {
        let end = text.index_of_first(separator)->0;
        proof {
            text.index_of_first_ensures(separator);
        }
        seq![text.take(end)] + pieces(text.skip(end + 1), separator)
    } else {
        seq![text]
    }
}

/// The strings of a vector, as sequences of characters.
pub open spec fn texts(list: Seq<String>) -> Seq<Seq<char>> {
    list.map_values(|text: String| text@)
}

pub proof fn lemma_texts_push(list: Seq<String>, text: String)
    ensures
        texts(list.push(text)) == texts(list).push(text@),
{
    assert(texts(list.push(text)) =~= texts(list).push(text@));
}

/// The position of the first `wanted` at or after `from`, or the length.
fn find(chars: &Vec<char>, wanted: char, from: usize) -> (at: usize)
    requires
        from <= chars@.len(),
    ensures
        from <= at <= chars@.len(),
        forall|i: int| from <= i < at ==> chars@[i] != wanted,
        at < chars@.len() ==> chars@[at as int] == wanted,
{
    let mut at: usize = from;
    while at < chars.len() && chars[at] != wanted
        invariant
            from <= at <= chars@.len(),
            forall|i: int| from <= i < at ==> chars@[i] != wanted,
        decreases chars@.len() - at,
    {
        at = at + 1;
    }
    at
}

/// What `find` says, in terms of the rest of the text.
proof fn lemma_found(text: Seq<char>, wanted: char, from: int, at: int)
    requires
        0 <= from <= at <= text.len(),
        forall|i: int| from <= i < at ==> text[i] != wanted,
        at < text.len() ==> text[at] == wanted,
    ensures
        text.skip(from).contains(wanted) == (at < text.len()),
        at < text.len() ==> text.skip(from).index_of_first(wanted) == Some(at - from),
{
    let rest = text.skip(from);
    if at < text.len() {
        assert(rest[at - from] == wanted);
        rest.index_of_first_ensures(wanted);
    } else if rest.contains(wanted) {
        let i = choose|i: int| 0 <= i < rest.len() && rest[i] == wanted;
        assert(text[from + i] == wanted);
    }
}

pub fn split(text: &str, separator: char) -> (list: Vec<String>)
    ensures
        texts(list@) == pieces(text@, separator),
{
    let chars = chars_of(text);
    let mut list: Vec<String> = Vec::new();
    let mut from: usize = 0;
    assert(texts(list@) + pieces(chars@.skip(0), separator) =~= pieces(text@, separator)) by {
        assert(chars@.skip(0) == text@);
    }
    loop
        invariant
            from <= chars@.len(),
            texts(list@) + pieces(chars@.skip(from as int), separator) == pieces(
                text@,
                separator,
            ),
        decreases chars@.len() - from,
    {
        let at = find(&chars, separator, from);
        let piece = text_of(&chars, from, at);
        let ghost rest = chars@.skip(from as int);
        proof {
            lemma_found(chars@, separator, from as int, at as int);
            lemma_texts_push(list@, piece);
        }
        let ghost before = texts(list@);
        list.push(piece);
        if at == chars.len() {
            assert(piece@ =~= rest);
            assert(texts(list@) =~= before + pieces(rest, separator));
            return list;
        }
        assert(piece@ =~= rest.take(at - from));
        assert(rest.skip(at - from + 1) =~= chars@.skip(at + 1));
        assert(texts(list@) + pieces(chars@.skip(at + 1), separator) =~= before + pieces(
            rest,
            separator,
        ));
        from = at + 1;
    }
}

/// A line without the carriage return in front of its line feed.
pub open spec fn without_return(line: Seq<char>) -> Seq<char> {
    if line.len() > 0 && line.last() == '\r' {
        line.drop_last()
    } else {
        line
    }
}

/// The lines of a text. A line ends in a line feed, or a carriage return and a
/// line feed; the ending of the last line is optional.
pub open spec fn lines(text: Seq<char>) -> Seq<Seq<char>>
    decreases text.len(),
{
    if text.contains('\n') {
        let end = text.index_of_first('\n')->0;
        proof {
            text.index_of_first_ensures('\n');
        }
        seq![without_return(text.take(end))] + lines(text.skip(end + 1))
    } else if text.len() > 0 {
        seq![text]
    } else {
        Seq::empty()
    }
}

pub fn lines_of(text: &str) -> (list: Vec<String>)
    ensures
        texts(list@) == lines(text@),
{
    let chars = chars_of(text);
    let mut list: Vec<String> = Vec::new();
    let mut from: usize = 0;
    assert(texts(list@) + lines(chars@.skip(0)) =~= lines(text@)) by {
        assert(chars@.skip(0) == text@);
    }
    loop
        invariant
            from <= chars@.len(),
            texts(list@) + lines(chars@.skip(from as int)) == lines(text@),
        decreases chars@.len() - from,
    {
        let at = find(&chars, '\n', from);
        let ghost rest = chars@.skip(from as int);
        let ghost before = texts(list@);
        proof {
            lemma_found(chars@, '\n', from as int, at as int);
        }
        if at == chars.len() {
            if from < at {
                let line = text_of(&chars, from, at);
                proof {
                    lemma_texts_push(list@, line);
                }
                list.push(line);
                assert(line@ =~= rest);
            }
            assert(texts(list@) =~= before + lines(rest));
            return list;
        }
        let mut end: usize = at;
        if end > from && chars[end - 1] == '\r' {
            end = end - 1;
        }
        let line = text_of(&chars, from, end);
        proof {
            lemma_texts_push(list@, line);
        }
        list.push(line);
        assert(line@ =~= without_return(rest.take(at - from)));
        assert(rest.skip(at - from + 1) =~= chars@.skip(at + 1));
        assert(texts(list@) + lines(chars@.skip(at + 1)) =~= before + lines(rest));
        from = at + 1;
    }
}

/// The longest start of the text without white space.
pub open spec fn word_at_start(text: Seq<char>) -> Seq<char>
    decreases text.len(),
{
    if text.len() > 0 && !white_space(text.first()) {
        seq![text.first()] + word_at_start(text.drop_first())
    } else {
        Seq::empty()
    }
}

/// The first word of a text: what stands between white space.
pub open spec fn first_word(text: Seq<char>) -> Option<Seq<char>> {
    let word = word_at_start(trim_start(text));
    if word.len() > 0 {
        Some(word)
    } else {
        None
    }
}

pub fn first_word_of(text: &str) -> (word: Option<String>)
    ensures
        match word {
            Some(word) => first_word(text@) == Some(word@),
            None => first_word(text@) is None,
        },
{
    let chars = chars_of(text);
    let mut from: usize = 0;
    assert(chars@.skip(0) == chars@);
    while from < chars.len() && is_white_space(chars[from])
        invariant
            from <= chars@.len(),
            trim_start(chars@.skip(from as int)) == trim_start(chars@),
        decreases chars@.len() - from,
    {
        assert(chars@.skip(from as int).drop_first() == chars@.skip(from + 1));
        from = from + 1;
    }
    let ghost rest = chars@.skip(from as int);
    assert(trim_start(chars@) == rest);
    let mut to: usize = from;
    assert(chars@.subrange(from as int, to as int) + word_at_start(chars@.skip(to as int))
        =~= word_at_start(rest));
    while to < chars.len() && !is_white_space(chars[to])
        invariant
            from <= to <= chars@.len(),
            chars@.subrange(from as int, to as int) + word_at_start(chars@.skip(to as int))
                == word_at_start(rest),
        decreases chars@.len() - to,
    {
        assert(chars@.skip(to as int).drop_first() == chars@.skip(to + 1));
        assert(chars@.subrange(from as int, to + 1) + word_at_start(chars@.skip(to + 1))
            =~= chars@.subrange(from as int, to as int) + word_at_start(chars@.skip(to as int)));
        to = to + 1;
    }
    let word = text_of(&chars, from, to);
    assert(word@ =~= word_at_start(rest));
    if to > from {
        Some(word)
    } else {
        None
    }
}


// ------------------------------------------------------------------- quoting
/// The text with a backslash in front of each backslash and each double quote.
pub open spec fn escaped(text: Seq<char>) -> Seq<char>
    decreases text.len(),
{
    if text.len() == 0 {
        Seq::empty()
    } else if text.last() == '\\' || text.last() == '"' {
        escaped(text.drop_last()).push('\\').push(text.last())
    } else {
        escaped(text.drop_last()).push(text.last())
    }
}

pub fn escape(text: &str) -> (result: String)
    ensures
        result@ == escaped(text@),
{
    let chars = chars_of(text);
    let mut result = String::new();
    let mut at: usize = 0;
    assert(text@.take(0) =~= Seq::empty());
    while at < chars.len()
        invariant
            at <= chars@.len(),
            chars@ == text@,
            result@ == escaped(text@.take(at as int)),
        decreases chars@.len() - at,
    {
        assert(text@.take(at + 1).drop_last() == text@.take(at as int));
        if chars[at] == '\\' || chars[at] == '"' {
            result.push('\\');
        }
        result.push(chars[at]);
        at = at + 1;
    }
    assert(text@.take(text@.len() as int) == text@);
    result
}

// ------------------------------------------------------------------- numbers
/// The decimal digit of a number below ten.
pub open spec fn digit(value: nat) -> char {
    ((48 + value) as u8) as char
}

/// The number that a decimal digit stands for.
pub open spec fn digit_value(c: char) -> nat {
    (c as u32 - '0' as u32) as nat
}

/// A number in decimal, without leading zeros.
pub open spec fn decimal(value: nat) -> Seq<char>
    decreases value,
{
    if value < 10 {
        seq![digit(value)]
    } else {
        decimal(value / 10).push(digit(value % 10))
    }
}

pub fn decimal_of(value: u64) -> (text: String)
    ensures
        text@ == decimal(value as nat),
    decreases value,
{
    let mut text = if value < 10 {
        String::new()
    } else {
        decimal_of(value / 10)
    };
    let last: u8 = 48 + (value % 10) as u8;
    text.push(last as char);
    assert(text@ =~= decimal(value as nat));
    text
}

pub open spec fn all_digits(text: Seq<char>) -> bool {
    forall|i: int| 0 <= i < text.len() ==> ascii_digit(#[trigger] text[i])
}

/// The number that a sequence of decimal digits stands for.
pub open spec fn digits_value(digits: Seq<char>) -> nat
    decreases digits.len(),
{
    if digits.len() == 0 {
        0
    } else {
        digits_value(digits.drop_last()) * 10 + digit_value(digits.last())
    }
}

/// The digits of an unsigned number, which may have one plus sign in front.
pub open spec fn unsigned_digits(text: Seq<char>) -> Seq<char> {
    if text.len() > 0 && text[0] == '+' {
        text.drop_first()
    } else {
        text
    }
}

/// The unsigned 64-bit number that a text stands for, if it stands for one.
pub open spec fn number(text: Seq<char>) -> Option<u64> {
    let digits = unsigned_digits(text);
    if digits.len() > 0 && all_digits(digits) && digits_value(digits) <= u64::MAX {
        Some(digits_value(digits) as u64)
    } else {
        None
    }
}

/// Whether the digits in front already stand for a number that is too large.
pub open spec fn too_large(digits: Seq<char>) -> bool {
    exists|count: int|
        0 <= count <= digits.len() && all_digits(digits.take(count)) && #[trigger] digits_value(
            digits.take(count),
        ) > u64::MAX
}

/// What is wrong with a text that stands for no number.
pub open spec fn number_fault(text: Seq<char>) -> Seq<char> {
    if text.len() == 0 {
        "cannot parse integer from empty string"@
    } else if too_large(unsigned_digits(text)) {
        "number too large to fit in target type"@
    } else {
        "invalid digit found in string"@
    }
}

proof fn lemma_digits_value_grows(digits: Seq<char>, at: int)
    requires
        0 <= at <= digits.len(),
    ensures
        digits_value(digits.take(at)) <= digits_value(digits),
    decreases digits.len() - at,
{
    if at < digits.len() {
        assert(digits.take(at + 1).drop_last() == digits.take(at));
        lemma_digits_value_grows(digits, at + 1);
    } else {
        assert(digits.take(at) == digits);
    }
}

/// Digits in front that fit are all that count, where no digit follows them.
proof fn lemma_not_too_large(digits: Seq<char>, at: int)
    requires
        0 <= at <= digits.len(),
        at < digits.len() ==> !ascii_digit(digits[at]),
        digits_value(digits.take(at)) <= u64::MAX,
    ensures
        !too_large(digits),
{
    assert forall|count: int|
        0 <= count <= digits.len() && all_digits(
            digits.take(count),
        ) implies #[trigger] digits_value(digits.take(count)) <= u64::MAX by {
        if count > at {
            assert(digits.take(count)[at] == digits[at]);
        } else {
            lemma_digits_value_grows(digits.take(at), count);
            assert(digits.take(at).take(count) == digits.take(count));
        }
    }
}

pub fn number_of(text: &str) -> (value: Result<u64, &'static str>)
    ensures
        match value {
            Ok(value) => number(text@) == Some(value),
            Err(fault) => number(text@) is None && fault@ == number_fault(text@),
        },
{
    let chars = chars_of(text);
    if chars.len() == 0 {
        return Err("cannot parse integer from empty string");
    }
    let from: usize = if chars[0] == '+' {
        1
    } else {
        0
    };
    let ghost digits = unsigned_digits(text@);
    assert(digits =~= chars@.skip(from as int));
    assert(digits.take(0) =~= Seq::empty());
    if from == chars.len() {
        proof {
            lemma_not_too_large(digits, 0);
        }
        return Err("invalid digit found in string");
    }
    let mut value: u64 = 0;
    let mut at: usize = from;
    while at < chars.len()
        invariant
            from <= at <= chars@.len(),
            0 < chars@.len() == text@.len(),
            digits == chars@.skip(from as int),
            digits == unsigned_digits(text@),
            forall|i: int| 0 <= i < at - from ==> ascii_digit(#[trigger] digits[i]),
            value == digits_value(digits.take(at - from)),
        decreases chars@.len() - at,
    {
        let c = chars[at];
        assert(digits[at - from] == c);
        if !is_ascii_digit(c) {
            proof {
                lemma_not_too_large(digits, at - from);
            }
            return Err("invalid digit found in string");
        }
        proof {
            assert(digits.take(at - from + 1).drop_last() == digits.take(at - from));
            lemma_digits_value_grows(digits, at - from + 1);
        }
        let units: u64 = c as u64 - 48;
        if value > (u64::MAX - units) / 10 {
            assert(all_digits(digits.take(at - from + 1)));
            assert(too_large(digits));
            return Err("number too large to fit in target type");
        }
        value = value * 10 + units;
        at = at + 1;
    }
    assert(digits.take(digits.len() as int) == digits);
    Ok(value)
}

// --------------------------------------------------------------- IPv4 address
/// A decimal number from 0 to 255 without leading zeros.
pub open spec fn octet(text: Seq<char>) -> bool {
    &&& 1 <= text.len() <= 3
    &&& all_digits(text)
    &&& text.len() > 1 ==> text[0] != '0'
    &&& digits_value(text) <= 255
}

/// Four octets with dots between them.
pub open spec fn ipv4_address(text: Seq<char>) -> bool {
    let parts = pieces(text, '.');
    &&& parts.len() == 4
    &&& forall|i: int| 0 <= i < 4 ==> octet(#[trigger] parts[i])
}

fn is_octet(text: &str) -> (yes: bool)
    ensures
        yes == octet(text@),
{
    let chars = chars_of(text);
    if chars.len() < 1 || chars.len() > 3 || (chars.len() > 1 && chars[0] == '0') {
        return false;
    }
    if chars[0] == '+' {
        return false;
    }
    match number_of(text) {
        Ok(value) => value <= 255,
        Err(_) => {
            proof {
                if all_digits(text@) {
                    lemma_small(text@);
                }
            }
            false
        },
    }
}

proof fn lemma_small(digits: Seq<char>)
    requires
        digits.len() <= 3,
        all_digits(digits),
    ensures
        digits_value(digits) <= 999,
{
    reveal_with_fuel(digits_value, 4);
    if digits.len() > 0 {
        assert(ascii_digit(digits.last()));
        let two = digits.drop_last();
        if two.len() > 0 {
            assert(ascii_digit(two.last()));
            let one = two.drop_last();
            if one.len() > 0 {
                assert(ascii_digit(one.last()));
            }
        }
    }
}

pub fn is_ipv4_address(text: &str) -> (yes: bool)
    ensures
        yes == ipv4_address(text@),
{
    let parts = split(text, '.');
    let ghost wanted = pieces(text@, '.');
    assert(parts@.len() == texts(parts@).len());
    if parts.len() != 4 {
        return false;
    }
    let mut at: usize = 0;
    while at < 4
        invariant
            at <= 4,
            parts@.len() == 4,
            texts(parts@) == wanted,
            wanted == pieces(text@, '.'),
            forall|i: int| 0 <= i < at ==> octet(#[trigger] wanted[i]),
        decreases 4 - at,
    {
        assert(wanted[at as int] == parts@[at as int]@);
        if !is_octet(parts[at].as_str()) {
            return false;
        }
        at = at + 1;
    }
    true
}

} // verus!
