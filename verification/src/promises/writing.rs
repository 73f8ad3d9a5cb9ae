//! How text is taken apart and put together.

use crate::encoding::hex_text;
use crate::path::{components, file_name, inside, parent, same_place, steps};
use crate::promises::values::below;
use crate::text::{
    all_digits, ascii_digit, control, decimal, digit, digit_value, digits_value, escaped,
    first_word, ipv4_address, lines, number, number_fault, octet, pieces, too_large, trim_end,
    trim_start, trimmed, unsigned_digits, white_space, without_return, word_at_start,
};
use vstd::prelude::*;

verus! {

/// A text of white space only.
pub open spec fn blank(text: Seq<char>) -> bool {
    forall|i: int| 0 <= i < text.len() ==> white_space(#[trigger] text[i])
}

/// A text without white space.
pub open spec fn solid(text: Seq<char>) -> bool {
    forall|i: int| 0 <= i < text.len() ==> !white_space(#[trigger] text[i])
}

/// White space in ASCII is the tab, the four line breaks and the space; beyond it, the
/// other spaces and line breaks of Unicode. No white space is a letter, a digit or a
/// sign.
pub proof fn white_space_separates_words(c: char)
    ensures
        c as u32 <= 0x7f ==> (white_space(c) <==> c == '\t' || c == '\n' || c == '\u{b}' || c
            == '\u{c}' || c == '\r' || c == ' '),
        c as u32 > 0x7f ==> (white_space(c) <==> {
            ||| c == '\u{85}'
            ||| c == '\u{a0}'
            ||| c == '\u{1680}'
            ||| '\u{2000}' <= c <= '\u{200a}'
            ||| c == '\u{2028}'
            ||| c == '\u{2029}'
            ||| c == '\u{202f}'
            ||| c == '\u{205f}'
            ||| c == '\u{3000}'
        }),
        control(c) <==> c <= '\u{1f}' || '\u{7f}' <= c <= '\u{9f}',
{
}

proof fn lemma_trim_start(text: Seq<char>) -> (from: int)
    ensures
        0 <= from <= text.len(),
        blank(text.take(from)),
        from < text.len() ==> !white_space(text[from]),
        trim_start(text) == text.skip(from),
    decreases text.len(),
{
    if text.len() > 0 && white_space(text.first()) {
        let rest = text.drop_first();
        let from = lemma_trim_start(rest) + 1;
        assert(rest.skip(from - 1) =~= text.skip(from));
        assert forall|i: int| 0 <= i < from implies white_space(#[trigger] text.take(from)[i]) by {
            if i > 0 {
                assert(rest.take(from - 1)[i - 1] == text[i]);
            }
        }
        from
    } else {
        assert(text.skip(0) =~= text);
        0
    }
}

proof fn lemma_trim_end(text: Seq<char>) -> (to: int)
    ensures
        0 <= to <= text.len(),
        blank(text.skip(to)),
        to > 0 ==> !white_space(text[to - 1]),
        trim_end(text) == text.take(to),
    decreases text.len(),
{
    if text.len() > 0 && white_space(text.last()) {
        let rest = text.drop_last();
        let to = lemma_trim_end(rest);
        assert(rest.take(to) =~= text.take(to));
        assert forall|i: int| 0 <= i < text.len() - to implies white_space(
            #[trigger] text.skip(to)[i],
        ) by {
            if i < text.len() - to - 1 {
                assert(rest.skip(to)[i] == text[to + i]);
            }
        }
        to
    } else {
        assert(text.take(text.len() as int) =~= text);
        text.len() as int
    }
}

/// Trimming takes off the white space at both ends, all of it and nothing else.
pub proof fn trimming_takes_off_white_space(text: Seq<char>)
    ensures
        exists|from: int, to: int|
            0 <= from <= to <= text.len() && blank(text.take(from)) && blank(text.skip(to))
                && trimmed(text) == #[trigger] text.subrange(from, to),
        trimmed(text).len() > 0 ==> !white_space(trimmed(text).first()) && !white_space(
            trimmed(text).last(),
        ),
{
    let from = lemma_trim_start(text);
    let rest = text.skip(from);
    let kept = lemma_trim_end(rest);
    let to = from + kept;
    assert(rest.take(kept) =~= text.subrange(from, to));
    assert(rest.skip(kept) =~= text.skip(to));
}

proof fn lemma_word_at_start(text: Seq<char>) -> (to: int)
    ensures
        0 <= to <= text.len(),
        solid(text.take(to)),
        to < text.len() ==> white_space(text[to]),
        word_at_start(text) == text.take(to),
    decreases text.len(),
{
    if text.len() > 0 && !white_space(text.first()) {
        let rest = text.drop_first();
        let to = lemma_word_at_start(rest) + 1;
        assert(seq![text.first()] + rest.take(to - 1) =~= text.take(to));
        assert forall|i: int| 0 <= i < to implies !white_space(#[trigger] text.take(to)[i]) by {
            if i > 0 {
                assert(rest.take(to - 1)[i - 1] == text[i]);
            }
        }
        to
    } else {
        assert(text.take(0) =~= Seq::empty());
        0
    }
}

/// The first word stands before all other words, between white space. Only a text of
/// white space has none.
pub proof fn the_first_word_stands_between_white_space(text: Seq<char>)
    ensures
        first_word(text) is None <==> blank(text),
        first_word(text) matches Some(word) ==> {
            &&& word.len() > 0
            &&& solid(word)
            &&& exists|from: int, to: int|
                0 <= from <= to <= text.len() && blank(text.take(from)) && (to == text.len()
                    || white_space(text[to])) && word == #[trigger] text.subrange(from, to)
        },
{
    let from = lemma_trim_start(text);
    let rest = text.skip(from);
    let kept = lemma_word_at_start(rest);
    let to = from + kept;
    assert(rest.take(kept) =~= text.subrange(from, to));
    if from < text.len() {
        assert(rest[0] == text[from]);
        assert(kept > 0);
        assert(!blank(text));
        if to < text.len() {
            assert(rest[kept] == text[to]);
        }
    } else {
        assert(text.take(from) =~= text);
    }
}

/// A text without the separator is one piece, and a separator parts what stands before
/// it from what stands behind it.
pub proof fn pieces_stand_between_separators(
    left: Seq<char>,
    separator: char,
    right: Seq<char>,
)
    ensures
        !left.contains(separator) ==> pieces(left, separator) == seq![left],
        pieces(left + seq![separator] + right, separator) == pieces(left, separator) + pieces(
            right,
            separator,
        ),
        pieces(left, separator).len() > 0,
    decreases left.len(),
{
    let whole = left + seq![separator] + right;
    assert(whole[left.len() as int] == separator);
    whole.index_of_first_ensures(separator);
    let end = whole.index_of_first(separator)->0;
    if left.contains(separator) {
        left.index_of_first_ensures(separator);
        let at = left.index_of_first(separator)->0;
        assert(end == at) by {
            assert(whole[at] == left[at]);
            if end < at {
                assert(whole[end] == left[end]);
            }
        }
        let rest = left.skip(at + 1);
        pieces_stand_between_separators(rest, separator, right);
        assert(whole.take(end) =~= left.take(at));
        assert(whole.skip(end + 1) =~= rest + seq![separator] + right);
        assert(pieces(whole, separator) =~= pieces(left, separator) + pieces(right, separator));
    } else {
        assert(end == left.len()) by {
            if end < left.len() {
                assert(whole[end] == left[end]);
            }
        }
        assert(whole.take(end) =~= left);
        assert(whole.skip(end + 1) =~= right);
    }
}

/// A line ends with a line feed, with a carriage return before it or not. What follows
/// the last line feed is a line where it is not empty.
pub proof fn lines_end_with_a_line_feed(line: Seq<char>, rest: Seq<char>)
    requires
        !line.contains('\n'),
    ensures
        lines(Seq::empty()) == Seq::<Seq<char>>::empty(),
        line.len() > 0 ==> lines(line) == seq![line],
        lines(line + seq!['\r', '\n'] + rest) == seq![line] + lines(rest),
        line.len() == 0 || line.last() != '\r' ==> lines(line + seq!['\n'] + rest) == seq![line]
            + lines(rest),
{
    lemma_first_line(line, rest);
    let returned = line.push('\r');
    lemma_first_line(returned, rest);
    assert(returned + seq!['\n'] + rest =~= line + seq!['\r', '\n'] + rest);
    assert(returned.drop_last() =~= line);
}

proof fn lemma_first_line(line: Seq<char>, rest: Seq<char>)
    requires
        !line.contains('\n'),
    ensures
        lines(line + seq!['\n'] + rest) == seq![without_return(line)] + lines(rest),
{
    let whole = line + seq!['\n'] + rest;
    assert(whole[line.len() as int] == '\n');
    whole.index_of_first_ensures('\n');
    let end = whole.index_of_first('\n')->0;
    assert(end == line.len()) by {
        if end < line.len() {
            assert(whole[end] == line[end]);
        }
    }
    assert(whole.take(end) =~= line);
    assert(whole.skip(end + 1) =~= rest);
}

/// In a quoted text each backslash and each double quote has a backslash before it, and
/// every other character stands for itself.
pub proof fn quoted_characters_are_escaped(left: Seq<char>, c: char, right: Seq<char>)
    ensures
        escaped(Seq::empty()) == Seq::<char>::empty(),
        escaped(seq!['\\']) == seq!['\\', '\\'],
        escaped(seq!['"']) == seq!['\\', '"'],
        c != '\\' && c != '"' ==> escaped(seq![c]) == seq![c],
        escaped(left + right) == escaped(left) + escaped(right),
    decreases right.len(),
{
    reveal_with_fuel(escaped, 2);
    assert(seq!['\\'].drop_last() =~= Seq::<char>::empty());
    assert(seq!['"'].drop_last() =~= Seq::<char>::empty());
    assert(seq![c].drop_last() =~= Seq::<char>::empty());
    assert(escaped(seq!['\\']) =~= seq!['\\', '\\']);
    assert(escaped(seq!['"']) =~= seq!['\\', '"']);
    if right.len() > 0 {
        let whole = left + right;
        assert(whole.drop_last() =~= left + right.drop_last());
        quoted_characters_are_escaped(left, c, right.drop_last());
        assert(escaped(whole) =~= escaped(left) + escaped(right));
    } else {
        assert(left + right =~= left);
    }
}

proof fn lemma_digit(value: nat)
    requires
        value < 10,
    ensures
        ascii_digit(digit(value)),
        digit_value(digit(value)) == value,
        digit(value) == '0' <==> value == 0,
{
}

/// A number in decimal is made of digits that stand for it, without a zero in front.
pub proof fn numbers_are_written_in_decimal(value: nat)
    ensures
        decimal(value).len() > 0,
        all_digits(decimal(value)),
        digits_value(decimal(value)) == value,
        value > 0 ==> decimal(value)[0] != '0',
        value == 0 ==> decimal(value) == seq!['0'],
        value <= u64::MAX ==> number(decimal(value)) == Some(value as u64),
    decreases value,
{
    lemma_digit(value % 10);
    if value < 10 {
        assert(decimal(value).drop_last() =~= Seq::empty());
        reveal_with_fuel(digits_value, 2);
    } else {
        numbers_are_written_in_decimal(value / 10);
        let front = decimal(value / 10);
        assert(decimal(value).drop_last() =~= front);
        assert forall|i: int| 0 <= i < decimal(value).len() implies ascii_digit(
            #[trigger] decimal(value)[i],
        ) by {
            if i < front.len() {
                assert(decimal(value)[i] == front[i]);
            }
        }
        assert(decimal(value)[0] == front[0]);
    }
    assert(decimal(value)[0] != '+') by {
        assert(ascii_digit(decimal(value)[0]));
    }
}

/// Only digits stand for a number, with a plus sign in front or not, and only where the
/// number fits. One more digit makes it ten times as large and adds the digit.
pub proof fn numbers_are_read_in_decimal(text: Seq<char>, more: Seq<char>, last: nat)
    requires
        last < 10,
    ensures
        number(Seq::empty()) is None,
        number(seq!['+']) is None,
        number(text) is Some ==> text.len() > 0 && forall|i: int|
            0 <= i < text.len() ==> '0' <= #[trigger] text[i] <= '9' || (i == 0 && text[i] == '+'),
        number(text) matches Some(value) ==> value * 10 + last <= u64::MAX ==> number(
            text.push(digit(last)),
        ) == Some((value * 10 + last) as u64),
        number(text) matches Some(value) ==> value * 10 + last > u64::MAX ==> number(
            text.push(digit(last)),
        ) is None,
        number(seq![digit(last)]) == Some(last as u64),
        more.len() > 0 && more[0] != '+' ==> number(seq!['+'] + more) == number(more),
{
    lemma_digit(last);
    assert(seq!['+'].drop_first() =~= Seq::<char>::empty());
    if number(text) is Some {
        let digits = unsigned_digits(text);
        assert forall|i: int| 0 <= i < text.len() implies '0' <= #[trigger] text[i] <= '9' || (i
            == 0 && text[i] == '+') by {
            if text[0] == '+' {
                if i > 0 {
                    assert(digits[i - 1] == text[i]);
                }
            } else {
                assert(digits[i] == text[i]);
            }
        }
        let longer = text.push(digit(last));
        assert(unsigned_digits(longer) =~= digits.push(digit(last)));
        assert(digits.push(digit(last)).drop_last() =~= digits);
        assert(all_digits(digits.push(digit(last))));
    }
    let one = seq![digit(last)];
    assert(one.drop_last() =~= Seq::empty());
    reveal_with_fuel(digits_value, 2);
    if more.len() > 0 && more[0] != '+' {
        assert((seq!['+'] + more).drop_first() =~= more);
    }
}

/// A text that stands for no number is empty, too large, or has something else than a
/// digit in it: which is said.
pub proof fn what_is_no_number_says_why(text: Seq<char>, digits: Seq<char>)
    requires
        digits.len() > 0,
        all_digits(digits),
    ensures
        number_fault(Seq::empty()) == "cannot parse integer from empty string"@,
        digits_value(digits) > u64::MAX ==> number_fault(digits)
            == "number too large to fit in target type"@,
        text.len() > 0 && text[0] != '+' && !ascii_digit(text[0]) ==> number_fault(text)
            == "invalid digit found in string"@,
        text.len() > 0 && text[0] == '+' && (text.len() == 1 || !ascii_digit(text[1]))
            ==> number_fault(text) == "invalid digit found in string"@,
{
    assert(digits[0] != '+') by {
        assert(ascii_digit(digits[0]));
    }
    assert(digits.take(digits.len() as int) =~= digits);
    if digits_value(digits) > u64::MAX {
        assert(digits_value(digits.take(digits.len() as int)) > u64::MAX);
        assert(too_large(digits));
    }
    let rest = unsigned_digits(text);
    if text.len() > 0 && (rest.len() == 0 || !ascii_digit(rest[0])) {
        assert forall|count: int|
            0 <= count <= rest.len() && all_digits(rest.take(count)) implies #[trigger] digits_value(
            rest.take(count),
        ) <= u64::MAX by {
            if count > 0 {
                assert(rest.take(count)[0] == rest[0]);
            }
        }
        assert(!too_large(rest));
    }
}

proof fn lemma_octet(text: Seq<char>)
    requires
        all_digits(text),
        text.len() > 0,
        text.len() > 1 ==> text[0] != '0',
    ensures
        decimal(digits_value(text)) == text,
        text.len() > 1 ==> digits_value(text) >= 10,
    decreases text.len(),
{
    let front = text.drop_last();
    let last = text.last();
    assert(ascii_digit(text[text.len() - 1]));
    assert(digit_value(last) < 10 && digit(digit_value(last)) == last);
    if text.len() == 1 {
        assert(digits_value(front) == 0);
        assert(text =~= seq![last]);
    } else {
        assert(forall|i: int| 0 <= i < front.len() ==> front[i] == text[i]);
        assert(all_digits(front));
        lemma_octet(front);
        assert(digits_value(front) >= 1) by {
            if front.len() == 1 {
                reveal_with_fuel(digits_value, 2);
                assert(front.last() == text[0]);
                assert(ascii_digit(text[0]));
            }
        }
        let value = digits_value(text);
        assert(value == digits_value(front) * 10 + digit_value(last));
        assert(value / 10 == digits_value(front) && value % 10 == digit_value(last));
        assert(front.push(last) =~= text);
    }
}

/// The address of four numbers.
pub open spec fn dotted(a: nat, b: nat, c: nat, d: nat) -> Seq<char> {
    decimal(a) + seq!['.'] + decimal(b) + seq!['.'] + decimal(c) + seq!['.'] + decimal(d)
}

proof fn lemma_decimal_octet(value: nat)
    requires
        value <= 255,
    ensures
        octet(decimal(value)),
        !decimal(value).contains('.'),
{
    numbers_are_written_in_decimal(value);
    reveal_with_fuel(decimal, 4);
    assert(value / 10 / 10 < 10);
    assert(decimal(value).len() <= 3);
    if decimal(value).contains('.') {
        let i = choose|i: int| 0 <= i < decimal(value).len() && decimal(value)[i] == '.';
        assert(ascii_digit(decimal(value)[i]));
    }
}

/// What four numbers below 256 give with dots between them is an address.
pub proof fn four_small_numbers_are_an_address(a: nat, b: nat, c: nat, d: nat)
    requires
        a <= 255,
        b <= 255,
        c <= 255,
        d <= 255,
    ensures
        ipv4_address(dotted(a, b, c, d)),
{
    lemma_decimal_octet(a);
    lemma_decimal_octet(b);
    lemma_decimal_octet(c);
    lemma_decimal_octet(d);
    let one = decimal(a);
    let two = one + seq!['.'] + decimal(b);
    let three = two + seq!['.'] + decimal(c);
    pieces_stand_between_separators(one, '.', decimal(b));
    pieces_stand_between_separators(two, '.', decimal(c));
    pieces_stand_between_separators(three, '.', decimal(d));
    pieces_stand_between_separators(decimal(b), '.', Seq::empty());
    pieces_stand_between_separators(decimal(c), '.', Seq::empty());
    pieces_stand_between_separators(decimal(d), '.', Seq::empty());
    assert(pieces(dotted(a, b, c, d), '.') =~= seq![decimal(a), decimal(b), decimal(c), decimal(d)]);
}

/// An address is four pieces between dots, each a number below 256 in decimal.
pub proof fn an_address_is_four_small_numbers(text: Seq<char>)
    requires
        ipv4_address(text),
    ensures
        pieces(text, '.').len() == 4,
        forall|i: int|
            0 <= i < 4 ==> digits_value(#[trigger] pieces(text, '.')[i]) <= 255 && pieces(
                text,
                '.',
            )[i] == decimal(digits_value(pieces(text, '.')[i])),
{
    assert forall|i: int| 0 <= i < 4 implies digits_value(#[trigger] pieces(text, '.')[i]) <= 255
        && pieces(text, '.')[i] == decimal(digits_value(pieces(text, '.')[i])) by {
        lemma_octet(pieces(text, '.')[i]);
    }
}

/// The number that a lower-case hexadecimal digit stands for.
pub open spec fn hex_value(c: char) -> int {
    if '0' <= c <= '9' {
        c as int - '0' as int
    } else {
        c as int - 'a' as int + 10
    }
}

/// Each byte is two lower-case hexadecimal digits, from which it can be read back.
pub proof fn bytes_are_written_in_hexadecimal(bytes: Seq<u8>, at: int)
    requires
        0 <= at < bytes.len(),
    ensures
        hex_text(bytes).len() == 2 * bytes.len(),
        ({
            let high = hex_text(bytes)[2 * at];
            let low = hex_text(bytes)[2 * at + 1];
            &&& '0' <= high <= '9' || 'a' <= high <= 'f'
            &&& '0' <= low <= '9' || 'a' <= low <= 'f'
            &&& bytes[at] == 16 * hex_value(high) + hex_value(low)
        }),
{
    assert((2 * at) / 2 == at && (2 * at) % 2 == 0);
    assert((2 * at + 1) / 2 == at && (2 * at + 1) % 2 == 1);
    let byte = bytes[at];
    assert(byte / 16 < 16 && byte % 16 < 16);
    assert(byte == 16 * (byte / 16) + byte % 16);
}

/// A step below a path adds one component. A slash at the end, or a `.` behind one, adds
/// none.
pub proof fn steps_below_a_path(base: Seq<char>, step: Seq<char>)
    requires
        base.len() > 0,
        !step.contains('/'),
    ensures
        step.len() > 0 && step != seq!['.'] ==> components(below(base, step)) == components(
            base,
        ).push(step),
        step.len() == 0 || step == seq!['.'] ==> components(below(base, step)) == components(base),
        same_place(base + seq!['/'], base),
        inside(below(base, step), base),
        step.len() > 0 && step != seq!['.'] && step != seq!['.', '.'] ==> file_name(
            below(base, step),
        ) == Some(step),
        step == seq!['.', '.'] ==> file_name(below(base, step)) is None,
{
    lemma_components(base, step);
    lemma_components(base, Seq::empty());
    assert(below(base, Seq::empty()) =~= base + seq!['/']);
    assert(components(base).is_prefix_of(components(below(base, step)))) by {
        assert(components(below(base, step)).subrange(0, components(base).len() as int)
            =~= components(base));
    }
    if step.len() > 0 && step != seq!['.'] {
        assert(components(below(base, step)).last() == step);
        assert(step != seq!['/']) by {
            if step == seq!['/'] {
                assert(step[0] == '/');
            }
        }
    }
}

proof fn lemma_components(base: Seq<char>, step: Seq<char>)
    requires
        base.len() > 0,
        !step.contains('/'),
    ensures
        step.len() > 0 && step != seq!['.'] ==> components(below(base, step)) == components(
            base,
        ).push(step),
        step.len() == 0 || step == seq!['.'] ==> components(below(base, step)) == components(base),
{
    let path = below(base, step);
    pieces_stand_between_separators(base, '/', step);
    pieces_stand_between_separators(step, '/', Seq::empty());
    let list = pieces(base, '/');
    assert(pieces(path, '/') =~= list.push(step));
    assert(list.push(step).drop_last() =~= list);
    assert(path[0] == base[0]);
    assert(list.push(step)[0] == list[0]);
    if step.len() > 0 && step != seq!['.'] {
        assert(components(path) =~= components(base).push(step));
    } else {
        assert(components(path) =~= components(base));
    }
}

/// The first component of a path: the root, a `.` that it starts with, or a step. The
/// root lies in nothing, and has no name.
pub proof fn where_a_path_starts(step: Seq<char>)
    requires
        !step.contains('/'),
        step.len() > 0,
    ensures
        components(seq!['/']) == seq![seq!['/']],
        components(seq!['/'] + step) == if step == seq!['.'] {
            seq![seq!['/']]
        } else {
            seq![seq!['/'], step]
        },
        components(step) == seq![step],
        components(Seq::empty()) == Seq::<Seq<char>>::empty(),
        file_name(seq!['/']) is None,
        step != seq!['.'] && step != seq!['.', '.'] ==> file_name(step) == Some(step) && file_name(
            seq!['/'] + step,
        ) == Some(step),
        parent(seq!['/']) is None,
{
    let root = seq!['/'];
    let none = Seq::<char>::empty();
    pieces_stand_between_separators(none, '/', none);
    pieces_stand_between_separators(none, '/', step);
    pieces_stand_between_separators(step, '/', none);
    assert(none + seq!['/'] + none =~= root);
    assert(none + seq!['/'] + step =~= root + step);
    assert(pieces(root, '/') =~= seq![none, none]);
    assert(pieces(root + step, '/') =~= seq![none, step]);
    reveal_with_fuel(steps, 3);
    assert(seq![none, none].drop_last() =~= seq![none]);
    assert(seq![none, step].drop_last() =~= seq![none]);
    assert(seq![none].drop_last() =~= Seq::<Seq<char>>::empty());
    assert(seq![step].drop_last() =~= Seq::<Seq<char>>::empty());
    assert(step[0] != '/');
    assert(components(root) =~= seq![seq!['/']]);
    assert(components(step) =~= seq![step]);
    assert(components(none) =~= Seq::<Seq<char>>::empty());
    assert((root + step)[0] == '/');
    if step == seq!['.'] {
        assert(components(root + step) =~= seq![seq!['/']]);
    } else {
        assert(components(root + step) =~= seq![seq!['/'], step]);
    }
    if step == root {
        assert(step[0] == '/');
    }
}

} // verus!
