//! Bytes and text: hexadecimal, UTF-8 and random secrets.

use vstd::prelude::*;
use vstd::string::StrSliceExecFns;
use vstd::utf8::{decode_utf8, encode_utf8, valid_utf8};

verus! {

/// The lower-case hexadecimal digit of a number below sixteen.
pub open spec fn hex_digit(value: nat) -> char {
    if value < 10 {
        ((48 + value) as u8) as char
    } else {
        ((87 + value) as u8) as char
    }
}

/// Two lower-case hexadecimal digits for each byte, the high half first.
pub open spec fn hex_text(bytes: Seq<u8>) -> Seq<char> {
    Seq::new(
        2 * bytes.len(),
        |i: int|
            if i % 2 == 0 {
                hex_digit((bytes[i / 2] / 16) as nat)
            } else {
                hex_digit((bytes[i / 2] % 16) as nat)
            },
    )
}

/// `hex::encode`: two lower-case hexadecimal digits for each byte of the data,
/// in order, the high four bits first.
#[verifier::external_body]
pub(crate) fn hex_of(bytes: &Vec<u8>) -> (text: String)
    ensures
        text@ == hex_text(bytes@),
{
    hex::encode(bytes)
}

/// What the standard library prints for a byte sequence that is not UTF-8.
pub uninterp spec fn utf8_error(bytes: Seq<u8>) -> Seq<char>;

/// `String::from_utf8`: the decoded text of a byte sequence that is valid UTF-8.
/// For any other byte sequence the result is the error's printed form, of which
/// nothing more is claimed.
#[verifier::external_body]
pub(crate) fn utf8_of(bytes: &Vec<u8>) -> (text: Result<String, String>)
    ensures
        match text {
            Ok(text) => valid_utf8(bytes@) && text@ == decode_utf8(bytes@),
            Err(message) => !valid_utf8(bytes@) && message@ == utf8_error(bytes@),
        },
{
    match String::from_utf8(bytes.clone()) {
        Ok(text) => Ok(text),
        Err(error) => Err(error.to_string()),
    }
}

/// The text that the standard library makes of bytes which need not be UTF-8.
pub uninterp spec fn lossy_text(bytes: Seq<u8>) -> Seq<char>;

/// `String::from_utf8_lossy`: the decoded text where the bytes are valid UTF-8.
/// Where they are not, the invalid parts are replaced; how is left to the name
/// `lossy_text`.
#[verifier::external_body]
pub(crate) fn lossy_of(bytes: &Vec<u8>) -> (text: String)
    ensures
        text@ == lossy_text(bytes@),
        valid_utf8(bytes@) ==> text@ == decode_utf8(bytes@),
{
    String::from_utf8_lossy(bytes).into_owned()
}

/// The first bytes.
pub fn first_bytes(bytes: &Vec<u8>, count: usize) -> (start: Vec<u8>)
    requires
        count <= bytes@.len(),
    ensures
        start@ == bytes@.take(count as int),
{
    let mut start: Vec<u8> = Vec::new();
    let mut at: usize = 0;
    while at < count
        invariant
            at <= count <= bytes@.len(),
            start@ == bytes@.take(at as int),
        decreases count - at,
    {
        start.push(bytes[at]);
        assert(bytes@.take(at + 1) == bytes@.take(at as int).push(bytes@[at as int]));
        at = at + 1;
    }
    start
}

pub fn bytes_of(bytes: &Vec<u8>) -> (copy: Vec<u8>)
    ensures
        copy@ == bytes@,
{
    let copy = first_bytes(bytes, bytes.len());
    assert(bytes@.take(bytes@.len() as int) == bytes@);
    copy
}

/// A line without the line feed, or the carriage return and line feed, at its
/// end.
pub open spec fn without_line_ending(bytes: Seq<u8>) -> Seq<u8> {
    if bytes.len() > 0 && bytes.last() == 10u8 {
        let line = bytes.drop_last();
        if line.len() > 0 && line.last() == 13u8 {
            line.drop_last()
        } else {
            line
        }
    } else {
        bytes
    }
}

pub fn strip_line_ending(bytes: &Vec<u8>) -> (line: Vec<u8>)
    ensures
        line@ == without_line_ending(bytes@),
{
    let mut count: usize = bytes.len();
    if count > 0 && bytes[count - 1] == 10u8 {
        count = count - 1;
        if count > 0 && bytes[count - 1] == 13u8 {
            count = count - 1;
        }
    }
    let line = first_bytes(bytes, count);
    assert(line@ =~= without_line_ending(bytes@));
    line
}

/// The bytes of a text in UTF-8.
pub fn utf8_bytes(text: &str) -> (bytes: Vec<u8>)
    ensures
        bytes@ == encode_utf8(text@),
{
    text.as_bytes_vec()
}

} // verus!
