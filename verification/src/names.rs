//! Names that the user chooses, and the rules that they meet.

use crate::text::{
    ascii_alphanumeric, ascii_digit, ascii_hexdigit, ascii_lowercase, chars_of, control,
    is_ascii_alphanumeric, is_ascii_digit, is_ascii_hexdigit, is_ascii_lowercase, is_control, same,
};
use vstd::prelude::*;

verus! {

pub const NAME_RULE: &'static str =
    "name must be 1-64 letters, numbers, dots, underscores, or hyphens and start with a letter or number";

pub const USER_RULE: &'static str =
    "guest user must be 1-32 lowercase letters, numbers, underscores, or hyphens, start with a letter, and not be a reserved account";

pub const PASSWORD_RULE: &'static str = "guest password must be 8-128 characters";

/// The characters of a VM name.
pub open spec fn name_char(c: char) -> bool {
    ascii_alphanumeric(c) || c == '.' || c == '_' || c == '-'
}

/// A VM and command name: one to sixty-four letters, digits, dots, underscores
/// and hyphens, of which the first is a letter or a digit.
pub open spec fn name_allowed(name: Seq<char>) -> bool {
    &&& 1 <= name.len() <= 64
    &&& ascii_alphanumeric(name[0])
    &&& forall|i: int| 0 <= i < name.len() ==> name_char(#[trigger] name[i])
}

/// The characters of a guest account name.
pub open spec fn user_char(c: char) -> bool {
    ascii_lowercase(c) || ascii_digit(c) || c == '_' || c == '-'
}

/// The accounts that macOS keeps for itself.
pub open spec fn reserved_user(name: Seq<char>) -> bool {
    name == "daemon"@ || name == "guest"@ || name == "nobody"@ || name == "root"@
}

/// A guest account name: one to thirty-two lower-case letters, digits,
/// underscores and hyphens, of which the first is a letter, and not reserved.
pub open spec fn user_allowed(name: Seq<char>) -> bool {
    &&& 1 <= name.len() <= 32
    &&& ascii_lowercase(name[0])
    &&& forall|i: int| 0 <= i < name.len() ==> user_char(#[trigger] name[i])
    &&& !reserved_user(name)
}

/// The name itself where it is allowed, and the rule where it is not.
pub fn valid_name(name: &str) -> (result: Result<String, String>)
    ensures
        match result {
            Ok(kept) => name_allowed(name@) && kept@ == name@,
            Err(message) => !name_allowed(name@) && message@ == NAME_RULE@,
        },
{
    let chars = chars_of(name);
    if chars.len() < 1 || chars.len() > 64 || !is_ascii_alphanumeric(chars[0]) {
        return Err(NAME_RULE.to_owned());
    }
    let mut at: usize = 0;
    while at < chars.len()
        invariant
            at <= chars@.len(),
            chars@ == name@,
            forall|i: int| 0 <= i < at ==> name_char(#[trigger] name@[i]),
        decreases chars@.len() - at,
    {
        let c = chars[at];
        if !is_ascii_alphanumeric(c) && c != '.' && c != '_' && c != '-' {
            assert(!name_char(name@[at as int]));
            return Err(NAME_RULE.to_owned());
        }
        at = at + 1;
    }
    Ok(name.to_owned())
}

fn is_reserved_user(name: &str) -> (yes: bool)
    ensures
        yes == reserved_user(name@),
{
    same(name, "daemon") || same(name, "guest") || same(name, "nobody") || same(name, "root")
}

/// The account name itself where it is allowed, and the rule where it is not.
pub fn valid_user(name: &str) -> (result: Result<String, String>)
    ensures
        match result {
            Ok(kept) => user_allowed(name@) && kept@ == name@,
            Err(message) => !user_allowed(name@) && message@ == USER_RULE@,
        },
{
    let chars = chars_of(name);
    if chars.len() < 1 || chars.len() > 32 || !is_ascii_lowercase(chars[0]) {
        return Err(USER_RULE.to_owned());
    }
    let mut at: usize = 0;
    while at < chars.len()
        invariant
            at <= chars@.len(),
            chars@ == name@,
            forall|i: int| 0 <= i < at ==> user_char(#[trigger] name@[i]),
        decreases chars@.len() - at,
    {
        let c = chars[at];
        if !is_ascii_lowercase(c) && !is_ascii_digit(c) && c != '_' && c != '-' {
            assert(!user_char(name@[at as int]));
            return Err(USER_RULE.to_owned());
        }
        at = at + 1;
    }
    if is_reserved_user(name) {
        return Err(USER_RULE.to_owned());
    }
    Ok(name.to_owned())
}

/// The guest account of a configuration that names none.
pub fn default_guest_user() -> (name: String)
    ensures
        name@ == "admin"@,
{
    "admin".to_owned()
}

/// A guest password has eight to a hundred and twenty-eight characters.
pub open spec fn guest_password_allowed(password: Seq<char>) -> bool {
    8 <= password.len() <= 128
}

pub fn validate_guest_password(password: &str) -> (result: Result<(), String>)
    ensures
        match result {
            Ok(()) => guest_password_allowed(password@),
            Err(message) => !guest_password_allowed(password@) && message@ == PASSWORD_RULE@,
        },
{
    let count = chars_of(password).len();
    if 8 <= count && count <= 128 {
        Ok(())
    } else {
        Err(PASSWORD_RULE.to_owned())
    }
}

pub open spec fn has_control(text: Seq<char>) -> bool {
    exists|i: int| 0 <= i < text.len() && control(#[trigger] text[i])
}

/// Whether the text has a control character.
pub fn has_control_character(text: &str) -> (yes: bool)
    ensures
        yes == has_control(text@),
{
    let chars = chars_of(text);
    let mut at: usize = 0;
    while at < chars.len()
        invariant
            at <= chars@.len(),
            chars@ == text@,
            forall|i: int| 0 <= i < at ==> !control(#[trigger] text@[i]),
        decreases chars@.len() - at,
    {
        if is_control(chars[at]) {
            assert(control(text@[at as int]));
            return true;
        }
        at = at + 1;
    }
    false
}

/// A volume name that can stand as one step of a path under `/Volumes`.
pub open spec fn volume_name_allowed(name: Seq<char>) -> bool {
    &&& name.len() > 0
    &&& name != "."@
    &&& name != ".."@
    &&& !name.contains('/')
    &&& !has_control(name)
}

pub fn is_volume_name(name: &str) -> (yes: bool)
    ensures
        yes == volume_name_allowed(name@),
{
    !name.is_empty() && !same(name, ".") && !same(name, "..") && !crate::text::contains(name, '/')
        && !has_control_character(name)
}

/// The positions of the hyphens of a UUID.
pub open spec fn uuid_hyphen(index: int) -> bool {
    index == 8 || index == 13 || index == 18 || index == 23
}

/// A UUID: thirty-six characters, hexadecimal digits but for four hyphens.
pub open spec fn uuid_shaped(uuid: Seq<char>) -> bool {
    &&& uuid.len() == 36
    &&& forall|i: int|
        0 <= i < 36 ==> if uuid_hyphen(i) {
            #[trigger] uuid[i] == '-'
        } else {
            ascii_hexdigit(uuid[i])
        }
}

pub fn is_uuid(uuid: &str) -> (yes: bool)
    ensures
        yes == uuid_shaped(uuid@),
{
    let chars = chars_of(uuid);
    if chars.len() != 36 {
        return false;
    }
    let mut at: usize = 0;
    while at < 36
        invariant
            at <= 36,
            chars@.len() == 36,
            chars@ == uuid@,
            forall|i: int|
                0 <= i < at ==> if uuid_hyphen(i) {
                    #[trigger] uuid@[i] == '-'
                } else {
                    ascii_hexdigit(uuid@[i])
                },
        decreases 36 - at,
    {
        let c = chars[at];
        assert(uuid@[at as int] == c);
        let hyphen = at == 8 || at == 13 || at == 18 || at == 23;
        if (hyphen && c != '-') || (!hyphen && !is_ascii_hexdigit(c)) {
            return false;
        }
        at = at + 1;
    }
    true
}

/// A SHA-256 digest as sixty-four hexadecimal digits.
pub open spec fn digest_shaped(digest: Seq<char>) -> bool {
    &&& digest.len() == 64
    &&& forall|i: int| 0 <= i < 64 ==> ascii_hexdigit(#[trigger] digest[i])
}

pub fn is_digest(digest: &str) -> (yes: bool)
    ensures
        yes == digest_shaped(digest@),
{
    let chars = chars_of(digest);
    if chars.len() != 64 {
        return false;
    }
    let mut at: usize = 0;
    while at < 64
        invariant
            at <= 64,
            chars@.len() == 64,
            chars@ == digest@,
            forall|i: int| 0 <= i < at ==> ascii_hexdigit(#[trigger] digest@[i]),
        decreases 64 - at,
    {
        if !is_ascii_hexdigit(chars[at]) {
            assert(!ascii_hexdigit(digest@[at as int]));
            return false;
        }
        at = at + 1;
    }
    true
}

} // verus!
