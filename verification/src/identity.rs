//! The UUID of a Minecraft profile.

use vstd::prelude::*;

verus! {

/// `uuid::Error`, which says why a text is no UUID.
#[verifier::external_type_specification]
#[verifier::external_body]
pub struct ExUuidError(uuid::Error);

/// The value of a hexadecimal digit, in either case.
pub open spec fn hex_digit(c: char) -> Option<nat> {
    if '0' <= c <= '9' {
        Some((c as nat - '0' as nat) as nat)
    } else if 'a' <= c <= 'f' {
        Some((c as nat - 'a' as nat + 10) as nat)
    } else if 'A' <= c <= 'F' {
        Some((c as nat - 'A' as nat + 10) as nat)
    } else {
        None
    }
}

/// The number that `digits` writes in base 16; `None` where one of them is no
/// hexadecimal digit.
pub open spec fn hex_value(digits: Seq<char>) -> Option<nat>
    decreases digits.len(),
{
    if digits.len() == 0 {
        Some(0)
    } else {
        match (hex_value(digits.drop_last()), hex_digit(digits.last())) {
            (Some(high), Some(low)) => Some(high * 16 + low),
            _ => None,
        }
    }
}

/// `text` without its four hyphens, where it has the hyphenated form: groups
/// of 8, 4, 4, 4 and 12 characters.
pub open spec fn without_hyphens(text: Seq<char>) -> Option<Seq<char>> {
    if text.len() == 36 && text[8] == '-' && text[13] == '-' && text[18] == '-' && text[23]
        == '-' {
        Some(
            text.subrange(0, 8) + text.subrange(9, 13) + text.subrange(14, 18) + text.subrange(
                19,
                23,
            ) + text.subrange(24, 36),
        )
    } else {
        None
    }
}

/// `c` in lower case where it is an ASCII letter, else `c` itself.
pub open spec fn ascii_lower(c: char) -> char {
    if 'A' <= c <= 'Z' {
        ((c as u32 + 32) as u32) as char
    } else {
        c
    }
}

/// The digits of a UUID's text: all of the simple form (32 characters), and
/// those of the hyphenated form, which may stand in braces or behind
/// `urn:uuid:` in either case.
pub open spec fn uuid_digits(text: Seq<char>) -> Option<Seq<char>> {
    if text.len() == 32 {
        Some(text)
    } else if text.len() == 36 {
        without_hyphens(text)
    } else if text.len() == 38 && text[0] == '{' && text[37] == '}' {
        without_hyphens(text.subrange(1, 37))
    } else if text.len() == 45 && text.subrange(0, 9).map_values(|c: char| ascii_lower(c))
        == seq!['u', 'r', 'n', ':', 'u', 'u', 'i', 'd', ':'] {
        without_hyphens(text.subrange(9, 45))
    } else {
        None
    }
}

/// The UUID that `text` writes, as a number of 128 bits, most significant
/// digit first; `None` where it writes none.
pub open spec fn uuid_value(text: Seq<char>) -> Option<nat> {
    match uuid_digits(text) {
        Some(digits) => hex_value(digits),
        None => None,
    }
}

/// `uuid::Uuid::parse_str`, its result taken by `Uuid::as_u128`: the simple,
/// hyphenated, braced and URN forms are read, in either case, and no other
/// text is.
#[verifier::external_body]
pub(crate) fn parse_uuid(text: &str) -> (r: Result<u128, uuid::Error>)
    ensures
        r is Ok <==> uuid_value(text@) is Some,
        r matches Ok(value) ==> uuid_value(text@) == Some(value as nat),
{
    match uuid::Uuid::parse_str(text) {
        Ok(id) => Ok(id.as_u128()),
        Err(error) => Err(error),
    }
}

} // verus!
