//! Which number the id of a profile stands for, told character by character.

use vstd::arithmetic::div_mod::{
    lemma_div_denominator, lemma_fundamental_div_mod_converse,
};
use vstd::arithmetic::power::{lemma_pow_positive, pow};
use vstd::prelude::*;

use crate::error::SignInError;
use crate::identity::{
    ascii_lower, hex_digit, hex_value, uuid_digits, uuid_value, without_hyphens,
};
use crate::laws::law_uuid_fits_in_128_bits;
use crate::xbox::Profile;

verus! {

/// Whether `c` is the hexadecimal digit `d`, in either case.
pub open spec fn is_hex(c: char, d: int) -> bool {
    &&& 0 <= d < 16
    &&& ({
        ||| c == seq![
            '0',
            '1',
            '2',
            '3',
            '4',
            '5',
            '6',
            '7',
            '8',
            '9',
            'a',
            'b',
            'c',
            'd',
            'e',
            'f',
        ][d]
        ||| c == seq![
            '0',
            '1',
            '2',
            '3',
            '4',
            '5',
            '6',
            '7',
            '8',
            '9',
            'A',
            'B',
            'C',
            'D',
            'E',
            'F',
        ][d]
    })
}

/// The digit of `value` that `after` others follow, in base 16.
pub open spec fn digit_before(value: int, after: int) -> int {
    value / pow(16, after as nat) % 16
}

/// Whether `digits` writes `value` in base 16, most significant digit first.
pub open spec fn writes_hex(digits: Seq<char>, value: int) -> bool {
    &&& 0 <= value < pow(16, digits.len())
    &&& forall|i: int|
        0 <= i < digits.len() ==> is_hex(
            #[trigger] digits[i],
            digit_before(value, digits.len() - 1 - i),
        )
}

/// `digits` with hyphens between its groups of 8, 4, 4, 4 and 12.
pub open spec fn hyphenated(digits: Seq<char>) -> Seq<char> {
    digits.subrange(0, 8) + seq!['-'] + digits.subrange(8, 12) + seq!['-'] + digits.subrange(
        12,
        16,
    ) + seq!['-'] + digits.subrange(16, 20) + seq!['-'] + digits.subrange(20, 32)
}

/// Whether `text` is `urn:uuid:`, each letter in either case.
pub open spec fn is_urn(text: Seq<char>) -> bool {
    &&& text.len() == 9
    &&& text[0] == 'u' || text[0] == 'U'
    &&& text[1] == 'r' || text[1] == 'R'
    &&& text[2] == 'n' || text[2] == 'N'
    &&& text[3] == ':'
    &&& text[4] == 'u' || text[4] == 'U'
    &&& text[5] == 'u' || text[5] == 'U'
    &&& text[6] == 'i' || text[6] == 'I'
    &&& text[7] == 'd' || text[7] == 'D'
    &&& text[8] == ':'
}

/// Whether `text` is a UUID of the digits `digits`: these alone, or hyphenated,
/// and then as they stand, in braces or behind `urn:uuid:`.
pub open spec fn is_uuid_of(text: Seq<char>, digits: Seq<char>) -> bool {
    &&& digits.len() == 32
    &&& {
        ||| text == digits
        ||| text == hyphenated(digits)
        ||| text == seq!['{'] + hyphenated(digits) + seq!['}']
        ||| text.len() == 45 && is_urn(text.take(9)) && text.skip(9) == hyphenated(digits)
    }
}

/// Whether `text` is a UUID whose number is `value`.
pub open spec fn writes_uuid(text: Seq<char>, value: int) -> bool {
    exists|digits: Seq<char>| #[trigger] is_uuid_of(text, digits) && writes_hex(digits, value)
}

proof fn lemma_hex_digit(c: char)
    ensures
        hex_digit(c) matches Some(d) ==> is_hex(c, d as int),
        forall|d: int| #[trigger] is_hex(c, d) ==> hex_digit(c) == Some(d as nat),
{
}

proof fn lemma_hex_value_is_written(digits: Seq<char>)
    ensures
        hex_value(digits) matches Some(value) ==> writes_hex(digits, value as int),
        hex_value(digits) is Some <==> forall|i: int|
            0 <= i < digits.len() ==> hex_digit(#[trigger] digits[i]) is Some,
    decreases digits.len(),
{
    reveal(pow);
    let n: int = digits.len() as int;
    if n > 0 {
        let head = digits.drop_last();
        lemma_hex_value_is_written(head);
        lemma_hex_digit(digits.last());
        assert(forall|i: int| 0 <= i < n - 1 ==> #[trigger] digits[i] == head[i]);
        if hex_value(digits) is Some {
            let value: int = hex_value(digits)->0 as int;
            let high: int = hex_value(head)->0 as int;
            let low: int = hex_digit(digits.last())->0 as int;
            assert(value == high * 16 + low);
            assert(pow(16, n as nat) == 16 * pow(16, (n - 1) as nat));
            lemma_fundamental_div_mod_converse(value, 16, high, low);
            assert forall|i: int| 0 <= i < n implies is_hex(
                #[trigger] digits[i],
                digit_before(value, n - 1 - i),
            ) by {
                if i == n - 1 {
                    assert(pow(16, 0) == 1);
                    assert(digits[i] == digits.last());
                } else {
                    let after: nat = (n - 2 - i) as nat;
                    lemma_pow_positive(16, after);
                    lemma_div_denominator(value, 16, pow(16, after));
                    assert(pow(16, after + 1) == 16 * pow(16, after));
                    assert(digit_before(value, n - 1 - i) == digit_before(high, n - 2 - i));
                    assert(digits[i] == head[i]);
                }
            }
        }
        if forall|i: int| 0 <= i < n ==> hex_digit(#[trigger] digits[i]) is Some {
            assert forall|i: int| 0 <= i < head.len() implies hex_digit(
                #[trigger] head[i],
            ) is Some by {
                assert(digits[i] == head[i]);
            }
            assert(digits[n - 1] == digits.last());
        }
        if hex_value(digits) is Some {
            assert forall|i: int| 0 <= i < n implies hex_digit(#[trigger] digits[i]) is Some by {
                if i < n - 1 {
                    assert(digits[i] == head[i]);
                }
            }
        }
    }
}

proof fn lemma_hyphens(text: Seq<char>, digits: Seq<char>)
    ensures
        without_hyphens(text) == Some(digits) ==> digits.len() == 32 && text == hyphenated(digits),
        digits.len() == 32 && text == hyphenated(digits) ==> without_hyphens(text) == Some(digits),
{
    if without_hyphens(text) == Some(digits) {
        assert(text =~= hyphenated(digits));
    }
    if digits.len() == 32 && text == hyphenated(digits) {
        assert(text.len() == 36);
        assert(without_hyphens(text)->0 =~= digits);
    }
}

proof fn lemma_urn(text: Seq<char>)
    requires
        text.len() == 9,
    ensures
        is_urn(text) <==> text.map_values(|c: char| ascii_lower(c)) == seq![
            'u',
            'r',
            'n',
            ':',
            'u',
            'u',
            'i',
            'd',
            ':',
        ],
{
    let lower = text.map_values(|c: char| ascii_lower(c));
    let urn = seq!['u', 'r', 'n', ':', 'u', 'u', 'i', 'd', ':'];
    assert(forall|i: int| 0 <= i < 9 ==> #[trigger] lower[i] == ascii_lower(text[i]));
    if is_urn(text) {
        assert(lower =~= urn);
    }
    if lower == urn {
        assert(forall|i: int| 0 <= i < 9 ==> ascii_lower(#[trigger] text[i]) == urn[i]) by {
            assert(forall|i: int| 0 <= i < 9 ==> ascii_lower(#[trigger] text[i]) == lower[i]);
        }
        assert(ascii_lower(text[0]) == 'u');
        assert(ascii_lower(text[1]) == 'r');
        assert(ascii_lower(text[2]) == 'n');
        assert(ascii_lower(text[3]) == ':');
        assert(ascii_lower(text[4]) == 'u');
        assert(ascii_lower(text[5]) == 'u');
        assert(ascii_lower(text[6]) == 'i');
        assert(ascii_lower(text[7]) == 'd');
        assert(ascii_lower(text[8]) == ':');
    }
}

proof fn lemma_uuid_digits(text: Seq<char>, digits: Seq<char>)
    ensures
        uuid_digits(text) == Some(digits) <==> is_uuid_of(text, digits),
{
    if text.len() == 36 {
        lemma_hyphens(text, digits);
    }
    if text.len() == 38 {
        let inner = text.subrange(1, 37);
        lemma_hyphens(inner, digits);
        if text[0] == '{' && text[37] == '}' {
            assert(text =~= seq!['{'] + inner + seq!['}']);
        }
        if digits.len() == 32 && text == seq!['{'] + hyphenated(digits) + seq!['}'] {
            assert(inner =~= hyphenated(digits));
        }
    }
    if text.len() == 45 {
        assert(text.subrange(0, 9) =~= text.take(9));
        assert(text.subrange(9, 45) =~= text.skip(9));
        lemma_urn(text.take(9));
        lemma_hyphens(text.skip(9), digits);
    }
}

/// The number of a UUID's text is the one that its digits write.
pub(crate) proof fn lemma_uuid_is_written(text: Seq<char>)
    ensures
        uuid_value(text) matches Some(value) ==> writes_uuid(text, value as int),
        uuid_value(text) is None ==> forall|value: int| !#[trigger] writes_uuid(text, value),
{
    if let Some(digits) = uuid_digits(text) {
        lemma_uuid_digits(text, digits);
        lemma_hex_value_is_written(digits);
    }
    if uuid_value(text) is None {
        assert forall|value: int| !#[trigger] writes_uuid(text, value) by {
            if writes_uuid(text, value) {
                let digits = choose|digits: Seq<char>| #[trigger]
                    is_uuid_of(text, digits) && writes_hex(digits, value);
                lemma_uuid_digits(text, digits);
                lemma_hex_value_is_written(digits);
                assert forall|i: int| 0 <= i < digits.len() implies hex_digit(
                    #[trigger] digits[i],
                ) is Some by {
                    lemma_hex_digit(digits[i]);
                }
            }
        }
    }
}

/// The UUID of a profile is the number that its id writes, in any of the four
/// forms of a UUID; an id in none of them is refused and quoted.
pub proof fn law_profile_uuid(profile: &Profile, r: Result<u128, SignInError>)
    requires
        call_ensures(Profile::uuid, (profile,), r),
    ensures
        r matches Ok(uuid) ==> writes_uuid(profile.id@, uuid as int),
        r matches Err(error) ==> error.message@ == "UUID de profil illisible: "@ + profile.id@,
        r is Err ==> forall|value: int| !#[trigger] writes_uuid(profile.id@, value),
{
    law_uuid_fits_in_128_bits(profile.id@);
    lemma_uuid_is_written(profile.id@);
}

} // verus!
