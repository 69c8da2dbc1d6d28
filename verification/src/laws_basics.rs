//! What the small operations give, told over their arguments and their results:
//! text, numbers, statuses, addresses, the client id, the clock.

use std::time::{Duration, SystemTime, SystemTimeError};

use vstd::prelude::*;

use crate::client::{client_id, resolve_client_id, Endpoints};
use crate::clock::{clock_may_read, epoch_ms, is_epoch, is_fresh, is_fresh_at, now_ms};
use crate::credentials::MicrosoftCredentials;
use crate::error::SignInError;
use crate::status::{reason_phrase, HttpStatus};
use crate::text::{
    decimal, decimal_text, is_white_space, same_text, trimmed, trimmed_end, trimmed_start,
};

verus! {

// --- text -------------------------------------------------------------------

/// Whether `text` is nothing but whitespace.
pub open spec fn is_blank(text: Seq<char>) -> bool {
    forall|i: int| 0 <= i < text.len() ==> is_white_space(#[trigger] text[i])
}

/// Whether `core` is what is left of `text` between the whitespace at its two
/// ends: what stands before it and behind it is blank, and it begins and ends
/// with something else.
pub open spec fn is_core(text: Seq<char>, core: Seq<char>) -> bool {
    &&& exists|before: Seq<char>, after: Seq<char>|
        is_blank(before) && is_blank(after) && text == #[trigger] (before + core + after)
    &&& core.len() > 0 ==> !is_white_space(core[0]) && !is_white_space(core[core.len() - 1])
}

/// Whitespace is these twenty-five characters.
pub proof fn law_white_space(c: char)
    ensures
        is_white_space(c) <==> {
            ||| 9 <= c as int <= 13
            ||| c as int == 32
            ||| c as int == 133
            ||| c as int == 160
            ||| c as int == 5760
            ||| 8192 <= c as int <= 8202
            ||| c as int == 8232
            ||| c as int == 8233
            ||| c as int == 8239
            ||| c as int == 8287
            ||| c as int == 12288
        },
{
}

proof fn lemma_trimmed_start_splits(text: Seq<char>) -> (before: Seq<char>)
    ensures
        is_blank(before),
        text == before + trimmed_start(text),
        trimmed_start(text).len() > 0 ==> !is_white_space(trimmed_start(text)[0]),
    decreases text.len(),
{
    if text.len() > 0 && is_white_space(text.first()) {
        let rest = lemma_trimmed_start_splits(text.drop_first());
        let before = seq![text.first()] + rest;
        assert(trimmed_start(text) == trimmed_start(text.drop_first()));
        assert(text =~= seq![text.first()] + (rest + trimmed_start(text)));
        assert(text =~= before + trimmed_start(text));
        before
    } else {
        assert(text =~= Seq::<char>::empty() + trimmed_start(text));
        Seq::empty()
    }
}

proof fn lemma_trimmed_end_splits(text: Seq<char>) -> (after: Seq<char>)
    ensures
        is_blank(after),
        text == trimmed_end(text) + after,
        trimmed_end(text).len() > 0 ==> !is_white_space(
            trimmed_end(text)[trimmed_end(text).len() - 1],
        ),
    decreases text.len(),
{
    if text.len() > 0 && is_white_space(text.last()) {
        let rest = lemma_trimmed_end_splits(text.drop_last());
        let after = rest.push(text.last());
        assert(trimmed_end(text) == trimmed_end(text.drop_last()));
        assert(text =~= (trimmed_end(text) + rest).push(text.last()));
        assert(text =~= trimmed_end(text) + after);
        after
    } else {
        assert(text =~= trimmed_end(text) + Seq::<char>::empty());
        Seq::empty()
    }
}

/// Trimming leaves the core of a text, which is empty where the text is blank
/// and only there.
pub proof fn law_trimming_leaves_the_core(text: Seq<char>)
    ensures
        is_core(text, trimmed(text)),
        trimmed(text).len() == 0 <==> is_blank(text),
{
    let before = lemma_trimmed_start_splits(text);
    let after = lemma_trimmed_end_splits(trimmed_start(text));
    let core = trimmed(text);
    assert(text =~= before + core + after);
    if core.len() > 0 {
        assert(trimmed_start(text)[0] == core[0]);
        assert(text[before.len() as int] == core[0]);
    } else {
        assert forall|i: int| 0 <= i < text.len() implies is_white_space(#[trigger] text[i]) by {
            if i < before.len() {
                assert(text[i] == before[i]);
            } else {
                assert(text[i] == after[i - before.len()]);
            }
        }
    }
}

/// A text has one core: whatever is its core is what trimming leaves.
pub proof fn law_core_is_unique(text: Seq<char>, one: Seq<char>, other: Seq<char>)
    requires
        is_core(text, one),
        is_core(text, other),
    ensures
        one == other,
{
    let (b1, a1) = choose|before: Seq<char>, after: Seq<char>|
        is_blank(before) && is_blank(after) && text == #[trigger] (before + one + after);
    let (b2, a2) = choose|before: Seq<char>, after: Seq<char>|
        is_blank(before) && is_blank(after) && text == #[trigger] (before + other + after);
    let n = text.len();
    if one.len() > 0 {
        assert(text[b1.len() as int] == one[0]);
        assert(text[b1.len() + one.len() - 1] == one[one.len() - 1]);
    }
    if other.len() > 0 {
        assert(text[b2.len() as int] == other[0]);
        assert(text[b2.len() + other.len() - 1] == other[other.len() - 1]);
    }
    assert forall|i: int| 0 <= i < b1.len() implies is_white_space(#[trigger] text[i]) by {
        assert(text[i] == b1[i]);
    }
    assert forall|i: int| 0 <= i < b2.len() implies is_white_space(#[trigger] text[i]) by {
        assert(text[i] == b2[i]);
    }
    assert forall|i: int| b1.len() + one.len() <= i < n implies is_white_space(
        #[trigger] text[i],
    ) by {
        assert(text[i] == a1[i - b1.len() - one.len()]);
    }
    assert forall|i: int| b2.len() + other.len() <= i < n implies is_white_space(
        #[trigger] text[i],
    ) by {
        assert(text[i] == a2[i - b2.len() - other.len()]);
    }
    if one.len() == 0 && other.len() == 0 {
        assert(one =~= other);
    } else if one.len() > 0 && other.len() > 0 {
        assert(b1.len() == b2.len());
        assert(one.len() == other.len());
        assert forall|i: int| 0 <= i < one.len() implies one[i] == other[i] by {
            assert(text[b1.len() + i] == one[i]);
            assert(text[b1.len() + i] == other[i]);
        }
        assert(one =~= other);
    }
}

/// `same_text` holds of two texts with the same characters, and of no others.
pub proof fn law_same_text(text: &str, word: &str, r: bool)
    requires
        call_ensures(same_text, (text, word), r),
    ensures
        r <==> text@.len() == word@.len() && forall|i: int|
            0 <= i < text@.len() ==> #[trigger] text@[i] == word@[i],
{
    if text@.len() == word@.len() && (forall|i: int|
        0 <= i < text@.len() ==> #[trigger] text@[i] == word@[i]) {
        assert(text@ =~= word@);
    }
}

// --- numbers ----------------------------------------------------------------

/// The number that the decimal digits of `text` write.
pub open spec fn number_of(text: Seq<char>) -> int
    decreases text.len(),
{
    if text.len() == 0 {
        0
    } else {
        10 * number_of(text.drop_last()) + (text.last() as int - 48)
    }
}

/// Whether `text` is the usual decimal form of `n`: digits alone, none of them a
/// leading zero, that write `n`.
pub open spec fn writes_number(text: Seq<char>, n: int) -> bool {
    &&& text.len() > 0
    &&& forall|i: int| 0 <= i < text.len() ==> 48 <= #[trigger] text[i] as int <= 57
    &&& text.len() > 1 ==> text[0] as int != 48
    &&& number_of(text) == n
}

pub(crate) proof fn lemma_decimal_text_writes(n: nat)
    ensures
        writes_number(decimal_text(n), n as int),
        n > 0 ==> decimal_text(n)[0] as int != 48,
    decreases n,
{
    let text = decimal_text(n);
    if n < 10 {
        assert(text.drop_last() =~= Seq::<char>::empty());
        assert(number_of(text.drop_last()) == 0);
    } else {
        lemma_decimal_text_writes(n / 10);
        let high = decimal_text(n / 10);
        assert(text.drop_last() =~= high);
        assert(text[0] == high[0]);
        assert forall|i: int| 0 <= i < text.len() implies 48 <= #[trigger] text[i] as int
            <= 57 by {
            if i < high.len() {
                assert(text[i] == high[i]);
            }
        }
    }
}

/// `decimal` writes its argument in decimal.
pub proof fn law_decimal_writes_the_number(n: u64, r: String)
    requires
        call_ensures(decimal, (n,), r),
    ensures
        writes_number(r@, n as int),
{
    lemma_decimal_text_writes(n as nat);
}

/// The text that writes a number is the only one that does.
pub proof fn law_number_has_one_text(one: Seq<char>, other: Seq<char>, n: int)
    requires
        writes_number(one, n),
        writes_number(other, n),
    ensures
        one == other,
    decreases one.len(),
{
    lemma_number_bounds(one);
    lemma_number_bounds(other);
    if one.len() > 1 && other.len() > 1 {
        let a = one.drop_last();
        let b = other.drop_last();
        assert forall|i: int| 0 <= i < a.len() implies 48 <= #[trigger] a[i] as int <= 57 by {
            assert(a[i] == one[i]);
        }
        assert forall|i: int| 0 <= i < b.len() implies 48 <= #[trigger] b[i] as int <= 57 by {
            assert(b[i] == other[i]);
        }
        assert(48 <= one.last() as int <= 57 && 48 <= other.last() as int <= 57);
        assert(a[0] == one[0] && b[0] == other[0]);
        assert(number_of(a) == number_of(b));
        law_number_has_one_text(a, b, number_of(a));
        assert(one =~= a.push(one.last()));
        assert(other =~= b.push(other.last()));
    } else {
        if one.len() == 1 {
            assert(number_of(one.drop_last()) == 0);
            assert(n == one[0] as int - 48);
        }
        if other.len() == 1 {
            assert(number_of(other.drop_last()) == 0);
            assert(n == other[0] as int - 48);
        }
        assert(one =~= other);
    }
}

/// Digits write a number that is not negative, and one of ten or more where
/// there are two or more without a leading zero.
proof fn lemma_number_bounds(text: Seq<char>)
    requires
        text.len() > 0,
        forall|i: int| 0 <= i < text.len() ==> 48 <= #[trigger] text[i] as int <= 57,
    ensures
        number_of(text) >= 0,
        text[0] as int != 48 ==> number_of(text) >= 1,
        text[0] as int != 48 && text.len() > 1 ==> number_of(text) >= 10,
    decreases text.len(),
{
    let high = text.drop_last();
    assert(48 <= text.last() as int <= 57);
    if text.len() > 1 {
        assert forall|i: int| 0 <= i < high.len() implies 48 <= #[trigger] high[i] as int
            <= 57 by {
            assert(high[i] == text[i]);
        }
        assert(high[0] == text[0]);
        lemma_number_bounds(high);
    } else {
        assert(number_of(high) == 0);
    }
}

// --- statuses ---------------------------------------------------------------

/// The character of the decimal digit `d`.
pub open spec fn digit(d: int) -> char {
    (48 + d) as char
}

/// How the status `code` is shown: its three digits, a space and its reason.
pub open spec fn shown(code: u16) -> Seq<char> {
    seq![digit(code as int / 100), digit(code as int / 10 % 10), digit(code as int % 10), ' ']
        + reason_phrase(code)
}

/// A number of three digits is written with these three.
proof fn lemma_three_digits(code: u16)
    requires
        100 <= code <= 999,
    ensures
        decimal_text(code as nat).push(' ') + reason_phrase(code) == shown(code),
{
    let a = code as int / 100;
    let b = code as int / 10 % 10;
    let c = code as int % 10;
    reveal_with_fuel(decimal_text, 3);
    assert(code as nat / 10 / 10 == a);
    assert(decimal_text(code as nat) =~= seq![digit(a), digit(b), digit(c)]);
    assert(decimal_text(code as nat).push(' ') + reason_phrase(code) =~= shown(code));
}

/// A status is shown by its three digits, a space and its reason.
pub proof fn law_status_is_shown(status: &HttpStatus, r: String)
    requires
        100 <= status@ <= 999,
        call_ensures(HttpStatus::to_string, (status,), r),
    ensures
        r@ == shown(status@),
{
    lemma_three_digits(status@);
}

/// What the library shows of a status is `shown`.
pub(crate) proof fn lemma_status_text(code: u16)
    requires
        100 <= code <= 999,
    ensures
        crate::status::status_text(code) == shown(code),
{
    lemma_three_digits(code);
}

/// There is a status for each number of three digits and for no other; its code
/// is that number, and it accepts where its first digit is 2.
pub proof fn law_status_is_its_number(
    code: u16,
    made: Option<HttpStatus>,
    status: HttpStatus,
    read: u16,
    accepts: bool,
)
    requires
        call_ensures(HttpStatus::new, (code,), made),
        made == Some(status),
        call_ensures(HttpStatus::code, (&status,), read),
        call_ensures(HttpStatus::is_success, (&status,), accepts),
    ensures
        100 <= code < 1000,
        read == code,
        accepts <==> code / 100 == 2,
{
}

/// No number outside three digits is a status.
pub proof fn law_no_other_status(code: u16, made: Option<HttpStatus>)
    requires
        call_ensures(HttpStatus::new, (code,), made),
    ensures
        made is None <==> code < 100 || code > 999,
{
}

/// An error says what it was made with.
pub proof fn law_error_says_its_message(message: String, error: SignInError, said: String)
    requires
        call_ensures(SignInError::other, (message,), error),
        call_ensures(SignInError::to_string, (&error,), said),
    ensures
        error.message@ == message@,
        said@ == message@,
{
}

// --- the client id and the addresses ----------------------------------------

/// The client id is the core of the environment's value where that is not
/// blank, else the core of the compiled one; where both are blank, the error
/// says so and names the variable to set.
pub proof fn law_client_id_is_the_first_that_is_not_blank(
    from_env: &str,
    compiled: &str,
    r: Result<String, SignInError>,
)
    requires
        call_ensures(resolve_client_id, (from_env, compiled), r),
    ensures
        !is_blank(from_env@) ==> (r matches Ok(id) && id@.len() > 0 && is_core(from_env@, id@)),
        is_blank(from_env@) && !is_blank(compiled@) ==> (r matches Ok(id) && id@.len() > 0
            && is_core(compiled@, id@)),
        is_blank(from_env@) && is_blank(compiled@) ==> (r matches Err(error) && error.message@
            == "aucun identifiant d'application Microsoft configuré enregistrez une application Azure (comptes personnels, flux client public) puis renseignez son identifiant dans la variable d'environnement "@
            + "GLAUNCHER_MS_CLIENT_ID"@),
{
    law_trimming_leaves_the_core(from_env@);
    law_trimming_leaves_the_core(compiled@);
}

/// The launcher signs in as the environment says, where that is not blank, and
/// else as the application that it was compiled for.
pub proof fn law_launcher_has_a_client_id(from_env: &str, r: Result<String, SignInError>)
    requires
        call_ensures(client_id, (from_env,), r),
    ensures
        !is_blank(from_env@) ==> (r matches Ok(id) && id@.len() > 0 && is_core(from_env@, id@)),
        is_blank(from_env@) ==> (r matches Ok(id) && id@
            == "f3b05cee-8075-4d25-bf37-5441fae62747"@),
{
    law_trimming_leaves_the_core(from_env@);
}

/// The public addresses of the services.
pub proof fn law_public_addresses(r: Endpoints)
    requires
        call_ensures(<Endpoints as Default>::default, (), r),
    ensures
        r.device_code@ == "https://login.microsoftonline.com/consumers/oauth2/v2.0"@
            + "/devicecode"@,
        r.token@ == "https://login.microsoftonline.com/consumers/oauth2/v2.0"@ + "/token"@,
        r.xbox_live@ == "https://user.auth.xboxlive.com/user/authenticate"@,
        r.xsts@ == "https://xsts.auth.xboxlive.com/xsts/authorize"@,
        r.minecraft_login@ == "https://api.minecraftservices.com/authentication/login_with_xbox"@,
        r.minecraft_profile@ == "https://api.minecraftservices.com/minecraft/profile"@,
{
}

/// With all routes on one base, each address is the base and a path of its own.
pub proof fn law_addresses_on_one_base(base: &str, r: Endpoints)
    requires
        call_ensures(Endpoints::all_on, (base,), r),
    ensures
        r.device_code@ == base@ + "/devicecode"@,
        r.token@ == base@ + "/token"@,
        r.xbox_live@ == base@ + "/xbl"@,
        r.xsts@ == base@ + "/xsts"@,
        r.minecraft_login@ == base@ + "/login_with_xbox"@,
        r.minecraft_profile@ == base@ + "/profile"@,
{
}

// --- the clock --------------------------------------------------------------

/// Whether `now` is, as far as 64 bits hold it, the number of whole milliseconds
/// that `Duration::as_millis` counts from the epoch to a time that
/// `SystemTime::now` gives, or 0 where that time is before the epoch.
pub open spec fn is_milliseconds_since_epoch(now: u64) -> bool {
    exists|time: SystemTime, start: SystemTime, elapsed: Result<Duration, SystemTimeError>|
        {
            &&& call_ensures(SystemTime::now, (), time)
            &&& is_epoch(start)
            &&& #[trigger] call_ensures(SystemTime::duration_since, (&time, start), elapsed)
            &&& elapsed is Err ==> now == 0
            &&& elapsed matches Ok(duration) ==> exists|ms: u128, wraps: int|
                #![trigger call_ensures(Duration::as_millis, (&duration,), ms), counts(ms, now, wraps)]
                call_ensures(Duration::as_millis, (&duration,), ms) && counts(ms, now, wraps)
        }
}

/// Whether `ms` is `now` and `wraps` times what 64 bits hold: none, for the
/// next half a billion years.
pub open spec fn counts(ms: u128, now: u64, wraps: int) -> bool {
    &&& wraps >= 0
    &&& ms == now + wraps * 0x1_0000_0000_0000_0000
    &&& ms <= u64::MAX ==> now == ms
}

/// What the clock may read is in milliseconds.
pub proof fn law_clock_reads_milliseconds(now: u64)
    requires
        clock_may_read(now),
    ensures
        is_milliseconds_since_epoch(now),
{
    let (time, start, elapsed) = choose|
        time: SystemTime,
        start: SystemTime,
        elapsed: Result<Duration, SystemTimeError>,
    |
        {
            &&& call_ensures(SystemTime::now, (), time)
            &&& is_epoch(start)
            &&& #[trigger] call_ensures(SystemTime::duration_since, (&time, start), elapsed)
            &&& match elapsed {
                Ok(duration) => exists|ms: u128| #[trigger]
                    call_ensures(Duration::as_millis, (&duration,), ms) && now == ms
                        % 0x1_0000_0000_0000_0000,
                Err(_) => now == 0,
            }
        };
    if let Ok(duration) = elapsed {
        let ms = choose|ms: u128| #[trigger]
            call_ensures(Duration::as_millis, (&duration,), ms) && now == ms
                % 0x1_0000_0000_0000_0000;
        let wraps = ms as int / 0x1_0000_0000_0000_0000;
        assert(counts(ms, now, wraps));
    }
}

/// `now_ms` gives the milliseconds since the epoch, with no other factor.
pub proof fn law_now_is_in_milliseconds(r: u64)
    requires
        call_ensures(now_ms, (), r),
    ensures
        is_milliseconds_since_epoch(r),
{
    law_clock_reads_milliseconds(r);
}

/// A reading in milliseconds is kept as it is, as far as 64 bits hold it; one
/// before the epoch counts as the epoch.
pub proof fn law_reading_is_kept(elapsed_ms: Option<u128>, r: u64)
    requires
        call_ensures(epoch_ms, (elapsed_ms,), r),
    ensures
        elapsed_ms is None ==> r == 0,
        elapsed_ms matches Some(ms) ==> (ms <= u64::MAX ==> r == ms) && exists|wraps: int| #[trigger]
            counts(ms, r, wraps),
{
    if let Some(ms) = elapsed_ms {
        assert(counts(ms, r, ms as int / 0x1_0000_0000_0000_0000));
    }
}

/// A token is fresh exactly where five minutes or more are left of it.
pub proof fn law_fresh_is_five_minutes_left(now: u64, expires_at_ms: u64, r: bool)
    requires
        call_ensures(is_fresh_at, (now, expires_at_ms), r),
    ensures
        r <==> expires_at_ms - now >= 5 * 60 * 1000,
{
}

/// By the clock, a token is fresh exactly where five minutes or more are left of
/// it at what the clock reads in milliseconds.
pub proof fn law_fresh_by_the_clock(expires_at_ms: u64, r: bool)
    requires
        call_ensures(is_fresh, (expires_at_ms,), r),
    ensures
        exists|now: u64| #[trigger]
            is_milliseconds_since_epoch(now) && (r <==> expires_at_ms - now >= 5 * 60 * 1000),
{
    let now = choose|now: u64| #[trigger]
        clock_may_read(now) && r == crate::clock::fresh_at(now as int, expires_at_ms as int);
    law_clock_reads_milliseconds(now);
}

/// Credentials are fresh as their access token is, by the clock and at a given
/// time.
pub proof fn law_credentials_are_fresh_as_their_token(
    credentials: &MicrosoftCredentials,
    now: u64,
    at: bool,
    r: bool,
)
    requires
        call_ensures(MicrosoftCredentials::is_fresh_at, (credentials, now), at),
        call_ensures(MicrosoftCredentials::is_fresh, (credentials,), r),
    ensures
        at <==> credentials.expires_at_ms - now >= 5 * 60 * 1000,
        exists|read: u64| #[trigger]
            is_milliseconds_since_epoch(read) && (r <==> credentials.expires_at_ms - read >= 5 * 60
                * 1000),
{
    let read = choose|read: u64| #[trigger]
        clock_may_read(read) && r == credentials.good_at(read);
    law_clock_reads_milliseconds(read);
}

} // verus!
