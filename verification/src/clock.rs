//! The clock, and how long a Minecraft token stays good.

use std::time::{Duration, SystemTime, SystemTimeError, UNIX_EPOCH};

use vstd::prelude::*;

verus! {

/// How long before its expiry a token stops being good, in milliseconds: one
/// renewed to the second would be dead by the time the game has started.
pub const EXPIRY_MARGIN_MS: u64 = 300_000;

/// `std::time::SystemTime`, a reading of the clock. Nothing is known of what
/// is inside one.
#[verifier::external_type_specification]
#[verifier::external_body]
pub struct ExSystemTime(std::time::SystemTime);

/// `std::time::SystemTimeError`, which says that one reading is not later than
/// another.
#[verifier::external_type_specification]
#[verifier::external_body]
pub struct ExSystemTimeError(std::time::SystemTimeError);

/// `SystemTime::now` reads the system's clock. It can be set to any time, so
/// nothing is claimed of the reading.
pub assume_specification[ SystemTime::now ]() -> (r: SystemTime)
;

/// `SystemTime::duration_since` is the time from `earlier` to `time`, or an
/// error where `earlier` is the later one. Both are readings of a clock:
/// nothing is claimed of which of the two it is.
pub assume_specification[ SystemTime::duration_since ](
    time: &SystemTime,
    earlier: SystemTime,
) -> (r: Result<Duration, SystemTimeError>)
;

/// `Duration::as_millis` is the number of whole milliseconds in a duration. A
/// duration is opaque here: nothing is claimed of the number.
pub assume_specification[ Duration::as_millis ](duration: &Duration) -> (r: u128)
;

/// `std::time::UNIX_EPOCH`, the start of 1970, from which the clock is counted.
/// A reading is opaque here: nothing is claimed of this one.
#[verifier::external_body]
fn epoch() -> (r: SystemTime) {
    UNIX_EPOCH
}

/// The milliseconds since 1970 that fit in 64 bits. A clock set before 1970
/// (`None`) is absurd: it counts as standing at the start of 1970.
pub fn epoch_ms(elapsed_ms: Option<u128>) -> (r: u64)
    ensures
        r == match elapsed_ms {
            Some(ms) => (ms % 0x1_0000_0000_0000_0000) as int,
            None => 0,
        },
{
    match elapsed_ms {
        Some(ms) => {
            assert(ms as u64 == ms % 0x1_0000_0000_0000_0000) by (bit_vector);
            #[verifier::truncate]
            (ms as u64)
        },
        None => 0,
    }
}

/// Whether `start` is the start of 1970, as `epoch` gives it.
pub closed spec fn is_epoch(start: SystemTime) -> bool {
    call_ensures(epoch, (), start)
}

/// The epoch is what `epoch` gives, and nothing else.
proof fn law_epoch_is_the_constant(start: SystemTime)
    ensures
        is_epoch(start) <==> call_ensures(epoch, (), start),
{
}

/// Whether `now` is what the clock may say: the whole milliseconds that
/// `as_millis` may count in the time that `duration_since` may give between the
/// epoch and a reading of `SystemTime::now`, as far as 64 bits hold them; 0
/// where the reading is before the epoch.
pub open spec fn clock_may_read(now: u64) -> bool {
    exists|time: SystemTime, start: SystemTime, elapsed: Result<Duration, SystemTimeError>|
        {
            &&& call_ensures(SystemTime::now, (), time)
            &&& is_epoch(start)
            &&& #[trigger] call_ensures(SystemTime::duration_since, (&time, start), elapsed)
            &&& match elapsed {
                Ok(duration) => exists|ms: u128| #[trigger]
                    call_ensures(Duration::as_millis, (&duration,), ms) && now == ms
                        % 0x1_0000_0000_0000_0000,
                Err(_) => now == 0,
            }
        }
}

/// What `f` gives.
fn call<R, F: Fn() -> R>(f: F) -> (r: R)
    requires
        call_requires(f, ()),
    ensures
        call_ensures(f, (), r),
{
    f()
}

/// What `f` gives for `a`.
fn call_with<A, R, F: Fn(&A) -> R>(f: F, a: &A) -> (r: R)
    requires
        call_requires(f, (a,)),
    ensures
        call_ensures(f, (a,), r),
{
    f(a)
}

/// What `f` gives for `a` and `b`.
fn call_with_two<A, B, R, F: Fn(&A, B) -> R>(f: F, a: &A, b: B) -> (r: R)
    requires
        call_requires(f, (a, b)),
    ensures
        call_ensures(f, (a, b), r),
{
    f(a, b)
}

/// Milliseconds since 1970, by the clock.
pub fn now_ms() -> (r: u64)
    ensures
        clock_may_read(r),
        exists|time: SystemTime, start: SystemTime, elapsed: Result<Duration, SystemTimeError>|
            {
                &&& call_ensures(SystemTime::now, (), time)
                &&& is_epoch(start)
                &&& #[trigger] call_ensures(SystemTime::duration_since, (&time, start), elapsed)
                &&& match elapsed {
                    Ok(duration) => exists|ms: u128| #[trigger]
                        call_ensures(Duration::as_millis, (&duration,), ms) && r == ms
                            % 0x1_0000_0000_0000_0000,
                    Err(_) => r == 0,
                }
            },
{
    let time = call(SystemTime::now);
    let start = call(epoch);
    match call_with_two(SystemTime::duration_since, &time, start) {
        Ok(elapsed) => {
            let ms: u128 = call_with(Duration::as_millis, &elapsed);
            epoch_ms(Some(ms))
        },
        Err(_) => epoch_ms(None),
    }
}

/// Whether a token that expires at `expires_at_ms` is still good at `now_ms`:
/// the whole margin lies before its expiry.
pub open spec fn fresh_at(now_ms: int, expires_at_ms: int) -> bool {
    now_ms + EXPIRY_MARGIN_MS <= expires_at_ms
}

/// Whether a Minecraft token is still good at `now_ms` to start a game.
pub fn is_fresh_at(now_ms: u64, expires_at_ms: u64) -> (r: bool)
    ensures
        r == fresh_at(now_ms as int, expires_at_ms as int),
{
    match now_ms.checked_add(EXPIRY_MARGIN_MS) {
        Some(limit) => limit <= expires_at_ms,
        None => false,
    }
}

/// Whether a Minecraft token is still good to start a game, at what the clock
/// says. A token that expires within the margin after the start of 1970 never
/// is.
pub fn is_fresh(expires_at_ms: u64) -> (r: bool)
    ensures
        expires_at_ms < EXPIRY_MARGIN_MS ==> !r,
        exists|now: u64| #[trigger]
            clock_may_read(now) && r == fresh_at(now as int, expires_at_ms as int),
{
    is_fresh_at(now_ms(), expires_at_ms)
}

} // verus!
