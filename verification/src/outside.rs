//! The calls that leave this crate: random draws, fresh identifiers and the
//! system clock. Nothing here is proved; each contract states what the
//! function called is documented to do.

use vstd::prelude::*;

use core::time::Duration;
use rand::Rng;

verus! {

/// `rand::Rng::gen_range` on the thread-local generator `rand::thread_rng()`,
/// for the half-open range from `low` to `high`. The range must not be empty;
/// the value drawn lies in it. Which value is drawn is left open.
#[verifier::external_body]
pub(crate) fn draw_between(low: i64, high: i64) -> (drawn: i64)
    requires
        low < high,
    ensures
        low <= drawn < high,
{
    rand::thread_rng().gen_range(low..high)
}

/// Whether `c` is a decimal digit or a letter from `a` to `f`.
pub open spec fn is_lower_hex(c: char) -> bool {
    ('0' <= c && c <= '9') || ('a' <= c && c <= 'f')
}

/// Whether `text` is a random (version 4) UUID in its hyphenated lower-case
/// form: five groups of 8, 4, 4, 4 and 12 hexadecimal digits, the third
/// starting with `4`, the fourth with `8`, `9`, `a` or `b`.
pub open spec fn is_random_uuid(text: Seq<char>) -> bool {
    &&& text.len() == 36
    &&& forall|i: int|
        0 <= i < 36 ==> if i == 8 || i == 13 || i == 18 || i == 23 {
            #[trigger] text[i] == '-'
        } else {
            is_lower_hex(text[i])
        }
    &&& text[14] == '4'
    &&& (text[19] == '8' || text[19] == '9' || text[19] == 'a' || text[19] == 'b')
}

/// `uuid::Uuid::new_v4`, written out as its `Display` implementation does: a
/// random UUID in hyphenated lower-case form. That two calls give different
/// identifiers is likely and not stated.
#[verifier::external_body]
pub(crate) fn fresh_id() -> (id: String)
    ensures
        is_random_uuid(id@),
{
    format!("{}", uuid::Uuid::new_v4())
}

/// `std::time::SystemTime::elapsed` on `std::time::UNIX_EPOCH`: the time that
/// the system clock shows, counted from the Unix epoch; `None` where the clock
/// stands before the epoch. Nothing is stated of the time read.
#[verifier::external_body]
pub(crate) fn since_epoch() -> (elapsed: Option<Duration>) {
    std::time::UNIX_EPOCH.elapsed().ok()
}

/// `Duration::as_secs`: the whole seconds of a duration.
pub assume_specification[ Duration::as_secs ](duration: &Duration) -> (seconds: u64)
;

/// `Duration::subsec_micros`: the part of a duration beyond its whole seconds,
/// in whole microseconds, which is less than one second.
pub assume_specification[ Duration::subsec_micros ](duration: &Duration) -> (micros: u32)
    ensures
        micros < 1_000_000,
;

/// The microseconds in `seconds` seconds and `micros` microseconds, or the
/// largest `u64` where they exceed it.
pub open spec fn micros_of(seconds: u64, micros: u32) -> u64 {
    if seconds * 1_000_000 + micros <= u64::MAX {
        (seconds * 1_000_000 + micros) as u64
    } else {
        u64::MAX
    }
}

pub fn epoch_micros(seconds: u64, micros: u32) -> (total: u64)
    ensures
        total == micros_of(seconds, micros),
{
    let wide: u128 = (seconds as u128) * 1_000_000 + (micros as u128);
    if wide <= u64::MAX as u128 {
        wide as u64
    } else {
        u64::MAX
    }
}

/// The system clock's time in microseconds since the Unix epoch, or `None`
/// where the clock stands before the epoch.
pub fn current_epoch() -> (now: Option<u64>) {
    match since_epoch() {
        Some(elapsed) => Some(epoch_micros(elapsed.as_secs(), elapsed.subsec_micros())),
        None => None,
    }
}

/// The system clock's time in whole seconds since the Unix epoch, or `None`
/// where the clock stands before the epoch.
pub fn current_epoch_seconds() -> (now: Option<u64>) {
    match since_epoch() {
        Some(elapsed) => Some(elapsed.as_secs()),
        None => None,
    }
}

} // verus!
