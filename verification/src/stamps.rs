//! What a new record takes from its surroundings: the time and an identifier.

use vstd::prelude::*;

verus! {

/// A reading of the system clock; nothing of it is read here.
#[verifier::external_type_specification]
#[verifier::external_body]
pub struct ExSystemTime(std::time::SystemTime);

/// Calls `std::time::SystemTime::now`.
///
/// Trusted: nothing is claimed of the reading.
#[verifier::external_body]
fn system_time() -> (r: std::time::SystemTime) {
    std::time::SystemTime::now()
}

/// Calls `std::time::SystemTime::duration_since` on `time` with the start
/// of 1970 and takes the whole seconds of the result; `None` for a reading
/// before 1970.
///
/// Trusted: nothing is claimed of the seconds.
#[verifier::external_body]
fn seconds_since_1970(time: &std::time::SystemTime) -> (r: Option<u64>) {
    match time.duration_since(std::time::UNIX_EPOCH) {
        Ok(elapsed) => Some(elapsed.as_secs()),
        Err(_) => None,
    }
}

/// Calls `chrono::DateTime::<chrono::Local>::from` on what
/// `std::time::SystemTime::now` gives and renders the result with its
/// `Display`.
///
/// Trusted: nothing is claimed of the text, which depends on the clock and
/// the time zone of the machine.  The conversion takes a clock that
/// stands before 1970 as well.
#[verifier::external_body]
pub(crate) fn local_time_text() -> (r: String) {
    chrono::DateTime::<chrono::Local>::from(std::time::SystemTime::now()).to_string()
}

/// Calls `bson::oid::ObjectId::new` and takes the twelve bytes of the result.
///
/// `reading` is the caller's reading of the clock, in seconds since 1970.
/// The call reads the clock itself and stamps the identifier with the
/// seconds in 32 bits: it is made only on a clock whose reading fits.
///
/// Trusted: nothing is claimed of the bytes, which depend on the clock, the
/// process and a counter.
#[verifier::external_body]
fn object_id_bytes(reading: u64) -> (r: [u8; 12])
    requires
        reading <= u32::MAX,
{
    bson::oid::ObjectId::new().bytes()
}

/// A fresh identifier, or `None` where none can be made: the clock stands
/// before 1970, or so late that its seconds do not fit in the 32 bits
/// that an identifier has for them.
pub(crate) fn fresh_identifier() -> (r: Option<[u8; 12]>) {
    let now = system_time();
    match seconds_since_1970(&now) {
        Some(reading) => if reading <= 0xffff_ffff {
            Some(object_id_bytes(reading))
        } else {
            None
        },
        None => None,
    }
}

} // verus!
