//! What the handshake takes from the machine it runs on: the time and a
//! random number. Neither can be predicted, so nothing is claimed of them.
use rand::RngCore;
use vstd::prelude::*;

verus! {

/// Asks the operating system for eight random bytes with
/// `rand::rngs::OsRng` and its `RngCore::try_fill_bytes`, and reads them as
/// a number.
///
/// Not verified, and nothing is promised of the result: there may be no
/// number, when the operating system gives none, and two numbers may or may
/// not differ.
#[verifier::external_body]
pub(crate) fn random_nonce() -> (nonce: Option<u64>) {
    let mut bytes = [0u8; 8];
    match rand::rngs::OsRng.try_fill_bytes(&mut bytes) {
        Ok(()) => Some(u64::from_le_bytes(bytes)),
        Err(_) => None,
    }
}

/// Reads the clock with `std::time::SystemTime::now`, turns it into a
/// `chrono::DateTime<chrono::Utc>` and returns its `timestamp()`, the
/// seconds since 1970-01-01 00:00:00 UTC.
///
/// Not verified, and nothing is promised of the number. A clock that is set
/// to a time before 1970 gives a negative number. The conversion gives up
/// only on a clock beyond the years that `chrono` can name, some 262,000 of
/// them on either side.
#[verifier::external_body]
pub(crate) fn unix_time() -> (seconds: i64) {
    chrono::DateTime::<chrono::Utc>::from(std::time::SystemTime::now()).timestamp()
}

} // verus!
