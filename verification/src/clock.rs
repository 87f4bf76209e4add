//! The creation timestamp of an event: the current instant, rendered as an
//! RFC-5545 UTC timestamp. The value differs from run to run and is never
//! part of event identity, so only its shape is stated.

use vstd::prelude::*;

verus! {

/// Relies on chrono::Utc::now and chrono's `%Y%m%dT%H%M%SZ` formatting: the
/// rendered instant always holds the literal `T` time separator and at
/// least the sixteen characters of a four-digit-year timestamp.
#[verifier::external_body]
pub fn now_dtstamp() -> (r: String)
    ensures
        r@.len() >= 16,
        r@.contains('T'),
{
    chrono::Utc::now().format("%Y%m%dT%H%M%SZ").to_string()
}

} // verus!
