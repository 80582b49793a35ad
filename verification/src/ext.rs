//! The few points where the library leans on outside code: the clock and a
//! `String` primitive that vstd gives no specification for.

use vstd::prelude::*;

verus! {

/// Relies on chrono's `Utc::now` and `DateTime::to_rfc2822`: the current UTC
/// time, formatted as an RFC 2822 timestamp. The result depends on the
/// clock, so nothing is promised of it.
#[verifier::external_body]
pub(crate) fn now_rfc2822() -> String {
    chrono::Utc::now().to_rfc2822()
}

/// Relies on `String::push`: appends exactly the one character `c`.
#[verifier::external_body]
pub(crate) fn push_char(s: &mut String, c: char)
    ensures
        final(s)@ == old(s)@.push(c),
{
    s.push(c);
}

} // verus!
