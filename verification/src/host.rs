//! Calls into the host environment: the clock and randomness.

use vstd::prelude::*;
use rand::Rng;
use crate::decimal::decimal_string;
use crate::token::Token;

verus! {

/// Relies on rand::Rng::gen_range over `0..bound`, on the thread-local
/// generator: a value drawn from the half-open range. The range must
/// not be empty.
#[verifier::external_body]
pub(crate) fn random_below(bound: i64) -> (drawn: i64)
    requires
        1 <= bound,
    ensures
        0 <= drawn < bound,
{
    rand::thread_rng().gen_range(0..bound)
}

/// Relies on chrono::Utc::now, read out through DateTime::timestamp:
/// the current time, in whole seconds since the Unix epoch. Nothing is
/// promised of the value — the host's clock may read anything.
#[verifier::external_body]
pub(crate) fn now_timestamp() -> i64 {
    chrono::Utc::now().timestamp()
}

/// A freshly drawn session secret. Its value is random; nothing is
/// stated of it beyond being a decimal rendering of the draw.
pub(crate) fn fresh_session_token() -> Token {
    let drawn = random_below(i64::MAX);
    Token::new(decimal_string(drawn as u64))
}

} // verus!
