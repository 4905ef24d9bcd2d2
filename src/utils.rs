//! Helpers around the clock.
use vstd::prelude::*;

use crate::text::{decimal, push_decimal};
use crate::timer::unix_timestamp;

verus! {

/// The decimal numeral of a number of milliseconds.
pub fn millis_text(ms: u128) -> (r: String)
    ensures
        r@ == decimal(ms as nat),
{
    let mut s = String::new();
    push_decimal(&mut s, ms);
    assert(s@ =~= decimal(ms as nat));
    s
}

/// Milliseconds since the unix epoch as a decimal numeral, or `None` where
/// the system clock is set before the epoch.
pub fn unix_time() -> (r: Option<String>)
    ensures
        r is Some ==> exists|ms: u128| r->0@ == decimal(ms as nat),
{
    match unix_timestamp() {
        Some(ms) => Some(millis_text(ms)),
        None => None,
    }
}

} // verus!
