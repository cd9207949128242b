//! Bodies of the service's text responses.

use vstd::prelude::*;
use crate::decimal::{decimal, push_decimal};

verus! {

/// Body answered to a wait of `seconds` seconds: `Waited for {seconds} seconds`.
pub open spec fn wait_text(seconds: nat) -> Seq<char> {
    "Waited for "@ + decimal(seconds) + " seconds"@
}

/// The body answered once a wait of `seconds` seconds is over.
pub fn wait_message(seconds: u64) -> (r: String)
    ensures
        r@ == wait_text(seconds as nat),
{
    let mut r = String::from_str("Waited for ");
    push_decimal(&mut r, seconds);
    r.append(" seconds");
    r
}

} // verus!
