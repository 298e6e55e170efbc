//! Conversion between a fixed, small set of currencies at hardcoded rates.
//!
//! Only four ordered pairs are supported (USD to EUR and back, USD to GBP
//! and back); every other pair, including the identity pair, is unsupported.

use vstd::prelude::*;
use crate::text::str_eq;

verus! {

/// One hundred times the conversion rate for the ordered pair
/// `(from, to)`, or `None` when the pair is unsupported.
pub open spec fn rate_times_100(from: Seq<char>, to: Seq<char>) -> Option<int> {
    if from == "USD"@ && to == "EUR"@ {
        Some(85)
    } else if from == "EUR"@ && to == "USD"@ {
        Some(118)
    } else if from == "USD"@ && to == "GBP"@ {
        Some(73)
    } else if from == "GBP"@ && to == "USD"@ {
        Some(137)
    } else {
        None
    }
}

/// The largest amount every supported rate can scale without overflow.
pub open spec fn max_amount() -> int {
    u64::MAX as int / 137
}

/// Converts `amount` (in minor units) from currency `from` to currency `to`
/// at the fixed table of rates. Returns `None` exactly when the ordered pair
/// is not in the table.
pub fn convert_currency(amount: u64, from: &str, to: &str) -> (r: Option<u64>)
    requires
        amount <= max_amount(),
    ensures
        match rate_times_100(from@, to@) {
            Some(rate) => r matches Some(v) && v == amount * rate / 100,
            None => r is None,
        },
{
    let scaled: Option<u64> = if str_eq(from, "USD") && str_eq(to, "EUR") {
        Some(amount * 85)
    } else if str_eq(from, "EUR") && str_eq(to, "USD") {
        Some(amount * 118)
    } else if str_eq(from, "USD") && str_eq(to, "GBP") {
        Some(amount * 73)
    } else if str_eq(from, "GBP") && str_eq(to, "USD") {
        Some(amount * 137)
    } else {
        None
    };
    match scaled {
        Some(s) => Some(s / 100),
        None => None,
    }
}

} // verus!
