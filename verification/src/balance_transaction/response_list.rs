//! A list of balance transactions.

use vstd::prelude::*;

verus! {

/// Returns a list of transactions that have contributed to the Stripe account balance (e.g., charges, transfers, and so forth).
///
/// `T` is the record that a balance transaction is read as.
#[derive(Clone, Debug)]
pub struct ResponseList<T> {
    /// String representing the object's type.
    /// Objects of the same type share the same value.
    pub object: String,
    /// The end of the requested URL of the API.
    pub url: String,
    /// If more than the data received now exists `true` otherwise `false`.
    pub has_more: bool,
    /// All received data.
    pub data: Vec<T>,
}

} // verus!
