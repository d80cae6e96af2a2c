//! Names of the members that an error response is read by.

use vstd::prelude::*;

verus! {

/// The member that holds the error, where the response wraps it.
pub const ERROR: &'static str = "error";

pub const TYPE: &'static str = "type";

pub const CODE: &'static str = "code";

pub const MESSAGE: &'static str = "message";

pub const PARAM: &'static str = "param";

/// The member that holds the PaymentIntent that a failed request involved.
pub const PAYMENT_INTENT: &'static str = "payment_intent";

} // verus!
