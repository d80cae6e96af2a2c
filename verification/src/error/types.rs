//! Wire strings of the error types, one constant per type.
//!
//! [Official Stripe error types list](https://stripe.com/docs/api/errors)

use vstd::prelude::*;

verus! {

pub const API_ERROR: &'static str = "api_error";

pub const CARD_ERROR: &'static str = "card_error";

pub const IDEMPOTENCY_ERROR: &'static str = "idempotency_error";

pub const INVALID_REQUEST_ERROR: &'static str = "invalid_request_error";

} // verus!
