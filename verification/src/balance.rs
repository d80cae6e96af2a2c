//! The request for the balance of the account.

use vstd::prelude::*;
use crate::operation::{Method, Request, RequestView, FORM_URLENCODED};

verus! {

/// Where the balance lives.
pub const BALANCE_URL: &'static str = "https://api.stripe.com/v1/balance";

/// This structure contains all the data for a request to Stripe's API.
#[derive(Debug)]
pub struct Info {
    /// Stripe's API secret key.
    pub secret_key: String,
}

impl Info {
    /// The request that a "GET" call sends to Stripe's API: it has no body.
    pub fn get(&self) -> (request: Request)
        ensures
            request@ == (RequestView {
                method: Method::Get,
                url: BALANCE_URL@,
                username: self.secret_key@,
                content_type: FORM_URLENCODED@,
                body: None,
            }),
    {
        Request {
            method: Method::Get,
            url: BALANCE_URL.to_owned(),
            username: self.secret_key.clone(),
            content_type: FORM_URLENCODED.to_owned(),
            body: None,
        }
    }
}

} // verus!
