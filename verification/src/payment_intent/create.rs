//! Creates a PaymentIntent.

use vstd::prelude::*;
use crate::operation::{Operation, OperationView, Request};
use super::PAYMENT_INTENT_URL;

verus! {

#[derive(Debug)]
pub struct Info {
    /// All [Parameters](https://stripe.com/docs/api/payment_intents/create#create_payment_intent-parameters).
    pub body: String,
}

impl Info {
    /// The request to make to Stripe's API.
    ///
    /// # Arguments
    ///
    /// * `secret` - Stripe's API secret key
    pub fn go(&self, secret: &str) -> (request: Request)
        ensures
            request@ == OperationView::Create(self.body@).materialize(PAYMENT_INTENT_URL@, secret@),
    {
        Operation::Create(self.body.clone()).materialize(PAYMENT_INTENT_URL, secret)
    }
}

} // verus!
