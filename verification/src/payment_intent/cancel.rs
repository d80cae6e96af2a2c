//! Cancels a PaymentIntent.

use vstd::prelude::*;
use crate::operation::{Operation, OperationView, Request};
use super::PAYMENT_INTENT_URL;

verus! {

#[derive(Debug)]
pub struct Info {
    /// The ID of the PaymentIntent.
    pub id: String,
}

impl Info {
    /// The request to make to Stripe's API.
    ///
    /// # Arguments
    ///
    /// * `secret` - Stripe's API secret key
    pub fn send(&self, secret: &str) -> (request: Request)
        ensures
            request@ == OperationView::Cancel(self.id@).materialize(PAYMENT_INTENT_URL@, secret@),
    {
        Operation::Cancel(self.id.clone()).materialize(PAYMENT_INTENT_URL, secret)
    }
}

} // verus!
