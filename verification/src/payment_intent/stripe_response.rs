//! The PaymentIntent object without its nested objects.

use vstd::prelude::*;

verus! {

/// Payment intent object from 01/08/2023
///
/// [Payment intent object](https://stripe.com/docs/api/payment_intents/create#payment_intent_object)
#[derive(Clone, Debug)]
pub struct StripeResponse {
    pub id: String,
    pub object: String,
    pub amount: u32,
    pub amount_capturable: u32,
    pub amount_received: u32,
    pub application: Option<String>,
    pub application_fee_amount: Option<u32>,
    pub canceled_at: Option<i64>,
    pub cancellation_reason: Option<String>,
    pub capture_method: String,
    pub client_secret: String,
    pub confirmation_method: String,
    pub created: i64,
    pub currency: String,
    pub customer: Option<String>,
    pub description: Option<String>,
    pub invoice: Option<String>,
    pub latest_charge: Option<String>,
    pub livemode: bool,
    pub on_behalf_of: Option<String>,
    pub payment_method: Option<String>,
    pub payment_method_types: Vec<String>,
    pub receipt_email: Option<String>,
    pub review: Option<String>,
    pub statement_descriptor: Option<String>,
    pub statement_descriptor_suffix: Option<String>,
    pub status: String,
    pub transfer_group: Option<String>,
}

} // verus!
