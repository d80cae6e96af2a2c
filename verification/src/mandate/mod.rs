//! The request for a mandate, and what the API answers it with.

pub mod customer_acceptance;
pub mod payment_method_details;
pub mod response;

pub use customer_acceptance::{
    CustomerAcceptanceOffline,
    CustomerAcceptanceOnline,
    CustomerAcceptance,
};
pub use payment_method_details::{
    PaymentMethodDetailsAcssDebit,
    PaymentMethodDetailsAuBecsDebit,
    PaymentMethodDetailsBacsDebit,
    PaymentMethodDetailsBlikOffSession,
    PaymentMethodDetailsBlik,
    PaymentMethodDetailsCard,
    PaymentMethodDetailsLink,
    PaymentMethodDetailsSepaDebit,
    PaymentMethodDetailsUsBankAccount,
    PaymentMethodDetails,
};
pub use response::{
    MultiUse,
    SingleUse,
    Response,
};

use vstd::prelude::*;
use crate::operation::{Operation, OperationView, Request};

verus! {

/// Where the mandates live.
pub const MANDATE_URL: &'static str = "https://api.stripe.com/v1/mandates";

/// This structure contains all the data for a request to Stripe's API.
#[derive(Debug)]
pub struct Info {
    /// Stripe's API secret key.
    pub secret_key: String,
    /// The unique ID of the mandate.
    pub id: String,
}

impl Info {
    /// The request that a "GET" call sends to Stripe's API: it retrieves
    /// the mandate.
    pub fn get(&self) -> (request: Request)
        ensures
            request@ == OperationView::Retrieve(self.id@).materialize(
                MANDATE_URL@,
                self.secret_key@,
            ),
    {
        Operation::Retrieve(self.id.clone()).materialize(MANDATE_URL, self.secret_key.as_str())
    }
}

} // verus!
