//! The resources of the API: where each one lives, and which operations it
//! knows.

use vstd::prelude::*;
use crate::balance_transaction::BALANCE_TRANSACTION_URL;
use crate::dispute::DISPUTE_URL;
use crate::helper::{prepare, ClientError};
use crate::mandate::MANDATE_URL;
use crate::operation::{EntryPoint, Operation, OperationView, Request};
use crate::payment_intent::PAYMENT_INTENT_URL;
use crate::payout::PAYOUT_URL;
use crate::refund::REFUND_URL;

verus! {

/// A kind of object that the API keeps in a collection.
#[derive(Clone, Copy, Debug, PartialEq, Eq, Structural)]
pub enum Resource {
    BalanceTransaction,
    Dispute,
    Mandate,
    PaymentIntent,
    Payout,
    Refund,
}

impl Resource {
    /// The address of the resource's collection.
    pub open spec fn spec_base_url(&self) -> Seq<char> {
        match self {
            Resource::BalanceTransaction => BALANCE_TRANSACTION_URL@,
            Resource::Dispute => DISPUTE_URL@,
            Resource::Mandate => MANDATE_URL@,
            Resource::PaymentIntent => PAYMENT_INTENT_URL@,
            Resource::Payout => PAYOUT_URL@,
            Resource::Refund => REFUND_URL@,
        }
    }

    /// Whether the resource knows an operation.
    pub open spec fn spec_supports(&self, operation: OperationView) -> bool {
        match self {
            Resource::BalanceTransaction => operation is Retrieve || operation is List,
            Resource::Dispute => {
                ||| operation is Retrieve
                ||| operation is Update
                ||| operation is Close
                ||| operation is List
            },
            Resource::Mandate => operation is Retrieve,
            Resource::PaymentIntent => {
                ||| operation is Create
                ||| operation is Retrieve
                ||| operation is Confirm
                ||| operation is Cancel
                ||| operation is Update
                ||| operation is Capture
                ||| operation is List
            },
            Resource::Payout | Resource::Refund => {
                ||| operation is Create
                ||| operation is Retrieve
                ||| operation is Update
                ||| operation is List
                ||| operation is Cancel
                ||| operation is Reverse
            },
        }
    }

    /// The address of the resource's collection.
    pub fn base_url(&self) -> (url: &'static str)
        ensures
            url@ == self.spec_base_url(),
    {
        match self {
            Resource::BalanceTransaction => BALANCE_TRANSACTION_URL,
            Resource::Dispute => DISPUTE_URL,
            Resource::Mandate => MANDATE_URL,
            Resource::PaymentIntent => PAYMENT_INTENT_URL,
            Resource::Payout => PAYOUT_URL,
            Resource::Refund => REFUND_URL,
        }
    }

    /// Whether the resource knows an operation.
    pub fn supports(&self, operation: &Operation) -> (known: bool)
        ensures
            known == self.spec_supports(operation@),
    {
        match self {
            Resource::BalanceTransaction => match operation {
                Operation::Retrieve(_) | Operation::List(_) => true,
                _ => false,
            },
            Resource::Dispute => match operation {
                Operation::Retrieve(_)
                | Operation::Update(_, _)
                | Operation::Close(_)
                | Operation::List(_) => true,
                _ => false,
            },
            Resource::Mandate => match operation {
                Operation::Retrieve(_) => true,
                _ => false,
            },
            Resource::PaymentIntent => match operation {
                Operation::Reverse(_, _) | Operation::Close(_) => false,
                _ => true,
            },
            Resource::Payout | Resource::Refund => match operation {
                Operation::Confirm(_, _) | Operation::Capture(_) | Operation::Close(_) => false,
                _ => true,
            },
        }
    }

    /// The request of a call on this resource, or its refusal: the request
    /// is made where the resource knows the operation and the entry point
    /// serves it, and is refused in every other case, before anything is
    /// sent.
    pub fn request(&self, entry: EntryPoint, operation: &Operation, secret: &str) -> (prepared:
        Result<Request, ClientError>)
        ensures
            match prepared {
                Ok(request) => {
                    &&& self.spec_supports(operation@)
                    &&& operation@.served_by(entry)
                    &&& request@ == operation@.materialize(self.spec_base_url(), secret@)
                },
                Err(error) => {
                    &&& !(self.spec_supports(operation@) && operation@.served_by(entry))
                    &&& error is Incompatible
                },
            },
    {
        if self.supports(operation) {
            prepare(entry, operation, self.base_url(), secret)
        } else {
            Err(ClientError::Incompatible)
        }
    }
}

} // verus!
