//! Requests on balance transactions, and what the API answers them with.

pub mod response_list;

pub use response_list::ResponseList;

use vstd::prelude::*;
use crate::helper::ClientError;
use crate::operation::{EntryPoint, Method, Operation, OperationView, Request};
use crate::resource::Resource;

verus! {

/// Where the balance transactions live.
pub const BALANCE_TRANSACTION_URL: &'static str = "https://api.stripe.com/v1/balance_transactions";

/// The requests that can be made on balance transactions.
#[derive(Debug)]
pub enum Types {
    RETRIEVE(String),
    LIST(String),
}

impl Types {
    /// The operation that a request stands for.
    pub open spec fn spec_operation(&self) -> OperationView {
        match self {
            Types::RETRIEVE(id) => OperationView::Retrieve(id@),
            Types::LIST(body) => OperationView::List(body@),
        }
    }

    /// The operation that a request stands for.
    pub fn operation(&self) -> (operation: Operation)
        ensures
            operation@ == self.spec_operation(),
            Resource::BalanceTransaction.spec_supports(operation@),
    {
        match self {
            Types::RETRIEVE(id) => Operation::Retrieve(id.clone()),
            Types::LIST(body) => Operation::List(body.clone()),
        }
    }

    /// The "GET" request of an operation that retrieves or lists; every
    /// other operation is refused.
    pub fn create_get_request(&self, secret: &str) -> (prepared: Result<Request, ClientError>)
        ensures
            match prepared {
                Ok(request) => {
                    &&& self.spec_operation().method() == Method::Get
                    &&& request@ == self.spec_operation().materialize(BALANCE_TRANSACTION_URL@, secret@)
                },
                Err(error) => {
                    &&& self.spec_operation().method() == Method::Post
                    &&& error is Incompatible
                },
            },
    {
        let operation = self.operation();
        let entry = match operation {
            Operation::List(_) => EntryPoint::GetList,
            _ => EntryPoint::Get,
        };
        Resource::BalanceTransaction.request(entry, &operation, secret)
    }

    /// The address that the request goes to.
    pub fn _get_url(&self) -> (url: String)
        ensures
            url@ == self.spec_operation().url(BALANCE_TRANSACTION_URL@),
    {
        self.operation().url(BALANCE_TRANSACTION_URL)
    }

    /// The body that the request carries: its payload where that is not
    /// empty, and none where it is.
    pub fn _get_body(&self) -> (body: Option<String>)
        ensures
            match body {
                Some(text) => self.spec_operation().body() == Some(text@),
                None => self.spec_operation().body() is None,
            },
    {
        self.operation().body()
    }
}

/// This structure contains all the data for a request to Stripe's API.
#[derive(Debug)]
pub struct Info {
    /// The type of request to Stripe.
    pub kind: Types,
    /// Stripe's API secret key.
    pub secret_key: String,
}

impl Info {
    /// The request that a "GET" call sends to Stripe's API, for one object
    /// in answer. Only to retrieve goes this way; all else is refused.
    pub fn get(&self) -> (prepared: Result<Request, ClientError>)
        ensures
            match prepared {
                Ok(request) => {
                    &&& self.kind.spec_operation().served_by(EntryPoint::Get)
                    &&& request@ == self.kind.spec_operation().materialize(
                        BALANCE_TRANSACTION_URL@,
                        self.secret_key@,
                    )
                },
                Err(error) => {
                    &&& !self.kind.spec_operation().served_by(EntryPoint::Get)
                    &&& error is Incompatible
                },
            },
    {
        Resource::BalanceTransaction.request(
            EntryPoint::Get,
            &self.kind.operation(),
            self.secret_key.as_str(),
        )
    }

    /// The request that a "GET" call sends to Stripe's API, for a list of
    /// objects in answer. Only to list goes this way; all else is refused.
    pub fn get_list(&self) -> (prepared: Result<Request, ClientError>)
        ensures
            match prepared {
                Ok(request) => {
                    &&& self.kind.spec_operation().served_by(EntryPoint::GetList)
                    &&& request@ == self.kind.spec_operation().materialize(
                        BALANCE_TRANSACTION_URL@,
                        self.secret_key@,
                    )
                },
                Err(error) => {
                    &&& !self.kind.spec_operation().served_by(EntryPoint::GetList)
                    &&& error is Incompatible
                },
            },
    {
        Resource::BalanceTransaction.request(
            EntryPoint::GetList,
            &self.kind.operation(),
            self.secret_key.as_str(),
        )
    }
}

} // verus!
