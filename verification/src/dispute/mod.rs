//! Requests on disputes, and what the API answers them with.

pub mod balance_transaction;
pub mod evidence;
pub mod response;
pub mod response_list;

pub use balance_transaction::{
    BalanceTransactionFeeDetails,
    BalanceTransaction,
};
pub use evidence::{
    EvidenceDetails,
    Evidence,
};
pub use response::Response;
pub use response_list::ResponseList;

use vstd::prelude::*;
use crate::helper::ClientError;
use crate::operation::{EntryPoint, Method, Operation, OperationView, Request};
use crate::resource::Resource;

verus! {

/// Where the disputes live.
pub const DISPUTE_URL: &'static str = "https://api.stripe.com/v1/disputes";

/// The requests that can be made on disputes.
#[derive(Debug)]
pub enum Types {
    RETRIEVE(String),
    UPDATE(String, String),
    CLOSE(String),
    LIST(String),
}

impl Types {
    /// The operation that a request stands for.
    pub open spec fn spec_operation(&self) -> OperationView {
        match self {
            Types::RETRIEVE(id) => OperationView::Retrieve(id@),
            Types::UPDATE(id, body) => OperationView::Update(id@, body@),
            Types::CLOSE(id) => OperationView::Close(id@),
            Types::LIST(body) => OperationView::List(body@),
        }
    }

    /// The operation that a request stands for.
    pub fn operation(&self) -> (operation: Operation)
        ensures
            operation@ == self.spec_operation(),
            Resource::Dispute.spec_supports(operation@),
    {
        match self {
            Types::RETRIEVE(id) => Operation::Retrieve(id.clone()),
            Types::UPDATE(id, body) => Operation::Update(id.clone(), body.clone()),
            Types::CLOSE(id) => Operation::Close(id.clone()),
            Types::LIST(body) => Operation::List(body.clone()),
        }
    }

    /// The "POST" request of an operation that changes something; to
    /// retrieve and to list are refused.
    pub fn create_send_request(&self, secret: &str) -> (prepared: Result<Request, ClientError>)
        ensures
            match prepared {
                Ok(request) => {
                    &&& self.spec_operation().served_by(EntryPoint::Send)
                    &&& request@ == self.spec_operation().materialize(DISPUTE_URL@, secret@)
                },
                Err(error) => {
                    &&& !self.spec_operation().served_by(EntryPoint::Send)
                    &&& error is Incompatible
                },
            },
    {
        Resource::Dispute.request(EntryPoint::Send, &self.operation(), secret)
    }

    /// The "GET" request of an operation that retrieves or lists; every
    /// other operation is refused.
    pub fn create_get_request(&self, secret: &str) -> (prepared: Result<Request, ClientError>)
        ensures
            match prepared {
                Ok(request) => {
                    &&& self.spec_operation().method() == Method::Get
                    &&& request@ == self.spec_operation().materialize(DISPUTE_URL@, secret@)
                },
                Err(error) => {
                    &&& self.spec_operation().method() == Method::Post
                    &&& error is Incompatible
                },
            },
    {
        let operation = self.operation();
        let entry = match operation {
            Operation::List(_) => EntryPoint::GetList,
            _ => EntryPoint::Get,
        };
        Resource::Dispute.request(entry, &operation, secret)
    }

    /// The address that the request goes to.
    pub fn _get_url(&self) -> (url: String)
        ensures
            url@ == self.spec_operation().url(DISPUTE_URL@),
    {
        self.operation().url(DISPUTE_URL)
    }

    /// The body that the request carries: its payload where that is not
    /// empty, and none where it is.
    pub fn _get_body(&self) -> (body: Option<String>)
        ensures
            match body {
                Some(text) => self.spec_operation().body() == Some(text@),
                None => self.spec_operation().body() is None,
            },
    {
        self.operation().body()
    }
}

/// This structure contains all the data for a request to Stripe's API.
#[derive(Debug)]
pub struct Info {
    /// The type of request to Stripe.
    pub kind: Types,
    /// Stripe's API secret key.
    pub secret_key: String,
}

impl Info {
    /// The request that a "POST" call sends to Stripe's API, for one object
    /// in answer. To retrieve and to list are refused: they go by "GET".
    pub fn send(&self) -> (prepared: Result<Request, ClientError>)
        ensures
            match prepared {
                Ok(request) => {
                    &&& self.kind.spec_operation().served_by(EntryPoint::Send)
                    &&& request@ == self.kind.spec_operation().materialize(
                        DISPUTE_URL@,
                        self.secret_key@,
                    )
                },
                Err(error) => {
                    &&& !self.kind.spec_operation().served_by(EntryPoint::Send)
                    &&& error is Incompatible
                },
            },
    {
        Resource::Dispute.request(
            EntryPoint::Send,
            &self.kind.operation(),
            self.secret_key.as_str(),
        )
    }

    /// The request that a "GET" call sends to Stripe's API, for one object
    /// in answer. Only to retrieve goes this way; all else is refused.
    pub fn get(&self) -> (prepared: Result<Request, ClientError>)
        ensures
            match prepared {
                Ok(request) => {
                    &&& self.kind.spec_operation().served_by(EntryPoint::Get)
                    &&& request@ == self.kind.spec_operation().materialize(
                        DISPUTE_URL@,
                        self.secret_key@,
                    )
                },
                Err(error) => {
                    &&& !self.kind.spec_operation().served_by(EntryPoint::Get)
                    &&& error is Incompatible
                },
            },
    {
        Resource::Dispute.request(
            EntryPoint::Get,
            &self.kind.operation(),
            self.secret_key.as_str(),
        )
    }

    /// The request that a "GET" call sends to Stripe's API, for a list of
    /// objects in answer. Only to list goes this way; all else is refused.
    pub fn get_list(&self) -> (prepared: Result<Request, ClientError>)
        ensures
            match prepared {
                Ok(request) => {
                    &&& self.kind.spec_operation().served_by(EntryPoint::GetList)
                    &&& request@ == self.kind.spec_operation().materialize(
                        DISPUTE_URL@,
                        self.secret_key@,
                    )
                },
                Err(error) => {
                    &&& !self.kind.spec_operation().served_by(EntryPoint::GetList)
                    &&& error is Incompatible
                },
            },
    {
        Resource::Dispute.request(
            EntryPoint::GetList,
            &self.kind.operation(),
            self.secret_key.as_str(),
        )
    }
}

} // verus!
