//! Requests on refunds, and what the API answers them with.

pub mod response;
pub mod response_list;

pub use response::Response;
pub use response_list::ResponseList;

use vstd::prelude::*;
use crate::helper::ClientError;
use crate::operation::{EntryPoint, Method, Operation, OperationView, Request};
use crate::resource::Resource;

verus! {

/// Where the refunds live.
pub const REFUND_URL: &'static str = "https://api.stripe.com/v1/refunds";

/// The requests that can be made on refunds.
#[derive(Debug)]
pub enum Types {
    CREATE(String),
    RETRIEVE(String),
    UPDATE(String, String),
    LIST(String),
    CANCEL(String),
    REVERSE(String, String),
}

impl Types {
    /// The operation that a request stands for.
    pub open spec fn spec_operation(&self) -> OperationView {
        match self {
            Types::CREATE(body) => OperationView::Create(body@),
            Types::RETRIEVE(id) => OperationView::Retrieve(id@),
            Types::UPDATE(id, body) => OperationView::Update(id@, body@),
            Types::LIST(body) => OperationView::List(body@),
            Types::CANCEL(id) => OperationView::Cancel(id@),
            Types::REVERSE(id, body) => OperationView::Reverse(id@, body@),
        }
    }

    /// The operation that a request stands for.
    pub fn operation(&self) -> (operation: Operation)
        ensures
            operation@ == self.spec_operation(),
            Resource::Refund.spec_supports(operation@),
    {
        match self {
            Types::CREATE(body) => Operation::Create(body.clone()),
            Types::RETRIEVE(id) => Operation::Retrieve(id.clone()),
            Types::UPDATE(id, body) => Operation::Update(id.clone(), body.clone()),
            Types::LIST(body) => Operation::List(body.clone()),
            Types::CANCEL(id) => Operation::Cancel(id.clone()),
            Types::REVERSE(id, body) => Operation::Reverse(id.clone(), body.clone()),
        }
    }

    /// The "POST" request of an operation that changes something; to
    /// retrieve and to list are refused.
    pub fn create_send_request(&self, secret: &str) -> (prepared: Result<Request, ClientError>)
        ensures
            match prepared {
                Ok(request) => {
                    &&& self.spec_operation().served_by(EntryPoint::Send)
                    &&& request@ == self.spec_operation().materialize(REFUND_URL@, secret@)
                },
                Err(error) => {
                    &&& !self.spec_operation().served_by(EntryPoint::Send)
                    &&& error is Incompatible
                },
            },
    {
        Resource::Refund.request(EntryPoint::Send, &self.operation(), secret)
    }

    /// The "GET" request of an operation that retrieves or lists; every
    /// other operation is refused.
    pub fn create_get_request(&self, secret: &str) -> (prepared: Result<Request, ClientError>)
        ensures
            match prepared {
                Ok(request) => {
                    &&& self.spec_operation().method() == Method::Get
                    &&& request@ == self.spec_operation().materialize(REFUND_URL@, secret@)
                },
                Err(error) => {
                    &&& self.spec_operation().method() == Method::Post
                    &&& error is Incompatible
                },
            },
    {
        let operation = self.operation();
        let entry = match operation {
            Operation::List(_) => EntryPoint::GetList,
            _ => EntryPoint::Get,
        };
        Resource::Refund.request(entry, &operation, secret)
    }

    /// The address that the request goes to.
    pub fn _get_url(&self) -> (url: String)
        ensures
            url@ == self.spec_operation().url(REFUND_URL@),
    {
        self.operation().url(REFUND_URL)
    }

    /// The body that the request carries: its payload where that is not
    /// empty, and none where it is.
    pub fn _get_body(&self) -> (body: Option<String>)
        ensures
            match body {
                Some(text) => self.spec_operation().body() == Some(text@),
                None => self.spec_operation().body() is None,
            },
    {
        self.operation().body()
    }
}

/// This structure contains all the data for a request to Stripe's API.
#[derive(Debug)]
pub struct Info {
    /// The type of request to Stripe.
    pub kind: Types,
    /// Stripe's API secret key.
    pub secret_key: String,
}

impl Info {
    /// The request that a "POST" call sends to Stripe's API, for one object
    /// in answer. To retrieve and to list are refused: they go by "GET".
    pub fn send(&self) -> (prepared: Result<Request, ClientError>)
        ensures
            match prepared {
                Ok(request) => {
                    &&& self.kind.spec_operation().served_by(EntryPoint::Send)
                    &&& request@ == self.kind.spec_operation().materialize(
                        REFUND_URL@,
                        self.secret_key@,
                    )
                },
                Err(error) => {
                    &&& !self.kind.spec_operation().served_by(EntryPoint::Send)
                    &&& error is Incompatible
                },
            },
    {
        Resource::Refund.request(
            EntryPoint::Send,
            &self.kind.operation(),
            self.secret_key.as_str(),
        )
    }

    /// The request that a "GET" call sends to Stripe's API, for one object
    /// or a list of them in answer. To retrieve and to list go this way;
    /// all else is refused.
    pub fn get(&self) -> (prepared: Result<Request, ClientError>)
        ensures
            match prepared {
                Ok(request) => {
                    &&& self.kind.spec_operation().method() == Method::Get
                    &&& request@ == self.kind.spec_operation().materialize(
                        REFUND_URL@,
                        self.secret_key@,
                    )
                },
                Err(error) => {
                    &&& self.kind.spec_operation().method() == Method::Post
                    &&& error is Incompatible
                },
            },
    {
        self.kind.create_get_request(self.secret_key.as_str())
    }
}

} // verus!
