//! What a call asks of the API, and the HTTP request that it becomes.

use vstd::prelude::*;
use vstd::string::StringExecFns;

verus! {

/// Between the address of a collection and the ID of one of its objects.
pub const SEPARATOR: &'static str = "/";

/// What follows the ID where a PaymentIntent is confirmed.
pub const CONFIRM: &'static str = "/confirm";

/// What follows the ID where a PaymentIntent is captured.
pub const CAPTURE: &'static str = "/capture";

/// What follows the ID where a dispute is closed.
pub const CLOSE: &'static str = "/close";

/// The content type of every request, with or without a body.
pub const FORM_URLENCODED: &'static str = "application/x-www-form-urlencoded";

/// The HTTP verb of a request.
#[derive(Clone, Copy, Debug, PartialEq, Eq, Structural)]
pub enum Method {
    Get,
    Post,
}

/// The three ways in which a call is made: each one decodes what comes
/// back in its own way, and serves only the operations that fit it.
#[derive(Clone, Copy, Debug, PartialEq, Eq, Structural)]
pub enum EntryPoint {
    /// Sends a "POST" request and reads one object.
    Send,
    /// Sends a "GET" request and reads one object.
    Get,
    /// Sends a "GET" request and reads a list of objects.
    GetList,
}

/// One action on one kind of resource, with the ID and the payload that it
/// needs. A payload is a form string that the caller has encoded.
#[derive(Debug)]
pub enum Operation {
    Create(String),
    Retrieve(String),
    Update(String, String),
    List(String),
    Cancel(String),
    Reverse(String, String),
    Confirm(String, String),
    Capture(String),
    Close(String),
}

/// An [`Operation`] as a mathematical value.
pub enum OperationView {
    Create(Seq<char>),
    Retrieve(Seq<char>),
    Update(Seq<char>, Seq<char>),
    List(Seq<char>),
    Cancel(Seq<char>),
    Reverse(Seq<char>, Seq<char>),
    Confirm(Seq<char>, Seq<char>),
    Capture(Seq<char>),
    Close(Seq<char>),
}

impl View for Operation {
    type V = OperationView;

    open spec fn view(&self) -> OperationView {
        match self {
            Operation::Create(body) => OperationView::Create(body@),
            Operation::Retrieve(id) => OperationView::Retrieve(id@),
            Operation::Update(id, body) => OperationView::Update(id@, body@),
            Operation::List(query) => OperationView::List(query@),
            Operation::Cancel(id) => OperationView::Cancel(id@),
            Operation::Reverse(id, body) => OperationView::Reverse(id@, body@),
            Operation::Confirm(id, body) => OperationView::Confirm(id@, body@),
            Operation::Capture(id) => OperationView::Capture(id@),
            Operation::Close(id) => OperationView::Close(id@),
        }
    }
}

impl OperationView {
    /// The verb: `GET` to retrieve and to list, `POST` for everything else.
    pub open spec fn method(self) -> Method {
        match self {
            OperationView::Retrieve(_) | OperationView::List(_) => Method::Get,
            _ => Method::Post,
        }
    }

    /// The address, given that of the resource's collection.
    pub open spec fn url(self, base: Seq<char>) -> Seq<char> {
        match self {
            OperationView::Create(_) | OperationView::List(_) => base,
            OperationView::Retrieve(id)
            | OperationView::Update(id, _)
            | OperationView::Cancel(id)
            | OperationView::Reverse(id, _) => base + SEPARATOR@ + id,
            OperationView::Confirm(id, _) => base + SEPARATOR@ + id + CONFIRM@,
            OperationView::Capture(id) => base + SEPARATOR@ + id + CAPTURE@,
            OperationView::Close(id) => base + SEPARATOR@ + id + CLOSE@,
        }
    }

    /// The payload that the operation carries; the empty string where its
    /// kind carries none.
    pub open spec fn payload(self) -> Seq<char> {
        match self {
            OperationView::Create(body)
            | OperationView::Update(_, body)
            | OperationView::Reverse(_, body)
            | OperationView::Confirm(_, body) => body,
            OperationView::List(query) => query,
            _ => Seq::empty(),
        }
    }

    /// The body of the request: the payload where that is not empty, and
    /// no body at all, rather than an empty one, where it is.
    pub open spec fn body(self) -> Option<Seq<char>> {
        if self.payload().len() == 0 {
            None
        } else {
            Some(self.payload())
        }
    }

    /// Whether an entry point serves the operation: `get` retrieves,
    /// `get_list` lists, and `send` does all the rest.
    pub open spec fn served_by(self, entry: EntryPoint) -> bool {
        match entry {
            EntryPoint::Send => !(self is Retrieve) && !(self is List),
            EntryPoint::Get => self is Retrieve,
            EntryPoint::GetList => self is List,
        }
    }

    /// The request that the operation becomes.
    pub open spec fn materialize(self, base: Seq<char>, secret: Seq<char>) -> RequestView {
        RequestView {
            method: self.method(),
            url: self.url(base),
            username: secret,
            content_type: FORM_URLENCODED@,
            body: self.body(),
        }
    }
}

/// An HTTP request, ready to be handed to a transport.
///
/// It authenticates by HTTP Basic, with `username` as the user name and
/// without a password.
#[derive(Debug)]
pub struct Request {
    pub method: Method,
    pub url: String,
    /// The user name of HTTP Basic authentication: the secret key.
    pub username: String,
    /// The value of the `Content-Type` header.
    pub content_type: String,
    pub body: Option<String>,
}

/// A [`Request`] as a mathematical value.
pub struct RequestView {
    pub method: Method,
    pub url: Seq<char>,
    pub username: Seq<char>,
    pub content_type: Seq<char>,
    pub body: Option<Seq<char>>,
}

impl View for Request {
    type V = RequestView;

    open spec fn view(&self) -> RequestView {
        RequestView {
            method: self.method,
            url: self.url@,
            username: self.username@,
            content_type: self.content_type@,
            body: match self.body {
                Some(body) => Some(body@),
                None => None,
            },
        }
    }
}

impl Operation {
    /// The verb: `GET` to retrieve and to list, `POST` for everything else.
    pub fn method(&self) -> (method: Method)
        ensures
            method == self@.method(),
    {
        match self {
            Operation::Retrieve(_) | Operation::List(_) => Method::Get,
            _ => Method::Post,
        }
    }

    /// The address, given that of the resource's collection.
    pub fn url(&self, base: &str) -> (url: String)
        ensures
            url@ == self@.url(base@),
    {
        let mut url = base.to_owned();
        match self {
            Operation::Create(_) | Operation::List(_) => {},
            Operation::Retrieve(id)
            | Operation::Update(id, _)
            | Operation::Cancel(id)
            | Operation::Reverse(id, _) => {
                url.append(SEPARATOR);
                url.append(id.as_str());
            },
            Operation::Confirm(id, _) => {
                url.append(SEPARATOR);
                url.append(id.as_str());
                url.append(CONFIRM);
            },
            Operation::Capture(id) => {
                url.append(SEPARATOR);
                url.append(id.as_str());
                url.append(CAPTURE);
            },
            Operation::Close(id) => {
                url.append(SEPARATOR);
                url.append(id.as_str());
                url.append(CLOSE);
            },
        }
        url
    }

    /// The body of the request: the payload where that is not empty, and
    /// no body at all, rather than an empty one, where it is.
    pub fn body(&self) -> (body: Option<String>)
        ensures
            match body {
                Some(text) => self@.body() == Some(text@),
                None => self@.body() is None,
            },
            self@.payload().len() == 0 <==> body is None,
            body matches Some(text) ==> text@ == self@.payload(),
    {
        match self {
            Operation::Create(body)
            | Operation::Update(_, body)
            | Operation::Reverse(_, body)
            | Operation::Confirm(_, body) => Operation::attach(body),
            Operation::List(query) => Operation::attach(query),
            _ => None,
        }
    }

    /// A payload as a body: none where the payload is empty.
    fn attach(payload: &String) -> (body: Option<String>)
        ensures
            match body {
                Some(text) => payload@.len() != 0 && text@ == payload@,
                None => payload@.len() == 0,
            },
    {
        if payload.as_str().is_empty() {
            None
        } else {
            Some(payload.clone())
        }
    }

    /// Whether an entry point serves the operation.
    pub fn served_by(&self, entry: EntryPoint) -> (served: bool)
        ensures
            served == self@.served_by(entry),
    {
        match entry {
            EntryPoint::Send => match self {
                Operation::Retrieve(_) | Operation::List(_) => false,
                _ => true,
            },
            EntryPoint::Get => match self {
                Operation::Retrieve(_) => true,
                _ => false,
            },
            EntryPoint::GetList => match self {
                Operation::List(_) => true,
                _ => false,
            },
        }
    }

    /// The request that the operation becomes, given the address of the
    /// resource's collection and the secret key.
    pub fn materialize(&self, base: &str, secret: &str) -> (request: Request)
        ensures
            request@ == self@.materialize(base@, secret@),
    {
        Request {
            method: self.method(),
            url: self.url(base),
            username: secret.to_owned(),
            content_type: FORM_URLENCODED.to_owned(),
            body: self.body(),
        }
    }

    /// The same operation, the same address and the same key give the same
    /// request.
    pub proof fn lemma_materialize_deterministic(
        a: Operation,
        b: Operation,
        base: Seq<char>,
        secret: Seq<char>,
    )
        requires
            a@ == b@,
        ensures
            a@.materialize(base, secret) == b@.materialize(base, secret),
    {
    }

    /// An operation that lists is a `GET` of the collection's address; it
    /// has the query for its body, and no body where the query is empty.
    pub proof fn lemma_list_request(query: Seq<char>, base: Seq<char>, secret: Seq<char>)
        ensures
            OperationView::List(query).materialize(base, secret).method == Method::Get,
            OperationView::List(query).materialize(base, secret).url == base,
            query.len() == 0 ==> OperationView::List(query).materialize(base, secret).body
                is None,
            query.len() != 0 ==> OperationView::List(query).materialize(base, secret).body
                == Some(query),
    {
    }
}

} // verus!
