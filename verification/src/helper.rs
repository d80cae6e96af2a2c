//! What becomes of a request: the decisions between sending it and handing
//! the caller an object or an error. Sending and reading are the caller's
//! part; every decision in between is taken here.

use vstd::prelude::*;
use crate::error::Info;
use crate::json::{json_parse, parse, Json, JsonValue};
use crate::operation::{EntryPoint, Operation, Request};
use crate::payment_intent::Response;
use crate::text::str_eq;

verus! {

/// What the `object` member of a response is read by.
pub const OBJECT: &'static str = "object";

/// The `object` member of a list.
pub const LIST: &'static str = "list";

/// Why a call gave no object.
#[derive(Debug)]
pub enum ClientError {
    /// The request never completed.
    Transport,
    /// The response came, but its body could not be read to the end.
    BodyUnreadable,
    /// The response was not of the shape that was expected: a success
    /// whose body is not the object asked for, or a failure whose body is
    /// not JSON.
    UnexpectedShape,
    /// The API refused the request, and said why.
    Api(Info),
    /// The entry point does not serve the operation; nothing was sent.
    Incompatible,
}

impl ClientError {
    /// What each error is called.
    pub open spec fn spec_message(&self) -> Seq<char> {
        match self {
            ClientError::Transport => "Request failed"@,
            ClientError::BodyUnreadable => "Body could not be unwrapped"@,
            ClientError::UnexpectedShape => "Something went wrong"@,
            ClientError::Api(_) => "Status is not success"@,
            ClientError::Incompatible => "This function is not compatible with the selected type"@,
        }
    }

    /// A short description of the error.
    pub fn message(&self) -> (text: &'static str)
        ensures
            text@ == self.spec_message(),
    {
        match self {
            ClientError::Transport => "Request failed",
            ClientError::BodyUnreadable => "Body could not be unwrapped",
            ClientError::UnexpectedShape => "Something went wrong",
            ClientError::Api(_) => "Status is not success",
            ClientError::Incompatible => "This function is not compatible with the selected type",
        }
    }

    /// What the API said of the failure, where it is the API that refused.
    pub fn info(&self) -> (info: Option<&Info>)
        ensures
            match self {
                ClientError::Api(told) => info == Some(told),
                _ => info is None,
            },
    {
        match self {
            ClientError::Api(told) => Some(told),
            _ => None,
        }
    }

    /// The error of a response that the API refused, given its parsed body
    /// and what the related payload of the body was decoded into (see
    /// [`Info::related_payload`]): the API's own account of the failure.
    pub fn refused(status: u16, body: &Json, decoded: Option<Response>) -> (error: ClientError)
        ensures
            error matches ClientError::Api(info) && info@ == Info::decode(status, body@, decoded),
    {
        ClientError::Api(Info::from_json(status, body, decoded))
    }
}

/// The request of a call, or its refusal: an entry point makes the request
/// of an operation that it serves, and refuses every other operation
/// before anything is sent.
pub fn prepare(entry: EntryPoint, operation: &Operation, base: &str, secret: &str) -> (prepared:
    Result<Request, ClientError>)
    ensures
        match prepared {
            Ok(request) => operation@.served_by(entry) && request@ == operation@.materialize(
                base@,
                secret@,
            ),
            Err(error) => !operation@.served_by(entry) && error is Incompatible,
        },
{
    if operation.served_by(entry) {
        Ok(operation.materialize(base, secret))
    } else {
        Err(ClientError::Incompatible)
    }
}

/// How the exchange with the server went.
#[derive(Debug)]
pub enum Event {
    /// The request could not be sent, or no response came.
    SendFailed,
    /// A response came, but its body could not be read.
    ReadFailed,
    /// A response came: its status and its body.
    Received(u16, String),
}

/// What is to be done after the exchange.
#[derive(Debug)]
pub enum Verdict {
    /// The call succeeded: this body is to be decoded as the object that
    /// the caller asked for, and [`finish`] ends the call.
    Decode(String),
    /// The API refused the request: this is the status and the parsed
    /// body. The related payload of the body is to be decoded, and
    /// [`ClientError::refused`] gives the error.
    Refused(u16, Json),
    /// The call failed.
    Failed(ClientError),
}

/// Whether a status tells of success: 200 to 299.
pub open spec fn spec_is_success(status: u16) -> bool {
    200 <= status < 300
}

/// Whether a status tells of success: 200 to 299.
#[verifier::when_used_as_spec(spec_is_success)]
pub fn is_success(status: u16) -> (success: bool)
    ensures
        success == spec_is_success(status),
{
    200 <= status && status < 300
}

/// Decides what becomes of an exchange. The first failure ends the call:
/// nothing is tried again.
///
/// A success hands its body on for decoding. A failure hands its parsed
/// body on, to be read as an error of the API; where its body is not JSON,
/// the shape is unexpected.
pub fn settle(event: Event) -> (verdict: Verdict)
    ensures
        match event {
            Event::SendFailed => verdict matches Verdict::Failed(ClientError::Transport),
            Event::ReadFailed => verdict matches Verdict::Failed(ClientError::BodyUnreadable),
            Event::Received(status, body) => if is_success(status) {
                verdict == Verdict::Decode(body)
            } else {
                match json_parse(body@) {
                    Some(parsed) => verdict matches Verdict::Refused(told, read) && told == status
                        && read@ == parsed,
                    None => verdict matches Verdict::Failed(ClientError::UnexpectedShape),
                }
            },
        },
{
    match event {
        Event::SendFailed => Verdict::Failed(ClientError::Transport),
        Event::ReadFailed => Verdict::Failed(ClientError::BodyUnreadable),
        Event::Received(status, body) => {
            if is_success(status) {
                Verdict::Decode(body)
            } else {
                match parse(body.as_str()) {
                    Some(read) => Verdict::Refused(status, read),
                    None => Verdict::Failed(ClientError::UnexpectedShape),
                }
            }
        },
    }
}

/// Ends a call that succeeded, given what its body was decoded into: the
/// object, or an unexpected shape where the body was not one.
pub fn finish<T>(decoded: Option<T>) -> (outcome: Result<T, ClientError>)
    ensures
        match decoded {
            Some(object) => outcome == Ok::<T, ClientError>(object),
            None => outcome matches Err(ClientError::UnexpectedShape),
        },
{
    match decoded {
        Some(object) => Ok(object),
        None => Err(ClientError::UnexpectedShape),
    }
}

/// What a body is, going by its `object` member alone.
#[derive(Clone, Copy, Debug, PartialEq, Eq, Structural)]
pub enum Shape {
    /// One object of the kind asked for.
    Single,
    /// A list of objects.
    List,
    /// Neither.
    Other,
}

/// What a value is, going by its `object` member: one object where that
/// member is `kind`, a list where it is `list`, and neither in every other
/// case.
pub open spec fn spec_shape_of(body: JsonValue, kind: Seq<char>) -> Shape {
    match body.field(OBJECT@).as_text() {
        Some(tag) => if tag == kind {
            Shape::Single
        } else if tag == LIST@ {
            Shape::List
        } else {
            Shape::Other
        },
        None => Shape::Other,
    }
}

/// Reads the `object` member of a parsed body, and nothing else of it, to
/// tell what the body is to be decoded as. `kind` is the `object` member of
/// the resource asked for.
pub fn shape_of(body: &Json, kind: &str) -> (shape: Shape)
    ensures
        shape == spec_shape_of(body@, kind@),
{
    let tag = match body.get(OBJECT) {
        Some(value) => value.as_str(),
        None => None,
    };
    match tag {
        Some(tag) => if str_eq(tag, kind) {
            Shape::Single
        } else if str_eq(tag, LIST) {
            Shape::List
        } else {
            Shape::Other
        },
        None => Shape::Other,
    }
}

/// What the text of a body is to be decoded as: [`shape_of`] of what it
/// parses into, and neither an object nor a list where it is not JSON.
pub fn shape_of_text(body: &str, kind: &str) -> (shape: Shape)
    ensures
        shape == match json_parse(body@) {
            Some(parsed) => spec_shape_of(parsed, kind@),
            None => Shape::Other,
        },
{
    match parse(body) {
        Some(parsed) => shape_of(&parsed, kind),
        None => Shape::Other,
    }
}

} // verus!
