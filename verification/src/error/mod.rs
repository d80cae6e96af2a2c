//! The error taxonomy: what a failed call to the API is sorted into.

pub mod codes;
pub mod codes_enum;
pub mod fields;
pub mod types;

pub use codes_enum::Codes;

use vstd::prelude::*;
use crate::json::{json_parse, parse, Json, JsonValue};
use crate::payment_intent::Response;
use crate::text::str_eq;

verus! {

/// A list of possible HTTP errors.
#[derive(Clone, Copy, Debug, PartialEq, Eq, Structural)]
pub enum HTTPCodes {
    /// A status that the API is not documented to return; it is kept as
    /// it was received.
    Unrecognized(u16),
    /// Everything worked as expected.
    Success,
    /// The request was unacceptable, often due to missing a required parameter.
    BadRequest,
    /// No valid API key provided.
    Unauthorized,
    /// The parameters were valid but the request failed.
    RequestFailed,
    /// The API key doesn't have permissions to perform the request.
    Forbidden,
    /// The requested resource doesn't exist.
    NotFound,
    /// The request conflicts with another request (perhaps due to using the same idempotent key).
    Conflict,
    /// Too many requests hit the API too quickly. We recommend an exponential backoff of your requests.
    TooManyRequests,
    /// Something went wrong on Stripe's end. (These are rare.)
    ServerError(u16),
}

impl HTTPCodes {
    /// Whether a status is one of the server errors that the API documents.
    pub open spec fn is_server_error(status: u16) -> bool {
        status == 500 || status == 502 || status == 503 || status == 504
    }

    /// Whether the API documents a status.
    pub open spec fn is_documented(status: u16) -> bool {
        ||| status == 200
        ||| status == 400
        ||| status == 401
        ||| status == 402
        ||| status == 403
        ||| status == 404
        ||| status == 409
        ||| status == 429
        ||| HTTPCodes::is_server_error(status)
    }

    /// The class of a status.
    pub open spec fn spec_from_status(input: u16) -> HTTPCodes {
        if input == 200 {
            HTTPCodes::Success
        } else if input == 400 {
            HTTPCodes::BadRequest
        } else if input == 401 {
            HTTPCodes::Unauthorized
        } else if input == 402 {
            HTTPCodes::RequestFailed
        } else if input == 403 {
            HTTPCodes::Forbidden
        } else if input == 404 {
            HTTPCodes::NotFound
        } else if input == 409 {
            HTTPCodes::Conflict
        } else if input == 429 {
            HTTPCodes::TooManyRequests
        } else if HTTPCodes::is_server_error(input) {
            HTTPCodes::ServerError(input)
        } else {
            HTTPCodes::Unrecognized(input)
        }
    }

    /// The status that a class stands for.
    pub open spec fn spec_original_u16(&self) -> u16 {
        match self {
            HTTPCodes::Success => 200,
            HTTPCodes::BadRequest => 400,
            HTTPCodes::Unauthorized => 401,
            HTTPCodes::RequestFailed => 402,
            HTTPCodes::Forbidden => 403,
            HTTPCodes::NotFound => 404,
            HTTPCodes::Conflict => 409,
            HTTPCodes::TooManyRequests => 429,
            HTTPCodes::ServerError(output) => *output,
            HTTPCodes::Unrecognized(output) => *output,
        }
    }

    /// Whether a value is the class of some status: a server error holds
    /// one of the documented server errors, and the fallback holds a
    /// status that has no class of its own.
    pub open spec fn well_formed(&self) -> bool {
        match self {
            HTTPCodes::ServerError(output) => HTTPCodes::is_server_error(*output),
            HTTPCodes::Unrecognized(output) => !HTTPCodes::is_documented(*output),
            _ => true,
        }
    }

    /// Get the correct enumeration by `input`.
    ///
    /// # Arguments
    ///
    /// * `input` - The HTTP status value from Stripe's response
    #[verifier::when_used_as_spec(spec_from_status)]
    pub fn from_status(input: u16) -> (class: Self)
        ensures
            class == HTTPCodes::spec_from_status(input),
            class.spec_original_u16() == input,
            class.well_formed(),
            !HTTPCodes::is_documented(input) ==> class == HTTPCodes::Unrecognized(input),
    {
        match input {
            200 => HTTPCodes::Success,
            400 => HTTPCodes::BadRequest,
            401 => HTTPCodes::Unauthorized,
            402 => HTTPCodes::RequestFailed,
            403 => HTTPCodes::Forbidden,
            404 => HTTPCodes::NotFound,
            409 => HTTPCodes::Conflict,
            429 => HTTPCodes::TooManyRequests,
            500 | 502 | 503 | 504 => HTTPCodes::ServerError(input),
            _ => HTTPCodes::Unrecognized(input),
        }
    }

    /// Returns the original value.
    #[verifier::when_used_as_spec(spec_original_u16)]
    pub fn original_u16(&self) -> (status: u16)
        ensures
            status == self.spec_original_u16(),
    {
        match self {
            HTTPCodes::Success => 200,
            HTTPCodes::BadRequest => 400,
            HTTPCodes::Unauthorized => 401,
            HTTPCodes::RequestFailed => 402,
            HTTPCodes::Forbidden => 403,
            HTTPCodes::NotFound => 404,
            HTTPCodes::Conflict => 409,
            HTTPCodes::TooManyRequests => 429,
            HTTPCodes::ServerError(output) => *output,
            HTTPCodes::Unrecognized(output) => *output,
        }
    }

    /// Every status keeps its number through its class: a documented
    /// status has a class that stands for it, and any other is held by
    /// the fallback.
    pub proof fn lemma_status_is_kept(status: u16)
        ensures
            HTTPCodes::from_status(status).original_u16() == status,
            HTTPCodes::from_status(status).well_formed(),
            HTTPCodes::is_documented(status) <==> !(HTTPCodes::from_status(status) is Unrecognized),
            !HTTPCodes::is_documented(status) ==> HTTPCodes::from_status(status)
                == HTTPCodes::Unrecognized(status),
    {
    }

    /// A well-formed class is the class of the status that it stands for.
    pub proof fn lemma_class_is_kept(class: HTTPCodes)
        requires
            class.well_formed(),
        ensures
            HTTPCodes::from_status(class.original_u16()) == class,
    {
    }
}

/// All available error types from 01/08/2023
///
/// [Official Stripe error types list](https://stripe.com/docs/api/errors)
#[derive(Clone, Copy, Debug, PartialEq, Eq, Structural)]
pub enum Types {
    /// The type was absent, or is one this client does not know.
    Unrecognized,
    /// API errors cover any other type of problem (e.g., a temporary problem with Stripe's servers), and are extremely uncommon.
    API,
    /// Card errors are the most common type of error you should expect to handle. They result when the user enters a card that can't be charged for some reason.
    Card,
    /// Idempotency errors occur when an Idempotency-Key is re-used on a request that does not match the first request's API endpoint and parameters.
    Idempotency,
    /// Invalid request errors arise when your request has invalid parameters.
    InvalidRequest,
}

impl Types {
    /// Whether this is one of the types of the table, and not the fallback.
    pub open spec fn is_listed(self) -> bool {
        !(self is Unrecognized)
    }

    /// The wire string of each type; the fallback has the empty string.
    pub open spec fn wire(self) -> Seq<char> {
        match self {
            Types::API => types::API_ERROR@,
            Types::Card => types::CARD_ERROR@,
            Types::Idempotency => types::IDEMPOTENCY_ERROR@,
            Types::InvalidRequest => types::INVALID_REQUEST_ERROR@,
            Types::Unrecognized => ""@,
        }
    }

    /// Whether a string is the wire string of a listed type.
    pub open spec fn in_table(s: Seq<char>) -> bool {
        exists|t: Types| t.is_listed() && #[trigger] t.wire() == s
    }

    /// The type that a wire string stands for: the listed type with that
    /// wire string where there is one, the fallback for every other string.
    pub open spec fn from_wire(s: Seq<char>) -> Types {
        if Types::in_table(s) {
            choose|t: Types| t.is_listed() && #[trigger] t.wire() == s
        } else {
            Types::Unrecognized
        }
    }

    /// Get the correct enumeration by `input`.
    ///
    /// # Arguments
    ///
    /// * `input` - The "type" value from Stripe's response
    pub fn from_str(input: &str) -> (kind: Types)
        ensures
            kind == Types::from_wire(input@),
    {
        let kind = if str_eq(input, types::API_ERROR) {
            Types::API
        } else if str_eq(input, types::CARD_ERROR) {
            Types::Card
        } else if str_eq(input, types::IDEMPOTENCY_ERROR) {
            Types::Idempotency
        } else if str_eq(input, types::INVALID_REQUEST_ERROR) {
            Types::InvalidRequest
        } else {
            Types::Unrecognized
        };
        proof {
            if kind.is_listed() {
                Types::lemma_wire_injective(kind, Types::from_wire(input@));
            }
        }
        kind
    }

    /// Returns the original value.
    pub fn original_str(&self) -> (s: &'static str)
        ensures
            s@ == self.wire(),
    {
        match self {
            Types::API => types::API_ERROR,
            Types::Card => types::CARD_ERROR,
            Types::Idempotency => types::IDEMPOTENCY_ERROR,
            Types::InvalidRequest => types::INVALID_REQUEST_ERROR,
            Types::Unrecognized => "",
        }
    }

    /// No two types share a wire string, and only the fallback has the
    /// empty one: the wire strings all differ in length.
    pub proof fn lemma_wire_injective(a: Types, b: Types)
        requires
            a.wire() == b.wire(),
        ensures
            a == b,
    {
        reveal_strlit("");
        reveal_strlit("api_error");
        reveal_strlit("card_error");
        reveal_strlit("idempotency_error");
        reveal_strlit("invalid_request_error");
        assert(Types::API.wire().len() == 9);
        assert(Types::Card.wire().len() == 10);
        assert(Types::Idempotency.wire().len() == 17);
        assert(Types::InvalidRequest.wire().len() == 21);
        assert(Types::Unrecognized.wire().len() == 0);
    }

    /// A wire string of the table is read as a listed type, never as the
    /// fallback, and that type is written as the same string.
    pub proof fn lemma_known_round_trip(s: Seq<char>)
        requires
            Types::in_table(s),
        ensures
            Types::from_wire(s).is_listed(),
            Types::from_wire(s).wire() == s,
    {
    }

    /// A string that is not in the table is read as the fallback.
    pub proof fn lemma_unknown_is_fallback(s: Seq<char>)
        requires
            !Types::in_table(s),
        ensures
            Types::from_wire(s) == Types::Unrecognized,
    {
    }

    /// Reading a type's wire string gives the type back; this holds of
    /// the fallback and its empty string too.
    pub proof fn lemma_from_wire_inverts_wire(t: Types)
        ensures
            Types::from_wire(t.wire()) == t,
    {
        if Types::in_table(t.wire()) {
            Types::lemma_wire_injective(Types::from_wire(t.wire()), t);
        }
    }
}

/// All the important information about the error from Stripe.
#[derive(Debug)]
pub struct Info {
    /// The HTTP response status code.
    pub http_status: HTTPCodes,
    /// The type of error returned.
    /// One of `api_error`, `card_error`, `idempotency_error`, or `invalid_request_error`
    pub error_type: Types,
    /// For some errors that could be handled programmatically, a short string indicating the [error code](https://stripe.com/docs/error-codes) reported.
    pub error_code: Codes,
    /// A human-readable message providing more details about the error.
    /// For card errors, these messages can be shown to your users.
    pub message: String,
    /// If the error is parameter-specific, the parameter related to the error.
    /// For example, you can use this to display a message near the correct form field.
    pub param: Option<String>,
    /// The PaymentIntent object for errors returned on a request involving a PaymentIntent.
    /// There is none where the response held none, and none where what it held could not
    /// be read as a PaymentIntent.
    pub related_object: Option<Response>,
}

/// What an [`Info`] holds, as mathematical values.
pub struct InfoView {
    pub http_status: HTTPCodes,
    pub error_type: Types,
    pub error_code: Codes,
    pub message: Seq<char>,
    pub param: Option<Seq<char>>,
    pub related_object: Option<Response>,
}

impl View for Info {
    type V = InfoView;

    open spec fn view(&self) -> InfoView {
        InfoView {
            http_status: self.http_status,
            error_type: self.error_type,
            error_code: self.error_code,
            message: self.message@,
            param: match self.param {
                Some(param) => Some(param@),
                None => None,
            },
            related_object: self.related_object,
        }
    }
}

impl Info {
    /// The part of a response that holds the error: what stands under
    /// `error` where that is there and not `null`, else the response itself.
    pub open spec fn envelope(body: JsonValue) -> JsonValue {
        if body.field(fields::ERROR@) is Null {
            body
        } else {
            body.field(fields::ERROR@)
        }
    }

    /// The string that an envelope holds under `key`, and the empty string
    /// where it holds none there.
    pub open spec fn text(envelope: JsonValue, key: Seq<char>) -> Seq<char> {
        match envelope.field(key).as_text() {
            Some(s) => s,
            None => Seq::empty(),
        }
    }

    /// What a response holds of the PaymentIntent that the failed request
    /// involved: what stands under `payment_intent` in the envelope, where
    /// that is there and not `null`.
    pub open spec fn payload(body: JsonValue) -> Option<JsonValue> {
        let related = Info::envelope(body).field(fields::PAYMENT_INTENT@);
        if related is Null {
            None
        } else {
            Some(related)
        }
    }

    /// The error that a response with this status and body tells of, given
    /// what the related payload was decoded into: `decoded` is `None` where
    /// the payload could not be read as a PaymentIntent.
    ///
    /// The error has a related object only where the response holds a
    /// payload and the payload was decoded; a payload that was not decoded
    /// takes nothing else away from the error.
    pub open spec fn decode(status: u16, body: JsonValue, decoded: Option<Response>) -> InfoView {
        let envelope = Info::envelope(body);
        InfoView {
            http_status: HTTPCodes::from_status(status),
            error_type: Types::from_wire(Info::text(envelope, fields::TYPE@)),
            error_code: Codes::from_wire(Info::text(envelope, fields::CODE@)),
            message: Info::text(envelope, fields::MESSAGE@),
            param: envelope.field(fields::PARAM@).as_text(),
            related_object: if Info::payload(body) is None {
                None
            } else {
                decoded
            },
        }
    }

    /// What stands under `key`, where it is there and not `null`.
    fn present<'a>(json: &'a Json, key: &str) -> (found: Option<&'a Json>)
        ensures
            match found {
                Some(value) => !(json@.field(key@) is Null) && value@ == json@.field(key@),
                None => json@.field(key@) is Null,
            },
    {
        match json.get(key) {
            Some(value) => if value.is_null() {
                None
            } else {
                Some(value)
            },
            None => None,
        }
    }

    /// The string under `key`, where there is one.
    fn string<'a>(json: &'a Json, key: &str) -> (found: Option<&'a str>)
        ensures
            match found {
                Some(s) => json@.field(key@).as_text() == Some(s@),
                None => json@.field(key@).as_text() is None,
            },
    {
        match json.get(key) {
            Some(value) => value.as_str(),
            None => None,
        }
    }

    /// The string under `key`, or the empty string.
    fn string_or_empty<'a>(json: &'a Json, key: &str) -> (s: &'a str)
        ensures
            s@ == Info::text(json@, key@),
    {
        match Info::string(json, key) {
            Some(s) => s,
            None => {
                proof {
                    reveal_strlit("");
                }
                assert(""@ =~= Seq::<char>::empty());
                ""
            },
        }
    }

    /// The envelope of a parsed response.
    fn envelope_of(body: &Json) -> (envelope: &Json)
        ensures
            envelope@ == Info::envelope(body@),
    {
        match Info::present(body, fields::ERROR) {
            Some(inner) => inner,
            None => body,
        }
    }

    /// What a parsed response holds of the PaymentIntent that the failed
    /// request involved, to be decoded as one before [`Info::from_json`]
    /// takes the outcome.
    pub fn related_payload(body: &Json) -> (found: Option<&Json>)
        ensures
            match found {
                Some(payload) => Info::payload(body@) == Some(payload@),
                None => Info::payload(body@) is None,
            },
    {
        Info::present(Info::envelope_of(body), fields::PAYMENT_INTENT)
    }

    /// Reads the error out of a parsed response. `decoded` is what the
    /// payload of [`Info::related_payload`] was decoded into, and `None`
    /// where it could not be decoded.
    ///
    /// Nothing that the response lacks makes this fail: a type or code that
    /// is absent or unknown becomes the fallback, an absent message the
    /// empty string, and a related object that is absent or was not
    /// decoded is left out.
    pub fn from_json(status: u16, body: &Json, decoded: Option<Response>) -> (info: Info)
        ensures
            info@ == Info::decode(status, body@, decoded),
            Info::payload(body@) is None || decoded is None ==> info.related_object is None,
            Info::payload(body@) is Some ==> info.related_object == decoded,
    {
        let envelope = Info::envelope_of(body);
        Info {
            http_status: HTTPCodes::from_status(status),
            error_type: Types::from_str(Info::string_or_empty(envelope, fields::TYPE)),
            error_code: Codes::from_str(Info::string_or_empty(envelope, fields::CODE)),
            message: Info::string_or_empty(envelope, fields::MESSAGE).to_owned(),
            param: match Info::string(envelope, fields::PARAM) {
                Some(param) => Some(param.to_owned()),
                None => None,
            },
            related_object: match Info::present(envelope, fields::PAYMENT_INTENT) {
                Some(_) => decoded,
                None => None,
            },
        }
    }

    /// Reads the error out of the body of a failed response: nothing where
    /// the body is not JSON, and else what [`Info::from_json`] reads out of
    /// the parsed body. `decoded` is what the related payload of the body
    /// was decoded into, and `None` where there is none or it could not be
    /// decoded.
    pub fn create(status: u16, json_text: &str, decoded: Option<Response>) -> (made: Option<Info>)
        ensures
            match made {
                Some(info) => json_parse(json_text@) matches Some(body) && info@ == Info::decode(
                    status,
                    body,
                    decoded,
                ),
                None => json_parse(json_text@) is None,
            },
    {
        match parse(json_text) {
            Some(body) => Some(Info::from_json(status, &body, decoded)),
            None => None,
        }
    }

    /// An error is read alike whether the response wraps it under `error`
    /// or holds its members itself: a body that has `fields` under `error`
    /// tells of the same error as `fields` alone, provided that `fields`
    /// is not `null` and has nothing under `error` in turn.
    pub proof fn lemma_envelope_shape(
        status: u16,
        body: JsonValue,
        fields: JsonValue,
        decoded: Option<Response>,
    )
        requires
            body.field(fields::ERROR@) == fields,
            !(fields is Null),
            fields.field(fields::ERROR@) is Null,
        ensures
            Info::payload(body) == Info::payload(fields),
            Info::decode(status, body, decoded) == Info::decode(status, fields, decoded),
    {
    }

    /// A related payload that was not decoded leaves the rest of the error
    /// as it is: the error differs from the one with the payload decoded
    /// in its related object alone.
    pub proof fn lemma_undecoded_payload(status: u16, body: JsonValue, decoded: Option<Response>)
        ensures
            Info::decode(status, body, None).related_object is None,
            Info::decode(status, body, None) == (InfoView {
                related_object: None,
                ..Info::decode(status, body, decoded)
            }),
    {
    }
}

} // verus!
