//! The envelopes that go over the wire: what a client sends, and what it is
//! answered.

use crate::json::{int_number, opt_view, Json, JsonNumber, JsonView};
use crate::utils::error::{Error, ErrorKind, ErrorView, INTERNAL_ERROR};
use crate::utils::text::str_eq;
use vstd::prelude::*;

verus! {

/// The names of the members of an envelope are seven different names.
pub proof fn lemma_member_names_differ()
    ensures
        "jsonrpc"@ != "id"@,
        "jsonrpc"@ != "result"@,
        "jsonrpc"@ != "error"@,
        "id"@ != "result"@,
        "id"@ != "error"@,
        "result"@ != "error"@,
        "code"@ != "message"@,
        "code"@ != "data"@,
        "message"@ != "data"@,
{
    reveal_strlit("jsonrpc");
    reveal_strlit("id");
    reveal_strlit("result");
    reveal_strlit("error");
    reveal_strlit("code");
    reveal_strlit("message");
    reveal_strlit("data");
    assert("jsonrpc"@.len() == 7 && "id"@.len() == 2);
    assert("result"@[0] != "error"@[0]);
    assert("code"@[0] != "data"@[0]);
}

/// What a client sent: a method to run, its parameters, and the id under
/// which an answer is expected. Without an id it is a notification, and is
/// not answered.
#[derive(Debug)]
pub struct Envelope {
    pub id: Option<Json>,
    pub method: String,
    pub params: Option<Json>,
}

/// The model of an [`Envelope`].
pub struct EnvelopeView {
    pub id: Option<JsonView>,
    pub method: Seq<char>,
    pub params: Option<JsonView>,
}

impl Clone for Envelope {
    fn clone(&self) -> (r: Self)
        ensures
            r@ == self@,
    {
        let id = match &self.id {
            Some(value) => Some(value.clone()),
            None => None,
        };
        let params = match &self.params {
            Some(value) => Some(value.clone()),
            None => None,
        };
        Envelope { id, method: self.method.clone(), params }
    }
}

impl View for Envelope {
    type V = EnvelopeView;

    open spec fn view(&self) -> EnvelopeView {
        EnvelopeView { id: opt_view(self.id), method: self.method@, params: opt_view(self.params) }
    }
}

/// The failure for a message that is no envelope.
pub open spec fn invalid_request(detail: Seq<char>) -> ErrorView {
    ErrorView { kind: ErrorKind::InvalidRequest, detail }
}

impl EnvelopeView {
    /// The envelope that `message` is, or why it is none: the member `jsonrpc`
    /// must be the string `2.0`, and the member `method` a string. The id is
    /// whatever the member `id` holds, `null` too.
    pub open spec fn of(message: JsonView) -> Result<EnvelopeView, ErrorView> {
        match message.member_text("jsonrpc"@) {
            None => Err(invalid_request("Missing jsonrpc field"@)),
            Some(tag) => if tag != "2.0"@ {
                Err(invalid_request("Invalid jsonrpc version"@))
            } else {
                match message.member_text("method"@) {
                    None => Err(invalid_request("Missing method"@)),
                    Some(method) => Ok(
                        EnvelopeView {
                            id: message.member("id"@),
                            method,
                            params: message.member("params"@),
                        },
                    ),
                }
            },
        }
    }

    /// Whether no answer is expected.
    pub open spec fn is_notification(self) -> bool {
        self.id is None
    }
}

/// The model of what reading an envelope ended with.
pub open spec fn envelope_outcome_view(outcome: Result<Envelope, Error>) -> Result<
    EnvelopeView,
    ErrorView,
> {
    match outcome {
        Ok(envelope) => Ok(envelope@),
        Err(e) => Err(e@),
    }
}

impl Envelope {
    /// Reads `message` as an envelope.
    pub fn from_json(message: &Json) -> (r: Result<Envelope, Error>)
        ensures
            envelope_outcome_view(r) == EnvelopeView::of(message@),
    {
        let tag = match message.get_str("jsonrpc") {
            Some(tag) => tag,
            None => {
                return Err(Error::invalid_request("Missing jsonrpc field"));
            },
        };
        if !str_eq(tag, "2.0") {
            return Err(Error::invalid_request("Invalid jsonrpc version"));
        }
        let method = match message.get_str("method") {
            Some(method) => method,
            None => {
                return Err(Error::invalid_request("Missing method"));
            },
        };
        let id = match message.get("id") {
            Some(id) => Some(id.clone()),
            None => None,
        };
        let params = match message.get("params") {
            Some(params) => Some(params.clone()),
            None => None,
        };
        Ok(Envelope { id, method: String::from_str(method), params })
    }

    /// Whether no answer is expected.
    pub fn is_notification(&self) -> (r: bool)
        ensures
            r == self@.is_notification(),
    {
        self.id.is_none()
    }
}

/// A failure as it is reported to the client.
#[derive(Debug)]
pub struct RpcError {
    pub code: i64,
    pub message: String,
    pub data: Option<Json>,
}

/// The model of an [`RpcError`].
pub struct RpcErrorView {
    pub code: i64,
    pub message: Seq<char>,
    pub data: Option<JsonView>,
}

impl Clone for RpcError {
    fn clone(&self) -> (r: Self)
        ensures
            r@ == self@,
    {
        let data = match &self.data {
            Some(value) => Some(value.clone()),
            None => None,
        };
        RpcError { code: self.code, message: self.message.clone(), data }
    }
}

impl View for RpcError {
    type V = RpcErrorView;

    open spec fn view(&self) -> RpcErrorView {
        RpcErrorView { code: self.code, message: self.message@, data: opt_view(self.data) }
    }
}

/// The integer that a JSON value holds, if it holds one that fits.
pub open spec fn integer_of(value: Option<JsonView>) -> Option<i64> {
    match value {
        Some(JsonView::Number(JsonNumber::PosInt(u))) => if u <= i64::MAX {
            Some(u as i64)
        } else {
            None
        },
        Some(JsonView::Number(JsonNumber::NegInt(i))) => Some(i),
        _ => None,
    }
}

impl RpcErrorView {
    /// How `error` is reported: under the code of its kind, with its message
    /// and no data.
    pub open spec fn of(error: ErrorView) -> RpcErrorView {
        RpcErrorView { code: error.code(), message: error.message(), data: None }
    }

    /// The report of a failure that has no kind of its own: the internal
    /// code, the words `Internal error`, and the detail as data.
    pub open spec fn internal(detail: Seq<char>) -> RpcErrorView {
        RpcErrorView {
            code: INTERNAL_ERROR,
            message: "Internal error"@,
            data: Some(JsonView::String(detail)),
        }
    }

    /// The object `code`, `message` and, where there is any, `data`.
    pub open spec fn json(self) -> JsonView {
        JsonView::empty_object().with("code"@, JsonView::Number(int_number(self.code))).with(
            "message"@,
            JsonView::String(self.message),
        ).with_opt("data"@, self.data)
    }

    /// The failure that `value` reports, if it is an object with an integer
    /// `code` and a string `message`.
    pub open spec fn parse(value: JsonView) -> Option<RpcErrorView> {
        match (integer_of(value.member("code"@)), value.member_text("message"@)) {
            (Some(code), Some(message)) => Some(
                RpcErrorView { code, message, data: value.member("data"@) },
            ),
            _ => None,
        }
    }
}

impl RpcError {
    /// How `error` is reported to the client.
    pub fn of(error: &Error) -> (r: RpcError)
        ensures
            r@ == RpcErrorView::of(error@),
    {
        RpcError { code: error.code(), message: error.message(), data: None }
    }

    /// The report of a failure that has no kind of its own.
    pub fn internal(detail: &str) -> (r: RpcError)
        ensures
            r@ == RpcErrorView::internal(detail@),
    {
        RpcError {
            code: INTERNAL_ERROR,
            message: String::from_str("Internal error"),
            data: Some(Json::string(detail)),
        }
    }

    /// This failure as it goes over the wire.
    pub fn to_json(&self) -> (r: Json)
        ensures
            r@ == self@.json(),
    {
        let data = match &self.data {
            Some(d) => Some(d.clone()),
            None => None,
        };
        Json::empty_object().with("code", Json::integer(self.code)).with(
            "message",
            Json::string(self.message.as_str()),
        ).with_opt("data", data)
    }

    /// Reads the failure that `value` reports.
    pub fn from_json(value: &Json) -> (r: Option<RpcError>)
        ensures
            match r {
                Some(e) => RpcErrorView::parse(value@) == Some(e@),
                None => RpcErrorView::parse(value@) is None,
            },
    {
        let code = match value.get("code") {
            Some(Json::Number(JsonNumber::PosInt(u))) => {
                if *u <= i64::MAX as u64 {
                    Some(*u as i64)
                } else {
                    None
                }
            },
            Some(Json::Number(JsonNumber::NegInt(i))) => Some(*i),
            _ => None,
        };
        let message = value.get_str("message");
        match (code, message) {
            (Some(code), Some(message)) => {
                let data = match value.get("data") {
                    Some(d) => Some(d.clone()),
                    None => None,
                };
                Some(RpcError { code, message: String::from_str(message), data })
            },
            _ => None,
        }
    }
}

/// The answer to a request: the id of the request, and either the result or
/// the failure.
#[derive(Debug)]
pub struct Response {
    pub id: Json,
    pub outcome: Result<Json, RpcError>,
}

/// The model of a [`Response`].
pub struct ResponseView {
    pub id: JsonView,
    pub outcome: Result<JsonView, RpcErrorView>,
}

impl Clone for Response {
    fn clone(&self) -> (r: Self)
        ensures
            r@ == self@,
    {
        let outcome = match &self.outcome {
            Ok(result) => Ok(result.clone()),
            Err(e) => Err(e.clone()),
        };
        Response { id: self.id.clone(), outcome }
    }
}

impl View for Response {
    type V = ResponseView;

    open spec fn view(&self) -> ResponseView {
        ResponseView {
            id: self.id@,
            outcome: match self.outcome {
                Ok(result) => Ok(result@),
                Err(e) => Err(e@),
            },
        }
    }
}

impl ResponseView {
    /// The answer to the request `id` whose handling came to `outcome`.
    pub open spec fn of(id: JsonView, outcome: Result<JsonView, ErrorView>) -> ResponseView {
        ResponseView {
            id,
            outcome: match outcome {
                Ok(result) => Ok(result),
                Err(e) => Err(RpcErrorView::of(e)),
            },
        }
    }

    /// The answer that reports an internal failure with `detail` as data.
    pub open spec fn internal(id: JsonView, detail: Seq<char>) -> ResponseView {
        ResponseView { id, outcome: Err(RpcErrorView::internal(detail)) }
    }

    /// The object `jsonrpc`, `id` and one of `result` and `error`.
    pub open spec fn json(self) -> JsonView {
        let head = JsonView::empty_object().with("jsonrpc"@, JsonView::String("2.0"@)).with(
            "id"@,
            self.id,
        );
        match self.outcome {
            Ok(result) => head.with("result"@, result),
            Err(e) => head.with("error"@, e.json()),
        }
    }

    /// The answer that `value` is, if it is one: `jsonrpc` is `2.0`, there
    /// is an `id`, and of `result` and `error` there is exactly one.
    pub open spec fn parse(value: JsonView) -> Option<ResponseView> {
        if value.member_text("jsonrpc"@) != Some("2.0"@) {
            None
        } else {
            match (value.member("id"@), value.member("result"@), value.member("error"@)) {
                (Some(id), Some(result), None) => Some(ResponseView { id, outcome: Ok(result) }),
                (Some(id), None, Some(e)) => match RpcErrorView::parse(e) {
                    Some(error) => Some(ResponseView { id, outcome: Err(error) }),
                    None => None,
                },
                _ => None,
            }
        }
    }
}

/// What is sent back for a message with the given id, if any, whose handling
/// came to `outcome`: nothing for a notification, else the answer.
pub open spec fn reply(id: Option<JsonView>, outcome: Result<JsonView, ErrorView>) -> Option<
    JsonView,
> {
    match id {
        Some(id) => Some(ResponseView::of(id, outcome).json()),
        None => None,
    }
}

impl Response {
    /// The answer that carries `result`.
    pub fn success(id: Json, result: Json) -> (r: Response)
        ensures
            r@ == ResponseView::of(id@, Ok(result@)),
    {
        Response { id, outcome: Ok(result) }
    }

    /// The answer that reports `error`.
    pub fn failure(id: Json, error: &Error) -> (r: Response)
        ensures
            r@ == ResponseView::of(id@, Err(error@)),
    {
        Response { id, outcome: Err(RpcError::of(error)) }
    }

    /// The answer that reports an internal failure with `detail` as data.
    pub fn internal(id: Json, detail: &str) -> (r: Response)
        ensures
            r@ == ResponseView::internal(id@, detail@),
    {
        Response { id, outcome: Err(RpcError::internal(detail)) }
    }

    /// This answer as it goes over the wire.
    pub fn to_json(&self) -> (r: Json)
        ensures
            r@ == self@.json(),
    {
        let head = Json::empty_object().with("jsonrpc", Json::string("2.0")).with(
            "id",
            self.id.clone(),
        );
        match &self.outcome {
            Ok(result) => head.with("result", result.clone()),
            Err(e) => head.with("error", e.to_json()),
        }
    }

    /// Reads the answer that `value` is.
    pub fn from_json(value: &Json) -> (r: Option<Response>)
        ensures
            match r {
                Some(response) => ResponseView::parse(value@) == Some(response@),
                None => ResponseView::parse(value@) is None,
            },
    {
        match value.get_str("jsonrpc") {
            Some(tag) => {
                if !str_eq(tag, "2.0") {
                    return None;
                }
            },
            None => {
                return None;
            },
        }
        match (value.get("id"), value.get("result"), value.get("error")) {
            (Some(id), Some(result), None) => Some(
                Response { id: id.clone(), outcome: Ok(result.clone()) },
            ),
            (Some(id), None, Some(e)) => match RpcError::from_json(e) {
                Some(error) => Some(Response { id: id.clone(), outcome: Err(error) }),
                None => None,
            },
            _ => None,
        }
    }
}

/// An answer carries the id it was made for.
pub proof fn lemma_response_id(response: ResponseView)
    ensures
        response.json().member("id"@) == Some(response.id),
        response.json().member_text("jsonrpc"@) == Some("2.0"@),
        response.outcome is Ok ==> response.json().member("result"@) == Some(
            response.outcome->Ok_0,
        ) && response.json().member("error"@) is None,
        response.outcome is Err ==> response.json().member("error"@) == Some(
            response.outcome->Err_0.json(),
        ) && response.json().member("result"@) is None,
{
    lemma_member_names_differ();
}

/// A failure that is written out and read back is the failure it was.
pub proof fn lemma_error_round_trip(error: RpcErrorView)
    ensures
        RpcErrorView::parse(error.json()) == Some(error),
{
    lemma_member_names_differ();
    let written = error.json();
    assert(written.member("code"@) == Some(JsonView::Number(int_number(error.code))));
    assert(integer_of(written.member("code"@)) == Some(error.code));
    assert(written.member_text("message"@) == Some(error.message));
    assert(written.member("data"@) == error.data);
}

/// An answer that is written out as a JSON value and read back is the answer
/// it was: its id, and its result or its failure with code, message and data.
pub proof fn lemma_response_round_trip(response: ResponseView)
    ensures
        ResponseView::parse(response.json()) == Some(response),
{
    lemma_response_id(response);
    if response.outcome is Err {
        lemma_error_round_trip(response.outcome->Err_0);
    }
}

} // verus!
