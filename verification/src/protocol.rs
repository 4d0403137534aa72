//! The three JSON-RPC messages and the identifier that ties a response to
//! its request.

use vstd::prelude::*;
use crate::json::{JsonModel, JsonValue};
use crate::text::same_text;

verus! {

/// The document of an optional JSON value.
pub open spec fn optional_model(value: Option<JsonValue>) -> Option<JsonModel> {
    match value {
        Some(v) => Some(v@),
        None => None,
    }
}

/// Copies an optional JSON value.
pub fn copy_optional(value: &Option<JsonValue>) -> (copy: Option<JsonValue>)
    ensures
        optional_model(copy) == optional_model(*value),
{
    match value {
        Some(v) => Some(v.clone()),
        None => None,
    }
}

/// Identifies one outstanding request: a number or a string, and the two
/// are never confused.
#[derive(Debug, PartialEq, Eq)]
pub enum RequestId {
    Number(i64),
    String(String),
}

/// A `RequestId` as a mathematical value.
pub enum RequestIdModel {
    Number(i64),
    String(Seq<char>),
}

impl View for RequestId {
    type V = RequestIdModel;

    open spec fn view(&self) -> RequestIdModel {
        match *self {
            RequestId::Number(n) => RequestIdModel::Number(n),
            RequestId::String(s) => RequestIdModel::String(s@),
        }
    }
}

impl Clone for RequestId {
    fn clone(&self) -> (copy: RequestId)
        ensures
            copy@ == self@,
    {
        match self {
            RequestId::Number(n) => RequestId::Number(*n),
            RequestId::String(s) => RequestId::String(s.clone()),
        }
    }
}

impl RequestId {
    /// Whether two identifiers are the same: the same number, or the same
    /// string.
    pub fn matches(&self, other: &RequestId) -> (same: bool)
        ensures
            same == (self@ == other@),
    {
        match (self, other) {
            (RequestId::Number(a), RequestId::Number(b)) => *a == *b,
            (RequestId::String(a), RequestId::String(b)) => same_text(a.as_str(), b.as_str()),
            _ => false,
        }
    }
}

/// A call that expects a response.
#[derive(Debug, PartialEq, Eq)]
pub struct Request {
    pub jsonrpc: String,
    pub method: String,
    pub params: Option<JsonValue>,
    pub id: RequestId,
}

/// A `Request` as a mathematical value.
pub struct RequestModel {
    pub jsonrpc: Seq<char>,
    pub method: Seq<char>,
    pub params: Option<JsonModel>,
    pub id: RequestIdModel,
}

impl View for Request {
    type V = RequestModel;

    open spec fn view(&self) -> RequestModel {
        RequestModel {
            jsonrpc: self.jsonrpc@,
            method: self.method@,
            params: optional_model(self.params),
            id: self.id@,
        }
    }
}

impl Clone for Request {
    fn clone(&self) -> (copy: Request)
        ensures
            copy@ == self@,
    {
        Request {
            jsonrpc: self.jsonrpc.clone(),
            method: self.method.clone(),
            params: copy_optional(&self.params),
            id: self.id.clone(),
        }
    }
}

impl Request {
    /// A request of protocol version 2.0.
    pub fn new(method: &str, params: Option<JsonValue>, id: RequestId) -> (request: Request)
        ensures
            request@ == (RequestModel {
                jsonrpc: crate::JSONRPC_VERSION@,
                method: method@,
                params: optional_model(params),
                id: id@,
            }),
    {
        Request { jsonrpc: crate::JSONRPC_VERSION.to_owned(), method: method.to_owned(), params, id }
    }
}

/// The error that a response carries in place of a result.
#[derive(Debug, PartialEq, Eq)]
pub struct ResponseError {
    pub code: i32,
    pub message: String,
    pub data: Option<JsonValue>,
}

/// A `ResponseError` as a mathematical value.
pub struct ResponseErrorModel {
    pub code: i32,
    pub message: Seq<char>,
    pub data: Option<JsonModel>,
}

impl View for ResponseError {
    type V = ResponseErrorModel;

    open spec fn view(&self) -> ResponseErrorModel {
        ResponseErrorModel {
            code: self.code,
            message: self.message@,
            data: optional_model(self.data),
        }
    }
}

impl Clone for ResponseError {
    fn clone(&self) -> (copy: ResponseError)
        ensures
            copy@ == self@,
    {
        ResponseError {
            code: self.code,
            message: self.message.clone(),
            data: copy_optional(&self.data),
        }
    }
}

/// The document of an optional response error.
pub open spec fn optional_error_model(error: Option<ResponseError>) -> Option<ResponseErrorModel> {
    match error {
        Some(e) => Some(e@),
        None => None,
    }
}

/// The answer to a request.
#[derive(Debug, PartialEq, Eq)]
pub struct Response {
    pub jsonrpc: String,
    pub id: RequestId,
    pub result: Option<JsonValue>,
    pub error: Option<ResponseError>,
}

/// A `Response` as a mathematical value.
pub struct ResponseModel {
    pub jsonrpc: Seq<char>,
    pub id: RequestIdModel,
    pub result: Option<JsonModel>,
    pub error: Option<ResponseErrorModel>,
}

impl View for Response {
    type V = ResponseModel;

    open spec fn view(&self) -> ResponseModel {
        ResponseModel {
            jsonrpc: self.jsonrpc@,
            id: self.id@,
            result: optional_model(self.result),
            error: optional_error_model(self.error),
        }
    }
}

impl Clone for Response {
    fn clone(&self) -> (copy: Response)
        ensures
            copy@ == self@,
    {
        Response {
            jsonrpc: self.jsonrpc.clone(),
            id: self.id.clone(),
            result: copy_optional(&self.result),
            error: match &self.error {
                Some(e) => Some(e.clone()),
                None => None,
            },
        }
    }
}

impl Response {
    /// A response of protocol version 2.0 that carries a result.
    pub fn success(id: RequestId, result: JsonValue) -> (response: Response)
        ensures
            response@ == (ResponseModel {
                jsonrpc: crate::JSONRPC_VERSION@,
                id: id@,
                result: Some(result@),
                error: None,
            }),
    {
        Response { jsonrpc: crate::JSONRPC_VERSION.to_owned(), id, result: Some(result), error: None }
    }

    /// A response of protocol version 2.0 that carries an error.
    pub fn failure(id: RequestId, error: ResponseError) -> (response: Response)
        ensures
            response@ == (ResponseModel {
                jsonrpc: crate::JSONRPC_VERSION@,
                id: id@,
                result: None,
                error: Some(error@),
            }),
    {
        Response { jsonrpc: crate::JSONRPC_VERSION.to_owned(), id, result: None, error: Some(error) }
    }
}

/// A message that expects no response.
#[derive(Debug, PartialEq, Eq)]
pub struct Notification {
    pub jsonrpc: String,
    pub method: String,
    pub params: Option<JsonValue>,
}

/// A `Notification` as a mathematical value.
pub struct NotificationModel {
    pub jsonrpc: Seq<char>,
    pub method: Seq<char>,
    pub params: Option<JsonModel>,
}

impl View for Notification {
    type V = NotificationModel;

    open spec fn view(&self) -> NotificationModel {
        NotificationModel {
            jsonrpc: self.jsonrpc@,
            method: self.method@,
            params: optional_model(self.params),
        }
    }
}

impl Clone for Notification {
    fn clone(&self) -> (copy: Notification)
        ensures
            copy@ == self@,
    {
        Notification {
            jsonrpc: self.jsonrpc.clone(),
            method: self.method.clone(),
            params: copy_optional(&self.params),
        }
    }
}

impl Notification {
    /// A notification of protocol version 2.0.
    pub fn new(method: &str, params: Option<JsonValue>) -> (notification: Notification)
        ensures
            notification@ == (NotificationModel {
                jsonrpc: crate::JSONRPC_VERSION@,
                method: method@,
                params: optional_model(params),
            }),
    {
        Notification { jsonrpc: crate::JSONRPC_VERSION.to_owned(), method: method.to_owned(), params }
    }
}

} // verus!
