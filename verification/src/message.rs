//! The message envelope: one type for the three kinds of message, the JSON
//! document each is written as, and the rule that tells them apart when a
//! document is read.

use vstd::prelude::*;
use crate::error::{ClientError, ClientErrorModel};
use crate::json::{put, JsonModel, JsonValue, Member};
use crate::json_text::{json_parsed, json_text, parse, render};
use crate::protocol::{
    optional_model, Notification, NotificationModel, Request, RequestId, RequestIdModel,
    RequestModel, Response, ResponseError, ResponseErrorModel, ResponseModel,
};

verus! {

/// A message that can travel over a transport.
#[derive(Debug, PartialEq, Eq)]
pub enum Message {
    Request(Request),
    Response(Response),
    Notification(Notification),
}

/// A `Message` as a mathematical value.
pub enum MessageModel {
    Request(RequestModel),
    Response(ResponseModel),
    Notification(NotificationModel),
}

impl View for Message {
    type V = MessageModel;

    open spec fn view(&self) -> MessageModel {
        match *self {
            Message::Request(r) => MessageModel::Request(r@),
            Message::Response(r) => MessageModel::Response(r@),
            Message::Notification(n) => MessageModel::Notification(n@),
        }
    }
}

impl Clone for Message {
    fn clone(&self) -> (copy: Message)
        ensures
            copy@ == self@,
    {
        match self {
            Message::Request(r) => Message::Request(r.clone()),
            Message::Response(r) => Message::Response(r.clone()),
            Message::Notification(n) => Message::Notification(n.clone()),
        }
    }
}

/// Why a JSON document is not a message.
#[derive(Clone, Copy, Debug, PartialEq, Eq, Structural)]
pub enum DecodeError {
    /// The document is not an object.
    NotAnObject,
    /// There is an `id`, but neither `method` nor `result` nor `error`.
    IdWithoutMethodOrResult,
    /// There is neither `id` nor `method`.
    MissingIdAndMethod,
    /// `jsonrpc` is there and is not a string.
    InvalidVersion,
    /// `method` is not a string.
    InvalidMethod,
    /// `id` is neither a string nor an integer of 64 bits.
    InvalidId,
    /// `error` is not an object with an integer `code` of 32 bits and a
    /// string `message`.
    InvalidError,
}

/// The fields with one more entry, where there is a value for it.
pub open spec fn with_optional(
    fields: Map<Seq<char>, JsonModel>,
    key: Seq<char>,
    value: Option<JsonModel>,
) -> Map<Seq<char>, JsonModel> {
    match value {
        Some(v) => fields.insert(key, v),
        None => fields,
    }
}

/// The document an identifier is written as.
pub open spec fn id_json(id: RequestIdModel) -> JsonModel {
    match id {
        RequestIdModel::Number(n) => JsonModel::Integer(n as int),
        RequestIdModel::String(s) => JsonModel::Text(s),
    }
}

/// The document a response error is written as.
pub open spec fn error_json(error: ResponseErrorModel) -> JsonModel {
    JsonModel::Object(
        with_optional(
            Map::empty().insert("code"@, JsonModel::Integer(error.code as int)).insert(
                "message"@,
                JsonModel::Text(error.message),
            ),
            "data"@,
            error.data,
        ),
    )
}

/// The identifier that a document is read as.
pub open spec fn decode_id(document: JsonModel) -> Result<RequestIdModel, DecodeError> {
    match document {
        JsonModel::Integer(i) => if i64::MIN <= i <= i64::MAX {
            Ok(RequestIdModel::Number(i as i64))
        } else {
            Err(DecodeError::InvalidId)
        },
        JsonModel::Text(s) => Ok(RequestIdModel::String(s)),
        _ => Err(DecodeError::InvalidId),
    }
}

/// The version tag of a message document; one without a tag is of version 2.0.
pub open spec fn decode_version(document: JsonModel) -> Result<Seq<char>, DecodeError> {
    match document.member("jsonrpc"@) {
        None => Ok(crate::JSONRPC_VERSION@),
        Some(JsonModel::Text(t)) => Ok(t),
        Some(_) => Err(DecodeError::InvalidVersion),
    }
}

/// The method of a message document that has one.
pub open spec fn decode_method(document: JsonModel) -> Result<Seq<char>, DecodeError> {
    match document.member("method"@) {
        Some(JsonModel::Text(t)) => Ok(t),
        _ => Err(DecodeError::InvalidMethod),
    }
}

/// The response error that a document is read as.
pub open spec fn decode_error(document: JsonModel) -> Result<ResponseErrorModel, DecodeError> {
    match (document.member("code"@), document.member("message"@)) {
        (Some(JsonModel::Integer(code)), Some(JsonModel::Text(message))) => if i32::MIN <= code
            <= i32::MAX {
            Ok(
                ResponseErrorModel {
                    code: code as i32,
                    message,
                    data: document.member("data"@),
                },
            )
        } else {
            Err(DecodeError::InvalidError)
        },
        _ => Err(DecodeError::InvalidError),
    }
}

/// The request that a document with `id` and `method` is read as.
pub open spec fn decode_request(document: JsonModel) -> Result<RequestModel, DecodeError> {
    match decode_version(document) {
        Err(e) => Err(e),
        Ok(jsonrpc) => match decode_method(document) {
            Err(e) => Err(e),
            Ok(method) => match decode_id(document.member("id"@)->0) {
                Err(e) => Err(e),
                Ok(id) => Ok(
                    RequestModel { jsonrpc, method, params: document.member("params"@), id },
                ),
            },
        },
    }
}

/// The response that a document with `id` and with `result` or `error` is
/// read as.
pub open spec fn decode_response(document: JsonModel) -> Result<ResponseModel, DecodeError> {
    match decode_version(document) {
        Err(e) => Err(e),
        Ok(jsonrpc) => match decode_id(document.member("id"@)->0) {
            Err(e) => Err(e),
            Ok(id) => match document.member("error"@) {
                None => Ok(
                    ResponseModel { jsonrpc, id, result: document.member("result"@), error: None },
                ),
                Some(e) => match decode_error(e) {
                    Err(e) => Err(e),
                    Ok(error) => Ok(
                        ResponseModel {
                            jsonrpc,
                            id,
                            result: document.member("result"@),
                            error: Some(error),
                        },
                    ),
                },
            },
        },
    }
}

/// The notification that a document with `method` and without `id` is read as.
pub open spec fn decode_notification(document: JsonModel) -> Result<
    NotificationModel,
    DecodeError,
> {
    match decode_version(document) {
        Err(e) => Err(e),
        Ok(jsonrpc) => match decode_method(document) {
            Err(e) => Err(e),
            Ok(method) => Ok(
                NotificationModel { jsonrpc, method, params: document.member("params"@) },
            ),
        },
    }
}

impl MessageModel {
    /// The tag that names the kind of a message on the wire.
    pub open spec fn message_type(self) -> Seq<char> {
        match self {
            MessageModel::Request(_) => "request"@,
            MessageModel::Response(_) => "response"@,
            MessageModel::Notification(_) => "notification"@,
        }
    }

    /// The document a message is written as: the fields of its kind, and a
    /// `type` tag that no reader needs.
    pub open spec fn to_json(self) -> JsonModel {
        let tagged = Map::empty().insert("type"@, JsonModel::Text(self.message_type()));
        match self {
            MessageModel::Request(r) => JsonModel::Object(
                with_optional(
                    tagged.insert("jsonrpc"@, JsonModel::Text(r.jsonrpc)).insert(
                        "method"@,
                        JsonModel::Text(r.method),
                    ),
                    "params"@,
                    r.params,
                ).insert("id"@, id_json(r.id)),
            ),
            MessageModel::Response(r) => JsonModel::Object(
                with_optional(
                    with_optional(
                        tagged.insert("jsonrpc"@, JsonModel::Text(r.jsonrpc)).insert(
                            "id"@,
                            id_json(r.id),
                        ),
                        "result"@,
                        r.result,
                    ),
                    "error"@,
                    match r.error {
                        Some(e) => Some(error_json(e)),
                        None => None,
                    },
                ),
            ),
            MessageModel::Notification(n) => JsonModel::Object(
                with_optional(
                    tagged.insert("jsonrpc"@, JsonModel::Text(n.jsonrpc)).insert(
                        "method"@,
                        JsonModel::Text(n.method),
                    ),
                    "params"@,
                    n.params,
                ),
            ),
        }
    }

    /// The message that a document is read as. Which fields are present
    /// decides the kind, and nothing else does: `id` with `method` is a
    /// request, `id` with `result` or `error` a response, `method` without
    /// `id` a notification. Fields that no kind knows are passed over.
    pub open spec fn from_json(document: JsonModel) -> Result<MessageModel, DecodeError> {
        if !(document is Object) {
            Err(DecodeError::NotAnObject)
        } else if document.has("id"@) {
            if document.has("method"@) {
                match decode_request(document) {
                    Ok(r) => Ok(MessageModel::Request(r)),
                    Err(e) => Err(e),
                }
            } else if document.has("result"@) || document.has("error"@) {
                match decode_response(document) {
                    Ok(r) => Ok(MessageModel::Response(r)),
                    Err(e) => Err(e),
                }
            } else {
                Err(DecodeError::IdWithoutMethodOrResult)
            }
        } else if document.has("method"@) {
            match decode_notification(document) {
                Ok(n) => Ok(MessageModel::Notification(n)),
                Err(e) => Err(e),
            }
        } else {
            Err(DecodeError::MissingIdAndMethod)
        }
    }

    /// Whether a message can be told from its document: a response carries
    /// a result or an error.
    pub open spec fn well_formed(self) -> bool {
        match self {
            MessageModel::Response(r) => r.result is Some || r.error is Some,
            _ => true,
        }
    }
}

impl DecodeError {
    /// The rule that the document broke, in words.
    pub open spec fn text(self) -> Seq<char> {
        match self {
            DecodeError::NotAnObject => "invalid type: expected a valid JSON-RPC 2.0 message"@,
            DecodeError::IdWithoutMethodOrResult =>
                "invalid message: 'id' present without 'method' or 'result/error'"@,
            DecodeError::MissingIdAndMethod => "invalid message: missing 'id' and 'method'"@,
            DecodeError::InvalidVersion => "invalid message: 'jsonrpc' is not a string"@,
            DecodeError::InvalidMethod => "invalid message: 'method' is not a string"@,
            DecodeError::InvalidId => "invalid message: 'id' is neither an integer nor a string"@,
            DecodeError::InvalidError => "invalid message: 'error' is not an error object"@,
        }
    }

    /// The rule that the document broke, in words.
    pub fn message(self) -> (text: String)
        ensures
            text@ == self.text(),
    {
        match self {
            DecodeError::NotAnObject => "invalid type: expected a valid JSON-RPC 2.0 message".to_owned(),
            DecodeError::IdWithoutMethodOrResult =>
                "invalid message: 'id' present without 'method' or 'result/error'".to_owned(),
            DecodeError::MissingIdAndMethod => "invalid message: missing 'id' and 'method'".to_owned(),
            DecodeError::InvalidVersion => "invalid message: 'jsonrpc' is not a string".to_owned(),
            DecodeError::InvalidMethod => "invalid message: 'method' is not a string".to_owned(),
            DecodeError::InvalidId => "invalid message: 'id' is neither an integer nor a string".to_owned(),
            DecodeError::InvalidError => "invalid message: 'error' is not an error object".to_owned(),
        }
    }
}

/// Whether `r` is what a text is read as: the message that its document
/// is, where the text is JSON and the document a message, and else a
/// serialization error, which for a document that is no message names the
/// rule that the document broke.
pub open spec fn decodes_to(text: Seq<char>, r: Result<Message, ClientError>) -> bool {
    match r {
        Ok(m) => json_parsed(text) matches Some(document) && MessageModel::from_json(document)
            == Ok::<MessageModel, DecodeError>(m@),
        Err(e) => e is Serialization && (json_parsed(text) matches Some(document)
            ==> MessageModel::from_json(document) matches Err(rule) && e@
            == ClientErrorModel::Serialization(rule.text())),
    }
}

/// Builds the document of an identifier.
pub fn id_to_json(id: &RequestId) -> (document: JsonValue)
    ensures
        document@ == id_json(id@),
{
    match id {
        RequestId::Number(n) => JsonValue::Int(*n),
        RequestId::String(s) => JsonValue::Text(s.clone()),
    }
}

/// Builds the document of a response error.
pub fn error_to_json(error: &ResponseError) -> (document: JsonValue)
    ensures
        document@ == error_json(error@),
{
    let mut members: Vec<Member> = Vec::new();
    put(&mut members, "code", JsonValue::Int(error.code as i64));
    put(&mut members, "message", JsonValue::Text(error.message.clone()));
    match &error.data {
        Some(data) => {
            put(&mut members, "data", data.clone());
        },
        None => {},
    }
    JsonValue::Object(members)
}

/// Reads an identifier.
pub fn id_from_json(document: &JsonValue) -> (r: Result<RequestId, DecodeError>)
    ensures
        match r {
            Ok(id) => decode_id(document@) == Ok::<RequestIdModel, DecodeError>(id@),
            Err(e) => decode_id(document@) == Err::<RequestIdModel, DecodeError>(e),
        },
{
    match document.as_i64() {
        Some(n) => Ok(RequestId::Number(n)),
        None => match document.as_text() {
            Some(s) => Ok(RequestId::String(s.to_owned())),
            None => Err(DecodeError::InvalidId),
        },
    }
}

/// Reads the version tag of a message document.
fn version_from_json(document: &JsonValue) -> (r: Result<String, DecodeError>)
    ensures
        match r {
            Ok(v) => decode_version(document@) == Ok::<Seq<char>, DecodeError>(v@),
            Err(e) => decode_version(document@) == Err::<Seq<char>, DecodeError>(e),
        },
{
    match document.get("jsonrpc") {
        None => Ok(crate::JSONRPC_VERSION.to_owned()),
        Some(v) => match v.as_text() {
            Some(t) => Ok(t.to_owned()),
            None => Err(DecodeError::InvalidVersion),
        },
    }
}

/// Reads the method of a message document.
fn method_from_json(document: &JsonValue) -> (r: Result<String, DecodeError>)
    ensures
        match r {
            Ok(m) => decode_method(document@) == Ok::<Seq<char>, DecodeError>(m@),
            Err(e) => decode_method(document@) == Err::<Seq<char>, DecodeError>(e),
        },
{
    match document.get("method") {
        None => Err(DecodeError::InvalidMethod),
        Some(v) => match v.as_text() {
            Some(t) => Ok(t.to_owned()),
            None => Err(DecodeError::InvalidMethod),
        },
    }
}

/// Copies the value under `key`, if there is one.
fn optional_member(document: &JsonValue, key: &str) -> (value: Option<JsonValue>)
    ensures
        optional_model(value) == document@.member(key@),
{
    match document.get(key) {
        Some(v) => Some(v.clone()),
        None => None,
    }
}

/// Reads a response error.
pub fn error_from_json(document: &JsonValue) -> (r: Result<ResponseError, DecodeError>)
    ensures
        match r {
            Ok(error) => decode_error(document@) == Ok::<ResponseErrorModel, DecodeError>(error@),
            Err(e) => decode_error(document@) == Err::<ResponseErrorModel, DecodeError>(e),
        },
{
    let code = match document.get("code") {
        None => { return Err(DecodeError::InvalidError); },
        Some(v) => match v.as_i64() {
            None => { return Err(DecodeError::InvalidError); },
            Some(n) => n,
        },
    };
    let message = match document.get("message") {
        None => { return Err(DecodeError::InvalidError); },
        Some(v) => match v.as_text() {
            None => { return Err(DecodeError::InvalidError); },
            Some(t) => t.to_owned(),
        },
    };
    if code < -2147483648 || code > 2147483647 {
        return Err(DecodeError::InvalidError);
    }
    Ok(ResponseError { code: code as i32, message, data: optional_member(document, "data") })
}

impl Message {
    /// The tag that names the kind of this message on the wire.
    pub fn message_type(&self) -> (tag: &'static str)
        ensures
            tag@ == self@.message_type(),
    {
        match self {
            Message::Request(_) => "request",
            Message::Response(_) => "response",
            Message::Notification(_) => "notification",
        }
    }

    /// Builds the document that this message is written as.
    pub fn to_json(&self) -> (document: JsonValue)
        ensures
            document@ == self@.to_json(),
    {
        let mut members: Vec<Member> = Vec::new();
        put(&mut members, "type", JsonValue::text(self.message_type()));
        match self {
            Message::Request(r) => {
                put(&mut members, "jsonrpc", JsonValue::Text(r.jsonrpc.clone()));
                put(&mut members, "method", JsonValue::Text(r.method.clone()));
                match &r.params {
                    Some(params) => {
                        put(&mut members, "params", params.clone());
                    },
                    None => {},
                }
                put(&mut members, "id", id_to_json(&r.id));
            },
            Message::Response(r) => {
                put(&mut members, "jsonrpc", JsonValue::Text(r.jsonrpc.clone()));
                put(&mut members, "id", id_to_json(&r.id));
                match &r.result {
                    Some(result) => {
                        put(&mut members, "result", result.clone());
                    },
                    None => {},
                }
                match &r.error {
                    Some(error) => {
                        put(&mut members, "error", error_to_json(error));
                    },
                    None => {},
                }
            },
            Message::Notification(n) => {
                put(&mut members, "jsonrpc", JsonValue::Text(n.jsonrpc.clone()));
                put(&mut members, "method", JsonValue::Text(n.method.clone()));
                match &n.params {
                    Some(params) => {
                        put(&mut members, "params", params.clone());
                    },
                    None => {},
                }
            },
        }
        JsonValue::Object(members)
    }

    /// Reads a document as a message. Which fields are present decides the
    /// kind; a document that fits no kind is refused with the rule it broke.
    pub fn from_json(document: &JsonValue) -> (r: Result<Message, DecodeError>)
        ensures
            match r {
                Ok(m) => MessageModel::from_json(document@) == Ok::<MessageModel, DecodeError>(m@),
                Err(e) => MessageModel::from_json(document@) == Err::<MessageModel, DecodeError>(e),
            },
    {
        match document {
            JsonValue::Object(_) => {},
            _ => { return Err(DecodeError::NotAnObject); },
        }
        let has_method = document.get("method").is_some();
        match document.get("id") {
            Some(id_value) => {
                if has_method {
                    let jsonrpc = version_from_json(document)?;
                    let method = method_from_json(document)?;
                    let id = id_from_json(id_value)?;
                    let params = optional_member(document, "params");
                    Ok(Message::Request(Request { jsonrpc, method, params, id }))
                } else if document.get("result").is_some() || document.get("error").is_some() {
                    let jsonrpc = version_from_json(document)?;
                    let id = id_from_json(id_value)?;
                    let error = match document.get("error") {
                        None => None,
                        Some(e) => Some(error_from_json(e)?),
                    };
                    let result = optional_member(document, "result");
                    Ok(Message::Response(Response { jsonrpc, id, result, error }))
                } else {
                    Err(DecodeError::IdWithoutMethodOrResult)
                }
            },
            None => {
                if has_method {
                    let jsonrpc = version_from_json(document)?;
                    let method = method_from_json(document)?;
                    let params = optional_member(document, "params");
                    Ok(Message::Notification(Notification { jsonrpc, method, params }))
                } else {
                    Err(DecodeError::MissingIdAndMethod)
                }
            },
        }
    }

    /// Writes this message as one line of JSON text, without the line end.
    pub fn encode(&self) -> (r: Result<String, ClientError>)
        ensures
            r matches Ok(text) && text@ == json_text(self@.to_json()) && !text@.contains('\n')
                && !text@.contains('\r'),
    {
        let document = self.to_json();
        render(&document)
    }

    /// Reads a JSON text as a message. A text that is not JSON, and a
    /// document that is no message, are serialization errors; the latter
    /// names the rule that the document broke.
    pub fn decode(text: &str) -> (r: Result<Message, ClientError>)
        ensures
            decodes_to(text@, r),
    {
        let document = parse(text)?;
        match Message::from_json(&document) {
            Ok(m) => Ok(m),
            Err(rule) => Err(ClientError::Serialization(rule.message())),
        }
    }
}

/// The field names of the envelope differ from one another, and so do
/// those of an error object.
pub proof fn lemma_field_names_differ()
    ensures
        "type"@ != "jsonrpc"@,
        "type"@ != "method"@,
        "type"@ != "params"@,
        "type"@ != "id"@,
        "type"@ != "result"@,
        "type"@ != "error"@,
        "jsonrpc"@ != "method"@,
        "jsonrpc"@ != "params"@,
        "jsonrpc"@ != "id"@,
        "jsonrpc"@ != "result"@,
        "jsonrpc"@ != "error"@,
        "method"@ != "params"@,
        "method"@ != "id"@,
        "method"@ != "result"@,
        "method"@ != "error"@,
        "params"@ != "id"@,
        "id"@ != "result"@,
        "id"@ != "error"@,
        "result"@ != "error"@,
        "code"@ != "message"@,
        "code"@ != "data"@,
        "message"@ != "data"@,
{
    reveal_strlit("type");
    reveal_strlit("jsonrpc");
    reveal_strlit("method");
    reveal_strlit("params");
    reveal_strlit("id");
    reveal_strlit("result");
    reveal_strlit("error");
    reveal_strlit("code");
    reveal_strlit("message");
    reveal_strlit("data");
    assert("type"@.len() == 4 && "jsonrpc"@.len() == 7 && "method"@.len() == 6);
    assert("params"@.len() == 6 && "id"@.len() == 2 && "result"@.len() == 6);
    assert("error"@.len() == 5 && "code"@.len() == 4 && "message"@.len() == 7);
    assert("data"@.len() == 4);
    assert("method"@[0] != "params"@[0]);
    assert("method"@[0] != "result"@[0]);
    assert("code"@[0] != "data"@[0]);
}

/// Reading the document of a response error gives the error back.
pub proof fn lemma_error_round_trip(error: ResponseErrorModel)
    ensures
        decode_error(error_json(error)) == Ok::<ResponseErrorModel, DecodeError>(error),
{
    lemma_field_names_differ();
    let fields = Map::<Seq<char>, JsonModel>::empty().insert(
        "code"@,
        JsonModel::Integer(error.code as int),
    ).insert("message"@, JsonModel::Text(error.message));
    let document = error_json(error);
    assert(document == JsonModel::Object(with_optional(fields, "data"@, error.data)));
    assert(document.member("code"@) == Some(JsonModel::Integer(error.code as int)));
    assert(document.member("message"@) == Some(JsonModel::Text(error.message)));
    assert(document.member("data"@) == error.data);
}

/// Reading the document of an identifier gives the identifier back, a
/// number as a number and a string as a string.
pub proof fn lemma_id_round_trip(id: RequestIdModel)
    ensures
        decode_id(id_json(id)) == Ok::<RequestIdModel, DecodeError>(id),
{
}

/// Reading the document that a message is written as gives the
/// same message back, with the same kind of identifier and with each
/// optional field present or absent as it was. It holds of every request
/// and notification, and of every response that carries a result or an
/// error.
pub proof fn lemma_round_trip(message: MessageModel)
    requires
        message.well_formed(),
    ensures
        MessageModel::from_json(message.to_json()) == Ok::<MessageModel, DecodeError>(message),
{
    lemma_field_names_differ();
    let document = message.to_json();
    match message {
        MessageModel::Request(r) => {
            lemma_id_round_trip(r.id);
            assert(document.member("id"@) == Some(id_json(r.id)));
            assert(document.member("method"@) == Some(JsonModel::Text(r.method)));
            assert(document.member("jsonrpc"@) == Some(JsonModel::Text(r.jsonrpc)));
            assert(document.member("params"@) == r.params);
            assert(decode_request(document) == Ok::<RequestModel, DecodeError>(r));
        },
        MessageModel::Response(r) => {
            lemma_id_round_trip(r.id);
            assert(document.member("id"@) == Some(id_json(r.id)));
            assert(document.member("method"@) is None);
            assert(document.member("jsonrpc"@) == Some(JsonModel::Text(r.jsonrpc)));
            assert(document.member("result"@) == r.result);
            match r.error {
                Some(e) => {
                    lemma_error_round_trip(e);
                    assert(document.member("error"@) == Some(error_json(e)));
                },
                None => {
                    assert(document.member("error"@) is None);
                },
            }
            assert(decode_response(document) == Ok::<ResponseModel, DecodeError>(r));
        },
        MessageModel::Notification(n) => {
            assert(document.member("id"@) is None);
            assert(document.member("method"@) == Some(JsonModel::Text(n.method)));
            assert(document.member("jsonrpc"@) == Some(JsonModel::Text(n.jsonrpc)));
            assert(document.member("params"@) == n.params);
            assert(decode_notification(document) == Ok::<NotificationModel, DecodeError>(n));
        },
    }
}

/// Through text: where the text written for the document of a message is
/// read back as that document, reading the text that is written for a
/// message gives the message back. It holds of every request and
/// notification, and of every response that carries a result or an error.
pub proof fn lemma_text_round_trip(message: Message)
    requires
        message@.well_formed(),
    ensures
        json_parsed(json_text(message@.to_json())) == Some(message@.to_json()) ==> decodes_to(
            json_text(message@.to_json()),
            Ok(message),
        ),
{
    lemma_round_trip(message@);
}

/// The fields that are present decide how an object is
/// read. With `id` and `method` it is read as a request; with `id`, without
/// `method`, and with `result` or `error`, as a response; with `method` and
/// without `id`, as a notification. With `id` alone, or with neither `id`
/// nor `method`, it is no message. A document that is not an object is no
/// message either.
pub proof fn lemma_disambiguation(document: JsonModel)
    ensures
        document is Object && document.has("id"@) && document.has("method"@) ==> (
        match MessageModel::from_json(document) {
            Ok(m) => decode_request(document) == Ok::<RequestModel, DecodeError>(m->Request_0)
                && m is Request,
            Err(e) => decode_request(document) == Err::<RequestModel, DecodeError>(e),
        }),
        document is Object && document.has("id"@) && !document.has("method"@) && (document.has(
            "result"@,
        ) || document.has("error"@)) ==> (match MessageModel::from_json(document) {
            Ok(m) => decode_response(document) == Ok::<ResponseModel, DecodeError>(m->Response_0)
                && m is Response,
            Err(e) => decode_response(document) == Err::<ResponseModel, DecodeError>(e),
        }),
        document is Object && !document.has("id"@) && document.has("method"@) ==> (
        match MessageModel::from_json(document) {
            Ok(m) => decode_notification(document) == Ok::<NotificationModel, DecodeError>(
                m->Notification_0,
            ) && m is Notification,
            Err(e) => decode_notification(document) == Err::<NotificationModel, DecodeError>(e),
        }),
        document is Object && document.has("id"@) && !document.has("method"@) && !document.has(
            "result"@,
        ) && !document.has("error"@) ==> MessageModel::from_json(document) == Err::<
            MessageModel,
            DecodeError,
        >(DecodeError::IdWithoutMethodOrResult),
        document is Object && !document.has("id"@) && !document.has("method"@)
            ==> MessageModel::from_json(document) == Err::<MessageModel, DecodeError>(
            DecodeError::MissingIdAndMethod,
        ),
        !(document is Object) ==> MessageModel::from_json(document) == Err::<
            MessageModel,
            DecodeError,
        >(DecodeError::NotAnObject),
{
}

/// An object whose fields have the types of their kind is read, and read as
/// that kind: what else it holds does not matter.
pub proof fn lemma_typed_fields_decode(document: JsonModel)
    requires
        document is Object,
        document.member("jsonrpc"@) is None || document.member("jsonrpc"@)->0 is Text,
    ensures
        document.has("id"@) && document.has("method"@) && document.member("method"@)->0 is Text
            && decode_id(document.member("id"@)->0) is Ok ==> (MessageModel::from_json(document)
            matches Ok(m) && m is Request),
        document.has("id"@) && !document.has("method"@) && document.has("result"@)
            && !document.has("error"@) && decode_id(document.member("id"@)->0) is Ok ==> (
        MessageModel::from_json(document) matches Ok(m) && m is Response),
        document.has("id"@) && !document.has("method"@) && document.has("error"@) && decode_error(
            document.member("error"@)->0,
        ) is Ok && decode_id(document.member("id"@)->0) is Ok ==> (MessageModel::from_json(
            document,
        ) matches Ok(m) && m is Response),
        !document.has("id"@) && document.has("method"@) && document.member("method"@)->0 is Text
            ==> (MessageModel::from_json(document) matches Ok(m) && m is Notification),
{
}

} // verus!
