//! The errors that a session reports, and the JSON-RPC error codes.

use vstd::prelude::*;
use vstd::string::StringExecFns;
use crate::json::{JsonModel, JsonValue};

verus! {

/// The kind of a JSON-RPC error, as its numeric code tells it.
#[derive(Clone, Copy, Debug, PartialEq, Eq, Structural)]
pub enum ErrorCode {
    ParseError,
    InvalidRequest,
    MethodNotFound,
    InvalidParams,
    InternalError,
    ServerNotInitialized,
    UnknownErrorCode,
    RequestFailed,
}

impl ErrorCode {
    /// The kind that a numeric code stands for; a code that names no kind is
    /// `UnknownErrorCode`.
    pub open spec fn of(code: int) -> ErrorCode {
        if code == -32700 {
            ErrorCode::ParseError
        } else if code == -32600 {
            ErrorCode::InvalidRequest
        } else if code == -32601 {
            ErrorCode::MethodNotFound
        } else if code == -32602 {
            ErrorCode::InvalidParams
        } else if code == -32603 {
            ErrorCode::InternalError
        } else if code == -32002 {
            ErrorCode::ServerNotInitialized
        } else if code == -32000 {
            ErrorCode::RequestFailed
        } else {
            ErrorCode::UnknownErrorCode
        }
    }

    /// The numeric code of a kind.
    pub open spec fn number(self) -> int {
        match self {
            ErrorCode::ParseError => -32700,
            ErrorCode::InvalidRequest => -32600,
            ErrorCode::MethodNotFound => -32601,
            ErrorCode::InvalidParams => -32602,
            ErrorCode::InternalError => -32603,
            ErrorCode::ServerNotInitialized => -32002,
            ErrorCode::UnknownErrorCode => -32001,
            ErrorCode::RequestFailed => -32000,
        }
    }

    /// Classifies a numeric code.
    pub fn from_code(code: i32) -> (kind: ErrorCode)
        ensures
            kind == ErrorCode::of(code as int),
    {
        if code == -32700 {
            ErrorCode::ParseError
        } else if code == -32600 {
            ErrorCode::InvalidRequest
        } else if code == -32601 {
            ErrorCode::MethodNotFound
        } else if code == -32602 {
            ErrorCode::InvalidParams
        } else if code == -32603 {
            ErrorCode::InternalError
        } else if code == -32002 {
            ErrorCode::ServerNotInitialized
        } else if code == -32000 {
            ErrorCode::RequestFailed
        } else {
            ErrorCode::UnknownErrorCode
        }
    }

    /// The numeric code that goes on the wire for this kind.
    pub fn code(self) -> (code: i32)
        ensures
            code == self.number(),
    {
        match self {
            ErrorCode::ParseError => -32700,
            ErrorCode::InvalidRequest => -32600,
            ErrorCode::MethodNotFound => -32601,
            ErrorCode::InvalidParams => -32602,
            ErrorCode::InternalError => -32603,
            ErrorCode::ServerNotInitialized => -32002,
            ErrorCode::UnknownErrorCode => -32001,
            ErrorCode::RequestFailed => -32000,
        }
    }
}

/// Every kind is the kind of its own numeric code.
pub proof fn lemma_code_names_its_kind(kind: ErrorCode)
    ensures
        ErrorCode::of(kind.number()) == kind,
{
}

/// A code outside the eight that the protocol names is of unknown kind.
pub proof fn lemma_unnamed_code_is_unknown(code: int)
    requires
        code != -32700,
        code != -32600,
        code != -32601,
        code != -32602,
        code != -32603,
        code != -32002,
        code != -32000,
    ensures
        ErrorCode::of(code) == ErrorCode::UnknownErrorCode,
{
}

/// What went wrong in an operation of the client.
#[derive(Debug, PartialEq, Eq)]
pub enum ClientError {
    /// The server answered with a JSON-RPC error, or the session failed in a
    /// way that the protocol reports as one.
    Protocol { code: i32, message: String, data: Option<JsonValue> },
    /// A message could not be written as JSON, or a text could not be read
    /// as the message or result that was expected.
    Serialization(String),
    /// A process could not be started, or one of its pipes failed.
    Io(String),
    /// No response came within the time allowed for a request.
    Timeout { method: String },
    /// The server process ended while a request was waiting for its response.
    ProcessExited { status: String },
    /// The state of the server process could not be read.
    ProcessUnknown { reason: String },
    /// A tool ran and reported failure.
    ToolExecutionFailed { tool: String, message: String },
    /// Anything else.
    Other(String),
}

/// A `ClientError` as the mathematical value that contracts speak of.
pub enum ClientErrorModel {
    Protocol { code: int, message: Seq<char>, data: Option<JsonModel> },
    Serialization(Seq<char>),
    Io(Seq<char>),
    Timeout { method: Seq<char> },
    ProcessExited { status: Seq<char> },
    ProcessUnknown { reason: Seq<char> },
    ToolExecutionFailed { tool: Seq<char>, message: Seq<char> },
    Other(Seq<char>),
}

impl View for ClientError {
    type V = ClientErrorModel;

    open spec fn view(&self) -> ClientErrorModel {
        match *self {
            ClientError::Protocol { code, message, data } => ClientErrorModel::Protocol {
                code: code as int,
                message: message@,
                data: match data {
                    Some(d) => Some(d@),
                    None => None,
                },
            },
            ClientError::Serialization(text) => ClientErrorModel::Serialization(text@),
            ClientError::Io(text) => ClientErrorModel::Io(text@),
            ClientError::Timeout { method } => ClientErrorModel::Timeout { method: method@ },
            ClientError::ProcessExited { status } => ClientErrorModel::ProcessExited { status: status@ },
            ClientError::ProcessUnknown { reason } => ClientErrorModel::ProcessUnknown { reason: reason@ },
            ClientError::ToolExecutionFailed { tool, message } => ClientErrorModel::ToolExecutionFailed {
                tool: tool@,
                message: message@,
            },
            ClientError::Other(text) => ClientErrorModel::Other(text@),
        }
    }
}

impl Clone for ClientError {
    fn clone(&self) -> (copy: ClientError)
        ensures
            copy@ == self@,
    {
        match self {
            ClientError::Protocol { code, message, data } => ClientError::Protocol {
                code: *code,
                message: message.clone(),
                data: match data {
                    Some(d) => Some(d.clone()),
                    None => None,
                },
            },
            ClientError::Serialization(text) => ClientError::Serialization(text.clone()),
            ClientError::Io(text) => ClientError::Io(text.clone()),
            ClientError::Timeout { method } => ClientError::Timeout { method: method.clone() },
            ClientError::ProcessExited { status } => ClientError::ProcessExited {
                status: status.clone(),
            },
            ClientError::ProcessUnknown { reason } => ClientError::ProcessUnknown {
                reason: reason.clone(),
            },
            ClientError::ToolExecutionFailed { tool, message } => ClientError::ToolExecutionFailed {
                tool: tool.clone(),
                message: message.clone(),
            },
            ClientError::Other(text) => ClientError::Other(text.clone()),
        }
    }
}

/// The error of a result that is not of the shape its operation returns.
pub open spec fn unexpected_shape() -> ClientErrorModel {
    ClientErrorModel::Serialization("result is not of the expected shape"@)
}

impl ClientErrorModel {
    /// The error in words.
    pub open spec fn text(self) -> Seq<char> {
        match self {
            ClientErrorModel::Protocol { message, .. } => "Protocol error: "@ + message,
            ClientErrorModel::Serialization(text) => "Serialization error: "@ + text,
            ClientErrorModel::Io(text) => "I/O error: "@ + text,
            ClientErrorModel::Timeout { method } => "Request to '"@ + method + "' timed out"@,
            ClientErrorModel::ProcessExited { status } => "Process exited with status: "@ + status,
            ClientErrorModel::ProcessUnknown { reason } => "Error checking process status: "@
                + reason,
            ClientErrorModel::ToolExecutionFailed { tool, message } => "Tool '"@ + tool
                + "' execution failed: "@ + message,
            ClientErrorModel::Other(text) => text,
        }
    }

    /// The kind of a protocol error.
    pub open spec fn kind(self) -> Option<ErrorCode> {
        match self {
            ClientErrorModel::Protocol { code, .. } => Some(ErrorCode::of(code)),
            _ => None,
        }
    }
}

impl ClientError {
    /// A protocol error of the given kind, without data.
    pub fn protocol(kind: ErrorCode, message: &str) -> (e: ClientError)
        ensures
            e@ == (ClientErrorModel::Protocol { code: kind.number(), message: message@, data: None }),
    {
        ClientError::Protocol { code: kind.code(), message: message.to_owned(), data: None }
    }

    /// The error in words.
    pub fn describe(&self) -> (text: String)
        ensures
            text@ == self@.text(),
    {
        match self {
            ClientError::Protocol { message, .. } => {
                let mut text = "Protocol error: ".to_owned();
                text.append(message.as_str());
                text
            },
            ClientError::Serialization(detail) => {
                let mut text = "Serialization error: ".to_owned();
                text.append(detail.as_str());
                text
            },
            ClientError::Io(detail) => {
                let mut text = "I/O error: ".to_owned();
                text.append(detail.as_str());
                text
            },
            ClientError::Timeout { method } => {
                let mut text = "Request to '".to_owned();
                text.append(method.as_str());
                text.append("' timed out");
                text
            },
            ClientError::ProcessExited { status } => {
                let mut text = "Process exited with status: ".to_owned();
                text.append(status.as_str());
                text
            },
            ClientError::ProcessUnknown { reason } => {
                let mut text = "Error checking process status: ".to_owned();
                text.append(reason.as_str());
                text
            },
            ClientError::ToolExecutionFailed { tool, message } => {
                let mut text = "Tool '".to_owned();
                text.append(tool.as_str());
                text.append("' execution failed: ");
                text.append(message.as_str());
                text
            },
            ClientError::Other(detail) => detail.clone(),
        }
    }

    /// The error for a result that is not of the shape its operation
    /// returns.
    pub fn unexpected_shape() -> (e: ClientError)
        ensures
            e@ == unexpected_shape(),
    {
        ClientError::Serialization("result is not of the expected shape".to_owned())
    }

    /// The kind of a protocol error; `None` for every other error.
    pub fn kind(&self) -> (kind: Option<ErrorCode>)
        ensures
            kind == self@.kind(),
    {
        match self {
            ClientError::Protocol { code, .. } => Some(ErrorCode::from_code(*code)),
            _ => None,
        }
    }
}

} // verus!
