//! The errors that requests are answered with.

use vstd::prelude::*;

verus! {

/// The client has to authenticate first.
pub const AUTH_REQUIRED: i32 = -32000;

/// What the request speaks of does not exist.
pub const RESOURCE_NOT_FOUND: i32 = -32002;

/// The request's parameters are not valid.
pub const INVALID_PARAMS: i32 = -32602;

/// The agent failed.
pub const INTERNAL_ERROR: i32 = -32603;

/// More about an error: a text, or any other value in JSON.
pub enum ErrorData {
    Text(String),
    Json(String),
}

/// The model of [`ErrorData`].
pub enum ErrorDataView {
    Text(Seq<char>),
    Json(Seq<char>),
}

impl View for ErrorData {
    type V = ErrorDataView;

    open spec fn view(&self) -> ErrorDataView {
        match *self {
            ErrorData::Text(text) => ErrorDataView::Text(text@),
            ErrorData::Json(json) => ErrorDataView::Json(json@),
        }
    }
}

/// An error as the protocol reports it.
pub struct Error {
    pub code: i32,
    pub message: String,
    pub data: Option<ErrorData>,
}

/// The model of [`Error`].
pub struct ErrorView {
    pub code: i32,
    pub message: Seq<char>,
    pub data: Option<ErrorDataView>,
}

impl View for Error {
    type V = ErrorView;

    open spec fn view(&self) -> ErrorView {
        ErrorView {
            code: self.code,
            message: self.message@,
            data: match self.data {
                Some(data) => Some(data@),
                None => None,
            },
        }
    }
}

/// Authentication is required.
pub open spec fn auth_required_error() -> ErrorView {
    ErrorView { code: AUTH_REQUIRED, message: "Authentication required"@, data: None }
}

/// What the request speaks of does not exist.
pub open spec fn not_found_error() -> ErrorView {
    ErrorView { code: RESOURCE_NOT_FOUND, message: "Resource not found"@, data: None }
}

/// The parameters are not valid, for the given reason.
pub open spec fn invalid_params_error(reason: Seq<char>) -> ErrorView {
    ErrorView {
        code: INVALID_PARAMS,
        message: "Invalid params"@,
        data: Some(ErrorDataView::Text(reason)),
    }
}

/// The agent failed, for a reason that is not told.
pub open spec fn plain_internal_error() -> ErrorView {
    ErrorView { code: INTERNAL_ERROR, message: "Internal error"@, data: None }
}

/// The agent failed, for the given reason.
pub open spec fn internal_error_with(reason: Seq<char>) -> ErrorView {
    ErrorView {
        code: INTERNAL_ERROR,
        message: "Internal error"@,
        data: Some(ErrorDataView::Text(reason)),
    }
}

/// `agent_client_protocol::Error::auth_required`: the code and the message of
/// the protocol's error for a client that has not authenticated.
#[verifier::external_body]
fn protocol_auth_required() -> (parts: (i32, String))
    ensures
        parts.0 == AUTH_REQUIRED,
        parts.1@ == "Authentication required"@,
{
    let error = agent_client_protocol::Error::auth_required();
    (i32::from(error.code), error.message)
}

/// `agent_client_protocol::Error::resource_not_found` without a location: the
/// code and the message of the protocol's error for what does not exist.
#[verifier::external_body]
fn protocol_resource_not_found() -> (parts: (i32, String))
    ensures
        parts.0 == RESOURCE_NOT_FOUND,
        parts.1@ == "Resource not found"@,
{
    let error = agent_client_protocol::Error::resource_not_found(None);
    (i32::from(error.code), error.message)
}

/// `agent_client_protocol::Error::invalid_params`: the code and the message of
/// the protocol's error for parameters that are not valid.
#[verifier::external_body]
fn protocol_invalid_params() -> (parts: (i32, String))
    ensures
        parts.0 == INVALID_PARAMS,
        parts.1@ == "Invalid params"@,
{
    let error = agent_client_protocol::Error::invalid_params();
    (i32::from(error.code), error.message)
}

/// `agent_client_protocol::Error::internal_error`: the code and the message of
/// the protocol's error for a failure of the agent.
#[verifier::external_body]
fn protocol_internal_error() -> (parts: (i32, String))
    ensures
        parts.0 == INTERNAL_ERROR,
        parts.1@ == "Internal error"@,
{
    let error = agent_client_protocol::Error::internal_error();
    (i32::from(error.code), error.message)
}

impl Error {
    /// Authentication is required.
    pub fn auth_required() -> (error: Error)
        ensures
            error@ == auth_required_error(),
    {
        let (code, message) = protocol_auth_required();
        Error { code, message, data: None }
    }

    /// What the request speaks of does not exist.
    pub fn resource_not_found() -> (error: Error)
        ensures
            error@ == not_found_error(),
    {
        let (code, message) = protocol_resource_not_found();
        Error { code, message, data: None }
    }

    /// The parameters are not valid, for the given reason.
    pub fn invalid_params(reason: String) -> (error: Error)
        ensures
            error@ == invalid_params_error(reason@),
    {
        let (code, message) = protocol_invalid_params();
        Error { code, message, data: Some(ErrorData::Text(reason)) }
    }

    /// The agent failed, for a reason that is not told.
    pub fn internal_error() -> (error: Error)
        ensures
            error@ == plain_internal_error(),
    {
        let (code, message) = protocol_internal_error();
        Error { code, message, data: None }
    }

    /// The agent failed at what the context says, for the given reason.
    pub(crate) fn failed(context: &str, reason: &String) -> (error: Error)
        ensures
            error@ == internal_error_with(context@ + reason@),
    {
        let mut text: String = context.to_string();
        text.append(reason.as_str());
        Error::into_internal_error(text)
    }

    /// The agent failed, for the given reason.
    pub fn into_internal_error(reason: String) -> (error: Error)
        ensures
            error@ == internal_error_with(reason@),
    {
        let (code, message) = protocol_internal_error();
        Error { code, message, data: Some(ErrorData::Text(reason)) }
    }
}

} // verus!
