//! The backend-independent description of a request, of what comes back,
//! and of what can go wrong.
use vstd::prelude::*;
use crate::json::{Json, JsonModel};

verus! {

/// Which model to talk to, and where.
#[derive(Debug, PartialEq, Eq)]
pub struct LlmSpec {
    pub model: String,
    pub address: Option<String>,
}

/// The shape that the answer is asked to have.
#[derive(Debug, PartialEq, Eq)]
pub enum OutputFormat {
    JsonSchema { name: String, schema: Json },
}

/// One request for generated text.
#[derive(Debug, PartialEq, Eq)]
pub struct LlmGenerateRequest {
    pub user_prompt: String,
    pub system_prompt: Option<String>,
    pub output_format: Option<OutputFormat>,
}

/// What a backend's structured-output engine honours.
#[derive(Clone, Copy, Debug, PartialEq, Eq, Structural)]
pub struct ToJsonSchemaOptions {
    pub fields_always_required: bool,
    pub supports_format: bool,
    pub extract_descriptions: bool,
    pub top_level_must_be_object: bool,
}

/// The value of a normalised answer.
pub enum ResponseModel {
    Text(Seq<char>),
    Json(JsonModel),
}

/// A normalised answer: plain text, or the document that the text held.
#[derive(Debug, PartialEq, Eq)]
pub enum LlmGenerateResponse {
    Text(String),
    Json(Json),
}

impl View for LlmGenerateResponse {
    type V = ResponseModel;

    open spec fn view(&self) -> ResponseModel {
        match self {
            LlmGenerateResponse::Text(s) => ResponseModel::Text(s@),
            LlmGenerateResponse::Json(j) => ResponseModel::Json(j@),
        }
    }
}

/// The value of a `ProtocolFault`.
pub enum FaultModel {
    MalformedBody,
    Reported(JsonModel),
    NoContent,
}

/// How a backend's answer broke the expected envelope.
#[derive(Debug, PartialEq, Eq)]
pub enum ProtocolFault {
    /// The body is no JSON.
    MalformedBody,
    /// The body carries the backend's own error object, kept as it came.
    Reported(Json),
    /// The body holds no generated text where it belongs.
    NoContent,
}

impl View for ProtocolFault {
    type V = FaultModel;

    open spec fn view(&self) -> FaultModel {
        match self {
            ProtocolFault::MalformedBody => FaultModel::MalformedBody,
            ProtocolFault::Reported(j) => FaultModel::Reported(j@),
            ProtocolFault::NoContent => FaultModel::NoContent,
        }
    }
}

/// The value of an `LlmError`.
pub enum ErrorModel {
    Configuration(Seq<char>),
    Transport(Seq<char>),
    Protocol(FaultModel),
}

/// Why a client could not be made or a call gave no answer.
#[derive(Debug, PartialEq, Eq)]
pub enum LlmError {
    /// A credential is missing or an option is not supported; the message
    /// says which.
    Configuration(String),
    /// The connection failed; the message is the transport's.
    Transport(String),
    /// The backend answered, but not with what was expected.
    Protocol(ProtocolFault),
}

impl View for LlmError {
    type V = ErrorModel;

    open spec fn view(&self) -> ErrorModel {
        match self {
            LlmError::Configuration(m) => ErrorModel::Configuration(m@),
            LlmError::Transport(m) => ErrorModel::Transport(m@),
            LlmError::Protocol(f) => ErrorModel::Protocol(f@),
        }
    }
}

/// The value of the outcome of a call.
pub open spec fn outcome_view(r: Result<LlmGenerateResponse, LlmError>) -> Result<
    ResponseModel,
    ErrorModel,
> {
    match r {
        Ok(v) => Ok(v@),
        Err(e) => Err(e@),
    }
}

/// The schema that a request asks for, if it asks for one.
pub open spec fn requested_schema(format: Option<OutputFormat>) -> Option<JsonModel> {
    match format {
        Some(OutputFormat::JsonSchema { name, schema }) => Some(schema@),
        None => None,
    }
}

/// The text behind an optional string.
pub open spec fn text_view(s: Option<String>) -> Option<Seq<char>> {
    match s {
        Some(t) => Some(t@),
        None => None,
    }
}

} // verus!
