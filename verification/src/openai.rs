//! The adapter for OpenAI's chat-completion API.
use vstd::prelude::*;
use vstd::string::StringExecFns;
use crate::chat::{
    ChatRequest, answer_to, build_chat_request, conversation, extract_text, first_choice,
    first_content, format_view, messages_view, requested_format,
};
use crate::decode::{json_text_value, parse_json};
use crate::response::{interpret, normalized};
use crate::types::{
    ErrorModel, FaultModel, LlmError, LlmGenerateRequest, LlmGenerateResponse, LlmSpec,
    OutputFormat, ProtocolFault, ResponseModel, ToJsonSchemaOptions, outcome_view, text_view,
};

verus! {

/// A client for one OpenAI model.
#[derive(Debug)]
pub struct Client {
    model: String,
    api_key: String,
}

/// The message that refuses a custom address.
pub open spec fn custom_address_refusal(address: Seq<char>) -> Seq<char> {
    "OpenAI doesn't support custom API address: "@ + address
}

/// The descriptor of what this backend's schema engine honours.
pub open spec fn capabilities() -> ToJsonSchemaOptions {
    ToJsonSchemaOptions {
        fields_always_required: true,
        supports_format: false,
        extract_descriptions: false,
        top_level_must_be_object: true,
    }
}

/// The answer for the choices that came back: the first choice's content,
/// read as JSON where a schema was asked for and the content can be read
/// so; a fault where there is no content.
pub open spec fn answer_from_choices(choices: Seq<Option<String>>, structured: bool) -> Result<
    ResponseModel,
    ErrorModel,
> {
    match first_content(choices) {
        Some(t) => Ok(normalized(t, structured, json_text_value(t))),
        None => Err(ErrorModel::Protocol(FaultModel::NoContent)),
    }
}

impl Client {
    /// The model that this client talks to.
    pub closed spec fn model(&self) -> Seq<char> {
        self.model@
    }

    /// The credential that this client sends.
    pub closed spec fn api_key(&self) -> Seq<char> {
        self.api_key@
    }

    /// A client for `spec.model` with the credential found in the
    /// configuration under `OPENAI_API_KEY`. A custom address is refused;
    /// without a credential there is no client.
    pub fn new(spec: LlmSpec, api_key: Option<String>) -> (r: Result<Client, LlmError>)
        ensures
            match (spec.address, api_key) {
                (Some(address), _) => r matches Err(e) && e@ == ErrorModel::Configuration(
                    custom_address_refusal(address@),
                ),
                (None, None) => r matches Err(e) && e@ == ErrorModel::Configuration(
                    "OPENAI_API_KEY environment variable must be set"@,
                ),
                (None, Some(key)) => r matches Ok(c) && c.model() == spec.model@ && c.api_key()
                    == key@,
            },
    {
        match &spec.address {
            Some(address) => {
                let mut message = String::from_str("OpenAI doesn't support custom API address: ");
                message.append(address.as_str());
                return Err(LlmError::Configuration(message));
            },
            None => {},
        }
        match api_key {
            Some(key) => Ok(Client { model: spec.model, api_key: key }),
            None => Err(
                LlmError::Configuration(
                    String::from_str("OPENAI_API_KEY environment variable must be set"),
                ),
            ),
        }
    }

    /// The credential, for the transport.
    pub fn credential(&self) -> (r: &str)
        ensures
            r@ == self.api_key(),
    {
        self.api_key.as_str()
    }

    /// The chat-completion request for `request`.
    pub fn build_request(&self, request: &LlmGenerateRequest) -> (r: ChatRequest)
        ensures
            r.model@ == self.model(),
            messages_view(r.messages@) == conversation(
                request.user_prompt@,
                text_view(request.system_prompt),
            ),
            format_view(r.response_format) == requested_format(request.output_format),
    {
        build_chat_request(self.model.as_str(), request)
    }

    /// The answer to a call from the contents of the choices that came back,
    /// in their order.
    pub fn parse_choices(&self, choices: &Vec<Option<String>>, format: &Option<OutputFormat>) -> (r:
        Result<LlmGenerateResponse, LlmError>)
        ensures
            outcome_view(r) == answer_from_choices(choices@, format.is_some()),
    {
        match first_choice(choices) {
            Ok(text) => Ok(interpret(text, format)),
            Err(fault) => Err(LlmError::Protocol(fault)),
        }
    }

    /// The answer to a call from the text of the body that came back. Where
    /// a schema was asked for, the generated text is read as JSON if it can
    /// be.
    pub fn parse_response(&self, body: &str, format: &Option<OutputFormat>) -> (r: Result<
        LlmGenerateResponse,
        LlmError,
    >)
        ensures
            outcome_view(r) == answer_to(json_text_value(body@), format.is_some()),
    {
        match parse_json(body) {
            None => Err(LlmError::Protocol(ProtocolFault::MalformedBody)),
            Some(doc) => match extract_text(&doc) {
                Err(fault) => Err(LlmError::Protocol(fault)),
                Ok(text) => Ok(interpret(text, format)),
            },
        }
    }

    /// What this backend's schema engine honours. The same for every client,
    /// at every call.
    pub fn json_schema_options(&self) -> (r: ToJsonSchemaOptions)
        ensures
            r == capabilities(),
    {
        ToJsonSchemaOptions {
            fields_always_required: true,
            supports_format: false,
            extract_descriptions: false,
            top_level_must_be_object: true,
        }
    }
}

} // verus!
