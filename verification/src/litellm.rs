//! The adapter for a LiteLLM proxy, which speaks the chat-completion
//! protocol at an address of its own.
use vstd::prelude::*;
use vstd::string::StringExecFns;
use crate::chat::{
    ChatRequest, answer_to, build_chat_request, conversation, extract_text, first_choice,
    first_content, format_view, messages_view, requested_format,
};
use crate::decode::{json_text_value, parse_json};
use crate::types::{
    ErrorModel, FaultModel, LlmError, LlmGenerateRequest, LlmGenerateResponse, LlmSpec,
    ProtocolFault, ResponseModel, ToJsonSchemaOptions, outcome_view, text_view,
};

verus! {

/// A client for one model behind a LiteLLM proxy.
#[derive(Debug)]
pub struct Client {
    model: String,
    address: String,
    api_key: String,
}

/// Where the proxy listens unless told otherwise.
pub const LITELLM_DEFAULT_ADDRESS: &'static str = "http://0.0.0.0:4000";

/// `given`, or `fallback` where nothing is given.
pub open spec fn or_default(given: Option<Seq<char>>, fallback: Seq<char>) -> Seq<char> {
    match given {
        Some(s) => s,
        None => fallback,
    }
}

/// The descriptor of what this backend's schema engine honours.
pub open spec fn capabilities() -> ToJsonSchemaOptions {
    ToJsonSchemaOptions {
        fields_always_required: true,
        supports_format: false,
        extract_descriptions: false,
        top_level_must_be_object: true,
    }
}

/// The answer for the choices that came back: the first choice's content as
/// text; a fault where there is no content.
pub open spec fn answer_from_choices(choices: Seq<Option<String>>) -> Result<
    ResponseModel,
    ErrorModel,
> {
    match first_content(choices) {
        Some(t) => Ok(ResponseModel::Text(t)),
        None => Err(ErrorModel::Protocol(FaultModel::NoContent)),
    }
}

impl Client {
    /// The model that this client talks to.
    pub closed spec fn model(&self) -> Seq<char> {
        self.model@
    }

    /// The address of the proxy.
    pub closed spec fn address(&self) -> Seq<char> {
        self.address@
    }

    /// The credential that this client sends.
    pub closed spec fn api_key(&self) -> Seq<char> {
        self.api_key@
    }

    /// A client for `spec.model` behind the proxy at `spec.address`, or at
    /// the default address, with the credential found in the configuration
    /// under `LITELLM_API_KEY`. Without a credential there is no client.
    pub fn new(spec: LlmSpec, api_key: Option<String>) -> (r: Result<Client, LlmError>)
        ensures
            match api_key {
                Some(key) => r matches Ok(c) && c.model() == spec.model@ && c.address()
                    == or_default(text_view(spec.address), LITELLM_DEFAULT_ADDRESS@)
                    && c.api_key() == key@,
                None => r matches Err(e) && e@ == ErrorModel::Configuration(
                    "LITELLM_API_KEY environment variable must be set"@,
                ),
            },
    {
        let key = match api_key {
            Some(k) => k,
            None => {
                return Err(
                    LlmError::Configuration(
                        String::from_str("LITELLM_API_KEY environment variable must be set"),
                    ),
                );
            },
        };
        let address = match spec.address {
            Some(a) => a,
            None => String::from_str(LITELLM_DEFAULT_ADDRESS),
        };
        Ok(Client { model: spec.model, address, api_key: key })
    }

    /// The address of the proxy, for the transport.
    pub fn base_address(&self) -> (r: &str)
        ensures
            r@ == self.address(),
    {
        self.address.as_str()
    }

    /// The credential, for the transport.
    pub fn credential(&self) -> (r: &str)
        ensures
            r@ == self.api_key(),
    {
        self.api_key.as_str()
    }

    /// The chat-completion request for `request`.
    pub fn build_request(&self, request: &LlmGenerateRequest) -> (r: ChatRequest)
        ensures
            r.model@ == self.model(),
            messages_view(r.messages@) == conversation(
                request.user_prompt@,
                text_view(request.system_prompt),
            ),
            format_view(r.response_format) == requested_format(request.output_format),
    {
        build_chat_request(self.model.as_str(), request)
    }

    /// The answer to a call from the contents of the choices that came back,
    /// in their order. The content is handed on as text, also where a
    /// schema was asked for.
    pub fn parse_choices(&self, choices: &Vec<Option<String>>) -> (r: Result<
        LlmGenerateResponse,
        LlmError,
    >)
        ensures
            outcome_view(r) == answer_from_choices(choices@),
    {
        match first_choice(choices) {
            Ok(text) => Ok(LlmGenerateResponse::Text(text)),
            Err(fault) => Err(LlmError::Protocol(fault)),
        }
    }

    /// The answer to a call from the text of the body that came back. The
    /// generated text is handed on as text, also where a schema was asked
    /// for.
    pub fn parse_response(&self, body: &str) -> (r: Result<LlmGenerateResponse, LlmError>)
        ensures
            outcome_view(r) == answer_to(json_text_value(body@), false),
    {
        match parse_json(body) {
            None => Err(LlmError::Protocol(ProtocolFault::MalformedBody)),
            Some(doc) => match extract_text(&doc) {
                Err(fault) => Err(LlmError::Protocol(fault)),
                Ok(text) => Ok(LlmGenerateResponse::Text(text)),
            },
        }
    }

    /// What this backend's schema engine honours. The same for every client,
    /// at every call.
    pub fn json_schema_options(&self) -> (r: ToJsonSchemaOptions)
        ensures
            r == capabilities(),
    {
        ToJsonSchemaOptions {
            fields_always_required: true,
            supports_format: false,
            extract_descriptions: false,
            top_level_must_be_object: true,
        }
    }
}

} // verus!
