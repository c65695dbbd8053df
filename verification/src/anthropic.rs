//! The adapter for Anthropic's messages API.
use vstd::prelude::*;
use vstd::string::StringExecFns;
use vstd::utf8::encode_utf8;
use crate::json::{
    Json, JsonModel, element_in, element_of, member_in, member_of, push_item, push_member, text_in,
    text_of,
};
use crate::decode::{json_text_value, parse_json};
use crate::envelope::{
    answer, check_reported_error, extraction, extraction_view, reported_error, require_content,
};
use crate::http::{HttpRequest, headers_view, push_header};
use crate::response::interpret;
use crate::types::{
    ErrorModel, FaultModel, LlmError, LlmGenerateRequest, LlmGenerateResponse, LlmSpec,
    OutputFormat, ProtocolFault, ResponseModel, ToJsonSchemaOptions, outcome_view,
    requested_schema, text_view,
};

verus! {

/// Bytes that percent-encoding leaves as they are: ASCII letters and digits,
/// `-`, `.`, `_` and `~`.
pub open spec fn is_unreserved(b: u8) -> bool {
    (0x30 <= b <= 0x39) || (0x41 <= b <= 0x5a) || (0x61 <= b <= 0x7a) || b == 0x2d || b == 0x2e
        || b == 0x5f || b == 0x7e
}

/// The upper-case hexadecimal digit for a value below sixteen.
pub open spec fn hex_digit(d: u8) -> char {
    if d < 10 {
        ((0x30 + d) as u8) as char
    } else {
        ((0x41 + d - 10) as u8) as char
    }
}

/// One byte, percent-encoded.
pub open spec fn encoded_byte(b: u8) -> Seq<char> {
    if is_unreserved(b) {
        seq![b as char]
    } else {
        seq!['%', hex_digit(b / 16), hex_digit(b % 16)]
    }
}

/// A run of bytes, percent-encoded byte by byte.
pub open spec fn percent_encoded(bytes: Seq<u8>) -> Seq<char>
    decreases bytes.len(),
{
    if bytes.len() == 0 {
        Seq::empty()
    } else {
        percent_encoded(bytes.drop_last()) + encoded_byte(bytes.last())
    }
}

/// Calls `urlencoding::encode`, which percent-encodes every byte of the
/// text's UTF-8 form except ASCII letters, digits, `-`, `.`, `_` and `~`,
/// with upper-case hexadecimal digits.
#[verifier::external_body]
fn percent_encode(text: &str) -> (r: String)
    ensures
        r@ == percent_encoded(encode_utf8(text@)),
{
    urlencoding::encode(text).into_owned()
}

/// A client for one Anthropic model.
#[derive(Debug)]
pub struct Client {
    model: String,
    api_key: String,
}

/// The address that every request goes to.
pub open spec fn endpoint() -> Seq<char> {
    "https://api.anthropic.com/v1/messages"@
}

/// The message that carries the user's prompt.
pub open spec fn user_message(prompt: Seq<char>) -> JsonModel {
    JsonModel::Object(
        Seq::empty().push(("role"@, JsonModel::Str("user"@))).push(
            ("content"@, JsonModel::Str(prompt)),
        ),
    )
}

/// The tool whose input the answer is to be, with the requested schema.
pub open spec fn report_tool(schema: JsonModel) -> JsonModel {
    JsonModel::Object(
        Seq::empty().push(("type"@, JsonModel::Str("custom"@))).push(
            ("name"@, JsonModel::Str("report_result"@)),
        ).push(("input_schema"@, schema)),
    )
}

/// The body of a request: the model, the one user message, the token limit,
/// the system prompt as a top-level field where there is one, and, where a
/// schema is asked for, the tool that wraps it. A request for free text
/// names no tool.
pub open spec fn payload(
    model: Seq<char>,
    user_prompt: Seq<char>,
    system_prompt: Option<Seq<char>>,
    schema: Option<JsonModel>,
) -> JsonModel {
    let head = Seq::empty().push(("model"@, JsonModel::Str(model))).push(
        ("messages"@, JsonModel::Array(Seq::empty().push(user_message(user_prompt)))),
    ).push(("max_tokens"@, JsonModel::Number("4096"@)));
    let with_system = match system_prompt {
        Some(s) => head.push(("system"@, JsonModel::Str(s))),
        None => head,
    };
    JsonModel::Object(
        match schema {
            Some(s) => with_system.push(
                ("tools"@, JsonModel::Array(Seq::empty().push(report_tool(s)))),
            ),
            None => with_system,
        },
    )
}

/// The headers of a request for the given credential.
pub open spec fn headers(api_key: Seq<char>) -> Seq<(Seq<char>, Seq<char>)> {
    Seq::empty().push(("x-api-key"@, percent_encoded(encode_utf8(api_key)))).push(
        ("anthropic-version"@, "2023-06-01"@),
    )
}

/// The generated text in a body: the `text` of the first content block.
pub open spec fn generated_text(body: JsonModel) -> Option<Seq<char>> {
    text_of(member_of(element_of(body.member("content"@), 0), "text"@))
}

/// The answer to a call from what the body that came back reads as: a
/// body that is no JSON is malformed; the rest is this backend's envelope.
pub open spec fn answer_to(body: Option<JsonModel>, structured: bool) -> Result<
    ResponseModel,
    ErrorModel,
> {
    match body {
        Some(doc) => answer(doc, generated_text(doc), structured),
        None => Err(ErrorModel::Protocol(FaultModel::MalformedBody)),
    }
}

/// The descriptor of what this backend's schema engine honours.
pub open spec fn capabilities() -> ToJsonSchemaOptions {
    ToJsonSchemaOptions {
        fields_always_required: false,
        supports_format: false,
        extract_descriptions: false,
        top_level_must_be_object: true,
    }
}

impl Client {
    /// The model that this client talks to.
    pub closed spec fn model(&self) -> Seq<char> {
        self.model@
    }

    /// The credential that this client sends.
    pub closed spec fn api_key(&self) -> Seq<char> {
        self.api_key@
    }

    /// A client for `spec.model` with the credential found in the
    /// configuration under `ANTHROPIC_API_KEY`. Without a credential there is
    /// no client.
    pub fn new(spec: LlmSpec, api_key: Option<String>) -> (r: Result<Client, LlmError>)
        ensures
            match api_key {
                Some(key) => r matches Ok(c) && c.model() == spec.model@ && c.api_key() == key@,
                None => r matches Err(e) && e@ == ErrorModel::Configuration(
                    "ANTHROPIC_API_KEY environment variable must be set"@,
                ),
            },
    {
        match api_key {
            Some(key) => Ok(Client { model: spec.model, api_key: key }),
            None => Err(
                LlmError::Configuration(
                    String::from_str("ANTHROPIC_API_KEY environment variable must be set"),
                ),
            ),
        }
    }

    /// The HTTP call for `request`. A schema goes out as the input schema
    /// of a tool; a request for free text goes out without tools.
    pub fn build_request(&self, request: &LlmGenerateRequest) -> (call: HttpRequest)
        ensures
            call.url@ == endpoint(),
            headers_view(call.headers@) == headers(self.api_key()),
            call.body@ == payload(
                self.model(),
                request.user_prompt@,
                text_view(request.system_prompt),
                requested_schema(request.output_format),
            ),
    {
        let mut message: Vec<(String, Json)> = Vec::new();
        push_member(&mut message, "role", Json::string("user"));
        push_member(&mut message, "content", Json::string(request.user_prompt.as_str()));
        let mut messages: Vec<Json> = Vec::new();
        push_item(&mut messages, Json::object(message));

        let mut body: Vec<(String, Json)> = Vec::new();
        push_member(&mut body, "model", Json::string(self.model.as_str()));
        push_member(&mut body, "messages", Json::array(messages));
        push_member(&mut body, "max_tokens", Json::number("4096"));
        match &request.system_prompt {
            Some(system) => {
                push_member(&mut body, "system", Json::string(system.as_str()));
            },
            None => {},
        }
        match &request.output_format {
            Some(OutputFormat::JsonSchema { name: _, schema }) => {
                let mut tool: Vec<(String, Json)> = Vec::new();
                push_member(&mut tool, "type", Json::string("custom"));
                push_member(&mut tool, "name", Json::string("report_result"));
                push_member(&mut tool, "input_schema", schema.duplicate());
                let mut tools: Vec<Json> = Vec::new();
                push_item(&mut tools, Json::object(tool));
                push_member(&mut body, "tools", Json::array(tools));
            },
            None => {},
        }

        let mut heads: Vec<(String, String)> = Vec::new();
        assert(headers_view(heads@) =~= Seq::empty());
        push_header(&mut heads, "x-api-key", percent_encode(self.api_key.as_str()));
        push_header(&mut heads, "anthropic-version", String::from_str("2023-06-01"));
        HttpRequest {
            url: String::from_str("https://api.anthropic.com/v1/messages"),
            headers: heads,
            body: Json::object(body),
        }
    }

    /// The generated text of a decoded body. A reported error comes first;
    /// a body without text in its first content block is a fault.
    pub fn extract_text(body: &Json) -> (r: Result<String, ProtocolFault>)
        ensures
            extraction_view(r) == extraction(body@, generated_text(body@)),
    {
        match check_reported_error(body) {
            Some(e) => {
                return Err(e);
            },
            None => {},
        }
        let block = element_in(body.get("content"), 0);
        require_content(text_in(member_in(block, "text")))
    }

    /// The answer to a call from the text of the body that came back.
    pub fn parse_response(&self, body: &str, format: &Option<OutputFormat>) -> (r: Result<
        LlmGenerateResponse,
        LlmError,
    >)
        ensures
            outcome_view(r) == answer_to(json_text_value(body@), format.is_some()),
    {
        match parse_json(body) {
            None => Err(LlmError::Protocol(ProtocolFault::MalformedBody)),
            Some(doc) => match Self::extract_text(&doc) {
                Err(fault) => Err(LlmError::Protocol(fault)),
                Ok(text) => Ok(interpret(text, format)),
            },
        }
    }

    /// What this backend's schema engine honours. The same for every client,
    /// at every call.
    pub fn json_schema_options(&self) -> (r: ToJsonSchemaOptions)
        ensures
            r == capabilities(),
    {
        ToJsonSchemaOptions {
            fields_always_required: false,
            supports_format: false,
            extract_descriptions: false,
            top_level_must_be_object: true,
        }
    }
}

/// A body that reports an error yields that error as a protocol error and
/// never an answer, whatever else the body holds.
pub proof fn lemma_reported_error_is_protocol_error(doc: JsonModel, structured: bool)
    requires
        reported_error(doc).is_some(),
    ensures
        answer_to(Some(doc), structured) == Err::<ResponseModel, ErrorModel>(
            ErrorModel::Protocol(FaultModel::Reported(reported_error(doc).unwrap())),
        ),
{
}

} // verus!
