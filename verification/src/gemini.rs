//! The adapter for Google's Gemini API.
use vstd::prelude::*;
use vstd::string::StringExecFns;
use crate::json::{
    Json, JsonModel, element_in, element_of, member_in, member_of, push_item, push_member, text_in,
    text_of,
};
use crate::decode::{json_text_value, parse_json};
use crate::envelope::{answer, check_reported_error, extraction, extraction_view, reported_error};
use crate::http::{HttpRequest, headers_view};
use crate::schema::{strip, stripped};
use crate::types::{
    ErrorModel, FaultModel, LlmError, LlmGenerateRequest, LlmGenerateResponse, LlmSpec,
    OutputFormat, ProtocolFault, ResponseModel, ToJsonSchemaOptions, outcome_view, requested_schema, text_view,
};

verus! {

/// A client for one Gemini model.
#[derive(Debug)]
pub struct Client {
    model: String,
    api_key: String,
}

/// The address that a request for `model` goes to, with the credential in
/// its query.
pub open spec fn endpoint(model: Seq<char>, api_key: Seq<char>) -> Seq<char> {
    "https://generativelanguage.googleapis.com/v1beta/models/"@ + model + ":generateContent?key="@
        + api_key
}

/// A `parts` list with one part that holds `text`.
pub open spec fn single_part(text: Seq<char>) -> JsonModel {
    JsonModel::Array(
        Seq::empty().push(JsonModel::Object(Seq::empty().push(("text"@, JsonModel::Str(text))))),
    )
}

/// The one turn that carries the user's prompt.
pub open spec fn user_turn(prompt: Seq<char>) -> JsonModel {
    JsonModel::Object(
        Seq::empty().push(("role"@, JsonModel::Str("user"@))).push(("parts"@, single_part(prompt))),
    )
}

/// The generation settings that ask for JSON output under `schema`. The
/// schema goes out without any `additionalProperties`.
pub open spec fn generation_config(schema: JsonModel) -> JsonModel {
    JsonModel::Object(
        Seq::empty().push(("responseMimeType"@, JsonModel::Str("application/json"@))).push(
            ("responseSchema"@, strip(schema)),
        ),
    )
}

/// The body of a request: the user's turn; the system prompt in a field of
/// its own where there is one; the generation settings where a schema is
/// asked for.
pub open spec fn payload(
    user_prompt: Seq<char>,
    system_prompt: Option<Seq<char>>,
    schema: Option<JsonModel>,
) -> JsonModel {
    let head = Seq::empty().push(
        ("contents"@, JsonModel::Array(Seq::empty().push(user_turn(user_prompt)))),
    );
    let with_system = match system_prompt {
        Some(s) => head.push(
            (
                "systemInstruction"@,
                JsonModel::Object(Seq::empty().push(("parts"@, single_part(s)))),
            ),
        ),
        None => head,
    };
    JsonModel::Object(
        match schema {
            Some(s) => with_system.push(("generationConfig"@, generation_config(s))),
            None => with_system,
        },
    )
}

/// The text of the first part of the first candidate, where the body has
/// one.
pub open spec fn candidate_text(body: JsonModel) -> Option<Seq<char>> {
    text_of(
        member_of(
            element_of(
                member_of(
                    member_of(element_of(body.member("candidates"@), 0), "content"@),
                    "parts"@,
                ),
                0,
            ),
            "text"@,
        ),
    )
}

/// The generated text in a body. This backend may leave the text out; the
/// generated text is then empty.
pub open spec fn generated_text(body: JsonModel) -> Option<Seq<char>> {
    match candidate_text(body) {
        Some(t) => Some(t),
        None => Some(Seq::empty()),
    }
}

/// The answer to a call from what the body that came back reads as: a
/// body that is no JSON is malformed; the rest is this backend's envelope,
/// and the generated text is never read as JSON.
pub open spec fn answer_to(body: Option<JsonModel>) -> Result<ResponseModel, ErrorModel> {
    match body {
        Some(doc) => answer(doc, generated_text(doc), false),
        None => Err(ErrorModel::Protocol(FaultModel::MalformedBody)),
    }
}

/// Whatever the body holds, an answer of this backend is text.
pub proof fn lemma_answer_is_text(body: Option<JsonModel>)
    ensures
        answer_to(body) matches Ok(a) ==> a is Text,
{
}

/// The descriptor of what this backend's schema engine honours.
pub open spec fn capabilities() -> ToJsonSchemaOptions {
    ToJsonSchemaOptions {
        fields_always_required: false,
        supports_format: false,
        extract_descriptions: false,
        top_level_must_be_object: true,
    }
}

/// A `parts` list with one part that holds `text`.
fn single_part_of(text: &str) -> (r: Json)
    ensures
        r@ == single_part(text@),
{
    let mut part: Vec<(String, Json)> = Vec::new();
    push_member(&mut part, "text", Json::string(text));
    let mut parts: Vec<Json> = Vec::new();
    push_item(&mut parts, Json::object(part));
    Json::array(parts)
}

impl Client {
    /// The model that this client talks to.
    pub closed spec fn model(&self) -> Seq<char> {
        self.model@
    }

    /// The credential that this client sends.
    pub closed spec fn api_key(&self) -> Seq<char> {
        self.api_key@
    }

    /// A client for `spec.model` with the credential found in the
    /// configuration under `GEMINI_API_KEY`. Without a credential there is no
    /// client.
    pub fn new(spec: LlmSpec, api_key: Option<String>) -> (r: Result<Client, LlmError>)
        ensures
            match api_key {
                Some(key) => r matches Ok(c) && c.model() == spec.model@ && c.api_key() == key@,
                None => r matches Err(e) && e@ == ErrorModel::Configuration(
                    "GEMINI_API_KEY environment variable must be set"@,
                ),
            },
    {
        match api_key {
            Some(key) => Ok(Client { model: spec.model, api_key: key }),
            None => Err(
                LlmError::Configuration(
                    String::from_str("GEMINI_API_KEY environment variable must be set"),
                ),
            ),
        }
    }

    /// The HTTP call for `request`.
    pub fn build_request(&self, request: &LlmGenerateRequest) -> (call: HttpRequest)
        ensures
            call.url@ == endpoint(self.model(), self.api_key()),
            headers_view(call.headers@) == Seq::<(Seq<char>, Seq<char>)>::empty(),
            call.body@ == payload(
                request.user_prompt@,
                text_view(request.system_prompt),
                requested_schema(request.output_format),
            ),
    {
        let mut turn: Vec<(String, Json)> = Vec::new();
        push_member(&mut turn, "role", Json::string("user"));
        push_member(&mut turn, "parts", single_part_of(request.user_prompt.as_str()));
        let mut contents: Vec<Json> = Vec::new();
        push_item(&mut contents, Json::object(turn));

        let mut body: Vec<(String, Json)> = Vec::new();
        push_member(&mut body, "contents", Json::array(contents));
        match &request.system_prompt {
            Some(system) => {
                let mut instruction: Vec<(String, Json)> = Vec::new();
                push_member(&mut instruction, "parts", single_part_of(system.as_str()));
                push_member(&mut body, "systemInstruction", Json::object(instruction));
            },
            None => {},
        }
        match &request.output_format {
            Some(OutputFormat::JsonSchema { name: _, schema }) => {
                let mut config: Vec<(String, Json)> = Vec::new();
                push_member(&mut config, "responseMimeType", Json::string("application/json"));
                push_member(&mut config, "responseSchema", stripped(schema));
                push_member(&mut body, "generationConfig", Json::object(config));
            },
            None => {},
        }
        let mut url = String::from_str("https://generativelanguage.googleapis.com/v1beta/models/");
        url.append(self.model.as_str());
        url.append(":generateContent?key=");
        url.append(self.api_key.as_str());
        let heads: Vec<(String, String)> = Vec::new();
        assert(headers_view(heads@) =~= Seq::empty());
        HttpRequest { url, headers: heads, body: Json::object(body) }
    }

    /// The generated text of a decoded body. A reported error comes first;
    /// a body without text yields the empty text.
    pub fn extract_text(body: &Json) -> (r: Result<String, ProtocolFault>)
        ensures
            extraction_view(r) == extraction(body@, generated_text(body@)),
    {
        match check_reported_error(body) {
            Some(e) => {
                return Err(e);
            },
            None => {},
        }
        let content = member_in(element_in(body.get("candidates"), 0), "content");
        let part = element_in(member_in(content, "parts"), 0);
        match text_in(member_in(part, "text")) {
            Some(t) => Ok(t.to_owned()),
            None => Ok(String::new()),
        }
    }

    /// The answer to a call from the text of the body that came back. The
    /// generated text is handed on as text, also where a schema was asked
    /// for.
    pub fn parse_response(&self, body: &str) -> (r: Result<LlmGenerateResponse, LlmError>)
        ensures
            outcome_view(r) == answer_to(json_text_value(body@)),
    {
        match parse_json(body) {
            None => Err(LlmError::Protocol(ProtocolFault::MalformedBody)),
            Some(doc) => match Self::extract_text(&doc) {
                Err(fault) => Err(LlmError::Protocol(fault)),
                Ok(text) => Ok(LlmGenerateResponse::Text(text)),
            },
        }
    }

    /// What this backend's schema engine honours. The same for every client,
    /// at every call.
    pub fn json_schema_options(&self) -> (r: ToJsonSchemaOptions)
        ensures
            r == capabilities(),
    {
        ToJsonSchemaOptions {
            fields_always_required: false,
            supports_format: false,
            extract_descriptions: false,
            top_level_must_be_object: true,
        }
    }
}

/// A body that reports an error yields that error as a protocol error and
/// never an answer, whatever else the body holds.
pub proof fn lemma_reported_error_is_protocol_error(doc: JsonModel)
    requires
        reported_error(doc).is_some(),
    ensures
        answer_to(Some(doc)) == Err::<ResponseModel, ErrorModel>(
            ErrorModel::Protocol(FaultModel::Reported(reported_error(doc).unwrap())),
        ),
{
}

} // verus!
