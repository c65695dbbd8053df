//! The adapter for a self-hosted Ollama server.
use vstd::prelude::*;
use vstd::string::{StrSliceExecFns, StringExecFns};
use crate::json::{Json, JsonModel, push_member, text_in, text_of};
use crate::decode::{json_text_value, parse_json};
use crate::envelope::{
    answer, check_reported_error, extraction, extraction_view, reported_error, require_content,
};
use crate::http::{HttpRequest, headers_view};
use crate::prompt_utils::STRICT_JSON_PROMPT;
use crate::response::interpret;
use crate::types::{
    ErrorModel, FaultModel, LlmError, LlmGenerateRequest, LlmGenerateResponse, LlmSpec, OutputFormat,
    ProtocolFault, ResponseModel, ToJsonSchemaOptions, outcome_view, requested_schema, text_view,
};

verus! {

/// A client for one model of an Ollama server.
#[derive(Debug)]
pub struct Client {
    generate_url: String,
    model: String,
}

/// Where the server listens unless told otherwise.
pub const OLLAMA_DEFAULT_ADDRESS: &'static str = "http://localhost:11434";

/// `s` without the slashes at its end.
pub open spec fn without_trailing_slashes(s: Seq<char>) -> Seq<char>
    decreases s.len(),
{
    if s.len() > 0 && s.last() == '/' {
        without_trailing_slashes(s.drop_last())
    } else {
        s
    }
}

/// The address of the generate operation of the server at `address`, or of
/// the default server.
pub open spec fn generate_endpoint(address: Option<Seq<char>>) -> Seq<char> {
    match address {
        Some(a) => without_trailing_slashes(a) + "/api/generate"@,
        None => OLLAMA_DEFAULT_ADDRESS@ + "/api/generate"@,
    }
}

/// The system prompt that goes out. Without a schema it is the caller's,
/// or the empty text. Where a schema is asked for it is the strict-JSON
/// instruction, followed by an empty line and the caller's prompt where
/// there is one, and by nothing where there is none.
pub open spec fn system_sent(system_prompt: Option<Seq<char>>, structured: bool) -> Seq<char> {
    match system_prompt {
        Some(own) => if structured {
            STRICT_JSON_PROMPT@ + "\n\n"@ + own
        } else {
            own
        },
        None => if structured {
            STRICT_JSON_PROMPT@
        } else {
            Seq::empty()
        },
    }
}

/// The body of a request: model, prompt, the schema as `format` (null where
/// none is asked for), the system prompt, and streaming switched off.
pub open spec fn payload(
    model: Seq<char>,
    user_prompt: Seq<char>,
    system_prompt: Option<Seq<char>>,
    schema: Option<JsonModel>,
) -> JsonModel {
    JsonModel::Object(
        Seq::empty().push(("model"@, JsonModel::Str(model))).push(
            ("prompt"@, JsonModel::Str(user_prompt)),
        ).push(
            (
                "format"@,
                match schema {
                    Some(s) => s,
                    None => JsonModel::Null,
                },
            ),
        ).push(("system"@, JsonModel::Str(system_sent(system_prompt, schema.is_some())))).push(
            ("stream"@, JsonModel::Bool(false)),
        ),
    )
}

/// The generated text in a body: its `response` field.
pub open spec fn generated_text(body: JsonModel) -> Option<Seq<char>> {
    text_of(body.member("response"@))
}

/// The answer to a call from what the body that came back reads as: a
/// body that is no JSON is malformed; the rest is this backend's envelope.
pub open spec fn answer_to(body: Option<JsonModel>, structured: bool) -> Result<
    ResponseModel,
    ErrorModel,
> {
    match body {
        Some(doc) => answer(doc, generated_text(doc), structured),
        None => Err(ErrorModel::Protocol(FaultModel::MalformedBody)),
    }
}

/// The descriptor of what this backend's schema engine honours.
pub open spec fn capabilities() -> ToJsonSchemaOptions {
    ToJsonSchemaOptions {
        fields_always_required: false,
        supports_format: true,
        extract_descriptions: true,
        top_level_must_be_object: false,
    }
}

/// `s` up to the last character that is no slash.
pub fn trim_trailing_slashes(s: &str) -> (r: &str)
    ensures
        r@ == without_trailing_slashes(s@),
{
    let mut n: usize = s.unicode_len();
    assert(s@.take(n as int) =~= s@);
    while n > 0 && s.get_char(n - 1) == '/'
        invariant
            n <= s@.len(),
            without_trailing_slashes(s@) == without_trailing_slashes(s@.take(n as int)),
        decreases n,
    {
        proof {
            assert(s@.take(n as int).drop_last() =~= s@.take(n - 1));
        }
        n -= 1;
    }
    s.substring_char(0, n)
}

impl Client {
    /// The model that this client talks to.
    pub closed spec fn model(&self) -> Seq<char> {
        self.model@
    }

    /// The address that this client's requests go to.
    pub closed spec fn generate_url(&self) -> Seq<char> {
        self.generate_url@
    }

    /// A client for `spec.model` on the server at `spec.address`, or on the
    /// default server. No credential is needed.
    pub fn new(spec: LlmSpec) -> (r: Result<Client, LlmError>)
        ensures
            r matches Ok(c) && c.model() == spec.model@ && c.generate_url() == generate_endpoint(
                text_view(spec.address),
            ),
    {
        let mut url = match &spec.address {
            Some(address) => String::from_str(trim_trailing_slashes(address.as_str())),
            None => String::from_str(OLLAMA_DEFAULT_ADDRESS),
        };
        url.append("/api/generate");
        Ok(Client { generate_url: url, model: spec.model })
    }

    /// The HTTP call for `request`.
    pub fn build_request(&self, request: &LlmGenerateRequest) -> (call: HttpRequest)
        ensures
            call.url@ == self.generate_url(),
            headers_view(call.headers@) == Seq::<(Seq<char>, Seq<char>)>::empty(),
            call.body@ == payload(
                self.model(),
                request.user_prompt@,
                text_view(request.system_prompt),
                requested_schema(request.output_format),
            ),
    {
        let mut system = String::new();
        let format = match &request.output_format {
            Some(OutputFormat::JsonSchema { name: _, schema }) => {
                system.append(STRICT_JSON_PROMPT);
                schema.duplicate()
            },
            None => Json::Null,
        };
        match &request.system_prompt {
            Some(own) => {
                if request.output_format.is_some() {
                    system.append("\n\n");
                }
                system.append(own.as_str());
            },
            None => {},
        }
        assert(system@ =~= system_sent(
            text_view(request.system_prompt),
            request.output_format.is_some(),
        ));
        let mut body: Vec<(String, Json)> = Vec::new();
        push_member(&mut body, "model", Json::string(self.model.as_str()));
        push_member(&mut body, "prompt", Json::string(request.user_prompt.as_str()));
        push_member(&mut body, "format", format);
        push_member(&mut body, "system", Json::string(system.as_str()));
        push_member(&mut body, "stream", Json::Bool(false));
        let heads: Vec<(String, String)> = Vec::new();
        assert(headers_view(heads@) =~= Seq::empty());
        HttpRequest { url: self.generate_url.clone(), headers: heads, body: Json::object(body) }
    }

    /// The generated text of a decoded body. A reported error comes first;
    /// a body without a `response` text is a fault.
    pub fn extract_text(body: &Json) -> (r: Result<String, ProtocolFault>)
        ensures
            extraction_view(r) == extraction(body@, generated_text(body@)),
    {
        match check_reported_error(body) {
            Some(e) => {
                return Err(e);
            },
            None => {},
        }
        require_content(text_in(body.get("response")))
    }

    /// The answer to a call from the text of the body that came back. Where
    /// a schema was asked for, the generated text is read as JSON if it can
    /// be.
    pub fn parse_response(&self, body: &str, format: &Option<OutputFormat>) -> (r: Result<
        LlmGenerateResponse,
        LlmError,
    >)
        ensures
            outcome_view(r) == answer_to(json_text_value(body@), format.is_some()),
    {
        match parse_json(body) {
            None => Err(LlmError::Protocol(ProtocolFault::MalformedBody)),
            Some(doc) => match Self::extract_text(&doc) {
                Err(fault) => Err(LlmError::Protocol(fault)),
                Ok(text) => Ok(interpret(text, format)),
            },
        }
    }

    /// What this backend's schema engine honours. The same for every client,
    /// at every call.
    pub fn json_schema_options(&self) -> (r: ToJsonSchemaOptions)
        ensures
            r == capabilities(),
    {
        ToJsonSchemaOptions {
            fields_always_required: false,
            supports_format: true,
            extract_descriptions: true,
            top_level_must_be_object: false,
        }
    }
}

/// When a schema is asked for, the system prompt that goes out starts with
/// the strict-JSON instruction. What follows is an empty line and the
/// caller's own system prompt, or nothing where the caller gave none.
pub proof fn lemma_strict_instruction_is_prefix(system_prompt: Option<Seq<char>>)
    ensures
        STRICT_JSON_PROMPT@.is_prefix_of(system_sent(system_prompt, true)),
        system_sent(system_prompt, true).skip(STRICT_JSON_PROMPT@.len() as int)
            == match system_prompt {
            Some(s) => "\n\n"@ + s,
            None => Seq::<char>::empty(),
        },
        system_prompt.is_none() ==> system_sent(system_prompt, true) == STRICT_JSON_PROMPT@,
{
    let sent = system_sent(system_prompt, true);
    let rest = match system_prompt {
        Some(s) => "\n\n"@ + s,
        None => Seq::<char>::empty(),
    };
    assert(sent =~= STRICT_JSON_PROMPT@ + rest);
    assert(sent.subrange(0, STRICT_JSON_PROMPT@.len() as int) =~= STRICT_JSON_PROMPT@);
    assert(sent.skip(STRICT_JSON_PROMPT@.len() as int) =~= rest);
}

/// A body that reports an error yields that error as a protocol error and
/// never an answer, whatever else the body holds.
pub proof fn lemma_reported_error_is_protocol_error(doc: JsonModel, structured: bool)
    requires
        reported_error(doc).is_some(),
    ensures
        answer_to(Some(doc), structured) == Err::<ResponseModel, ErrorModel>(
            ErrorModel::Protocol(FaultModel::Reported(reported_error(doc).unwrap())),
        ),
{
}

} // verus!
