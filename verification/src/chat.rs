//! The chat-completion protocol that the OpenAI client and the LiteLLM
//! proxy client share.
use vstd::prelude::*;
use crate::json::{Json, JsonModel, element_in, element_of, member_in, member_of, text_in, text_of};
use crate::envelope::{
    answer, check_reported_error, extraction, extraction_view, reported_error, require_content,
};
use crate::types::{
    ErrorModel, FaultModel, LlmGenerateRequest, OutputFormat, ProtocolFault, ResponseModel, text_view,
};

verus! {

/// Who speaks in a message.
#[derive(Clone, Copy, Debug, PartialEq, Eq, Structural)]
pub enum ChatRole {
    System,
    User,
}

/// One message of a conversation.
#[derive(Debug, PartialEq, Eq)]
pub struct ChatMessage {
    pub role: ChatRole,
    pub content: String,
}

/// The `json_schema` response format.
#[derive(Debug, PartialEq, Eq)]
pub struct JsonSchemaFormat {
    pub name: String,
    pub schema: Json,
    pub strict: bool,
}

/// A chat-completion request.
#[derive(Debug, PartialEq, Eq)]
pub struct ChatRequest {
    pub model: String,
    pub messages: Vec<ChatMessage>,
    pub response_format: Option<JsonSchemaFormat>,
}

/// The roles and texts of a run of messages.
pub open spec fn messages_view(messages: Seq<ChatMessage>) -> Seq<(ChatRole, Seq<char>)> {
    Seq::new(messages.len(), |i: int| (messages[i].role, messages[i].content@))
}

/// The name, schema and strictness of a response format.
pub open spec fn format_view(format: Option<JsonSchemaFormat>) -> Option<
    (Seq<char>, JsonModel, bool),
> {
    match format {
        Some(f) => Some((f.name@, f.schema@, f.strict)),
        None => None,
    }
}

/// The messages for a request: the system prompt first, where there is one,
/// then the user's prompt.
pub open spec fn conversation(user_prompt: Seq<char>, system_prompt: Option<Seq<char>>) -> Seq<
    (ChatRole, Seq<char>),
> {
    match system_prompt {
        Some(s) => Seq::empty().push((ChatRole::System, s)).push((ChatRole::User, user_prompt)),
        None => Seq::empty().push((ChatRole::User, user_prompt)),
    }
}

/// The response format for a request: the schema under its name, with
/// strict validation asked for.
pub open spec fn requested_format(format: Option<OutputFormat>) -> Option<
    (Seq<char>, JsonModel, bool),
> {
    match format {
        Some(OutputFormat::JsonSchema { name, schema }) => Some((name@, schema@, true)),
        None => None,
    }
}

/// The content of the first choice, where there is a choice and it has
/// content.
pub open spec fn first_content(choices: Seq<Option<String>>) -> Option<Seq<char>> {
    if choices.len() > 0 {
        text_view(choices[0])
    } else {
        None
    }
}

/// The generated text in the body of a completion: the content of the
/// first choice's message.
pub open spec fn generated_text(body: JsonModel) -> Option<Seq<char>> {
    text_of(
        member_of(
            member_of(element_of(body.member("choices"@), 0), "message"@),
            "content"@,
        ),
    )
}

/// The answer to a completion from what its body reads as: a body that is
/// no JSON is malformed; a reported error comes first; then the first
/// choice's content, read as JSON where `structured` says so and it can be.
pub open spec fn answer_to(body: Option<JsonModel>, structured: bool) -> Result<
    ResponseModel,
    ErrorModel,
> {
    match body {
        Some(doc) => answer(doc, generated_text(doc), structured),
        None => Err(ErrorModel::Protocol(FaultModel::MalformedBody)),
    }
}

/// The chat-completion request for `request`, addressed to `model`.
pub fn build_chat_request(model: &str, request: &LlmGenerateRequest) -> (r: ChatRequest)
    ensures
        r.model@ == model@,
        messages_view(r.messages@) == conversation(
            request.user_prompt@,
            text_view(request.system_prompt),
        ),
        format_view(r.response_format) == requested_format(request.output_format),
{
    let mut messages: Vec<ChatMessage> = Vec::new();
    match &request.system_prompt {
        Some(system) => {
            messages.push(ChatMessage { role: ChatRole::System, content: system.clone() });
        },
        None => {},
    }
    messages.push(ChatMessage { role: ChatRole::User, content: request.user_prompt.clone() });
    let response_format = match &request.output_format {
        Some(OutputFormat::JsonSchema { name, schema }) => Some(
            JsonSchemaFormat { name: name.clone(), schema: schema.duplicate(), strict: true },
        ),
        None => None,
    };
    assert(messages_view(messages@) =~= conversation(
        request.user_prompt@,
        text_view(request.system_prompt),
    ));
    ChatRequest { model: model.to_owned(), messages, response_format }
}

/// The content of the first of the choices that came back; to have none is
/// a fault.
pub fn first_choice(choices: &Vec<Option<String>>) -> (r: Result<String, ProtocolFault>)
    ensures
        match first_content(choices@) {
            Some(t) => r matches Ok(s) && s@ == t,
            None => r matches Err(f) && f@ == FaultModel::NoContent,
        },
{
    if choices.len() > 0 {
        match &choices[0] {
            Some(content) => Ok(content.clone()),
            None => Err(ProtocolFault::NoContent),
        }
    } else {
        Err(ProtocolFault::NoContent)
    }
}

/// The generated text of the decoded body of a completion. A reported
/// error comes first; a body without content in its first choice is a
/// fault.
pub fn extract_text(body: &Json) -> (r: Result<String, ProtocolFault>)
    ensures
        extraction_view(r) == extraction(body@, generated_text(body@)),
{
    match check_reported_error(body) {
        Some(e) => {
            return Err(e);
        },
        None => {},
    }
    let message = member_in(element_in(body.get("choices"), 0), "message");
    require_content(text_in(member_in(message, "content")))
}

/// A body that reports an error yields that error as a protocol error and
/// never an answer, whatever else the body holds.
pub proof fn lemma_reported_error_is_protocol_error(doc: JsonModel, structured: bool)
    requires
        reported_error(doc).is_some(),
    ensures
        answer_to(Some(doc), structured) == Err::<ResponseModel, ErrorModel>(
            ErrorModel::Protocol(FaultModel::Reported(reported_error(doc).unwrap())),
        ),
{
}

} // verus!
