//! Turning the text that a backend generated into a normalised answer.
use vstd::prelude::*;
use crate::json::{Json, JsonModel};
use crate::decode::{json_text_value, model_of, parse_json};
use crate::types::{LlmGenerateResponse, OutputFormat, ResponseModel};

verus! {

/// The answer for generated `text`: where structured output was asked for
/// and the text reads as JSON, the document read; in every other case the
/// text itself.
pub open spec fn normalized(text: Seq<char>, structured: bool, parsed: Option<JsonModel>)
    -> ResponseModel {
    match parsed {
        Some(j) if structured => ResponseModel::Json(j),
        _ => ResponseModel::Text(text),
    }
}

/// Chooses between `text` and what was read from it.
pub fn normalize(text: String, structured: bool, parsed: Option<Json>) -> (r: LlmGenerateResponse)
    ensures
        r@ == normalized(text@, structured, model_of(parsed)),
{
    match parsed {
        Some(j) => {
            if structured {
                LlmGenerateResponse::Json(j)
            } else {
                LlmGenerateResponse::Text(text)
            }
        },
        None => LlmGenerateResponse::Text(text),
    }
}

/// The answer for generated `text` under the requested `format`. The text is
/// read as JSON only where a schema was asked for; text that does not read as
/// JSON comes back as it is.
pub fn interpret(text: String, format: &Option<OutputFormat>) -> (r: LlmGenerateResponse)
    ensures
        r@ == normalized(text@, format.is_some(), json_text_value(text@)),
        format.is_none() ==> r@ == ResponseModel::Text(text@),
{
    if format.is_some() {
        let parsed = parse_json(text.as_str());
        normalize(text, true, parsed)
    } else {
        LlmGenerateResponse::Text(text)
    }
}

/// Without a requested schema the answer is the text, whatever the text
/// would read as.
pub proof fn lemma_free_text_stays_text(text: Seq<char>, parsed: Option<JsonModel>)
    ensures
        normalized(text, false, parsed) == ResponseModel::Text(text),
{
}

/// With a requested schema the answer is the document read from the text
/// where there is one, and the text itself where there is none.
pub proof fn lemma_structured_answer(text: Seq<char>, parsed: Option<JsonModel>)
    ensures
        parsed matches Some(j) ==> normalized(text, true, parsed) == ResponseModel::Json(j),
        parsed.is_none() ==> normalized(text, true, parsed) == ResponseModel::Text(text),
{
}

} // verus!
