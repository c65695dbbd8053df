//! What all backends share in how an answer's body is read: a body that
//! reports an error is an error, whatever else it holds.
use vstd::prelude::*;
use crate::json::{Json, JsonModel};
use crate::decode::json_text_value;
use crate::response::normalized;
use crate::types::{ErrorModel, FaultModel, ProtocolFault, ResponseModel};

verus! {

/// The error object that a body reports: its top-level member `error`.
pub open spec fn reported_error(body: JsonModel) -> Option<JsonModel> {
    body.member("error"@)
}

/// The generated text of a body whose content field holds `content`: the
/// reported error where there is one, whatever the content; else the
/// content; else the fault of having none.
pub open spec fn extraction(body: JsonModel, content: Option<Seq<char>>) -> Result<
    Seq<char>,
    FaultModel,
> {
    match reported_error(body) {
        Some(e) => Err(FaultModel::Reported(e)),
        None => match content {
            Some(t) => Ok(t),
            None => Err(FaultModel::NoContent),
        },
    }
}

/// The value of the outcome of an extraction.
pub open spec fn extraction_view(r: Result<String, ProtocolFault>) -> Result<
    Seq<char>,
    FaultModel,
> {
    match r {
        Ok(t) => Ok(t@),
        Err(f) => Err(f@),
    }
}

/// The answer to a call whose body was read as `body` and holds `content`
/// in its content field: a protocol error where the body reports an error or
/// has no content; else the content, read as JSON where `structured` says so
/// and the content can be read so.
pub open spec fn answer(body: JsonModel, content: Option<Seq<char>>, structured: bool) -> Result<
    ResponseModel,
    ErrorModel,
> {
    match extraction(body, content) {
        Err(f) => Err(ErrorModel::Protocol(f)),
        Ok(t) => Ok(normalized(t, structured, json_text_value(t))),
    }
}

/// The fault of a body that reports an error, with the error object as it
/// came; nothing for a body that reports none.
pub fn check_reported_error(body: &Json) -> (r: Option<ProtocolFault>)
    ensures
        match r {
            Some(f) => reported_error(body@) matches Some(obj) && f@ == FaultModel::Reported(obj),
            None => reported_error(body@).is_none(),
        },
{
    match body.get("error") {
        Some(e) => Some(ProtocolFault::Reported(e.duplicate())),
        None => None,
    }
}

/// The generated text, or the fault of having none.
pub fn require_content(content: Option<&str>) -> (r: Result<String, ProtocolFault>)
    ensures
        match content {
            Some(t) => r matches Ok(s) && s@ == t@,
            None => r matches Err(f) && f@ == FaultModel::NoContent,
        },
{
    match content {
        Some(t) => Ok(t.to_owned()),
        None => Err(ProtocolFault::NoContent),
    }
}

/// A body that reports an error yields that error and never an answer,
/// whatever its content field and its other fields hold, and whether or not a
/// schema was asked for.
pub proof fn lemma_reported_error_wins(body: JsonModel, content: Option<Seq<char>>, structured: bool)
    requires
        reported_error(body).is_some(),
    ensures
        extraction(body, content) == Err::<Seq<char>, FaultModel>(
            FaultModel::Reported(reported_error(body).unwrap()),
        ),
        answer(body, content, structured) == Err::<ResponseModel, ErrorModel>(
            ErrorModel::Protocol(FaultModel::Reported(reported_error(body).unwrap())),
        ),
{
}

/// Where no schema was asked for, an answer is the generated text as it
/// came, never what the text would read as.
pub proof fn lemma_unstructured_answer_is_text(body: JsonModel, content: Option<Seq<char>>)
    ensures
        answer(body, content, false) matches Ok(a) ==> content matches Some(t) && a
            == ResponseModel::Text(t),
{
}

} // verus!
