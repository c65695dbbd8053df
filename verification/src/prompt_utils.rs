//! Prompt text shared by the clients of backends that have to be told to
//! answer in JSON.
use vstd::prelude::*;

verus! {

/// The instruction that demands JSON and nothing else.
pub const STRICT_JSON_PROMPT: &'static str =
    "IMPORTANT: Output ONLY valid JSON that matches the schema. Do NOT say anything else. Do NOT explain. Do NOT preface. Do NOT add comments. If you cannot answer, output an empty JSON object: {}.";

} // verus!
