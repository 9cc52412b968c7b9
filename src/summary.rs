//! The summary artifact and the requests that produce it.

use vstd::prelude::*;

verus! {

/// One task taken from a conversation.
pub struct ActionItem {
    pub title: String,
}

/// The tasks the language model lists for a conversation.
pub struct ActionItems {
    pub action_items: Vec<ActionItem>,
}

/// The summary of a conversation with its tasks.
pub struct SummaryJSON {
    pub result: String,
    pub action_items: Vec<ActionItem>,
}

impl SummaryJSON {
    /// The summary `result` with the tasks of `items`.
    pub fn new(result: String, items: ActionItems) -> (r: SummaryJSON)
        ensures
            r.result == result,
            r.action_items == items.action_items,
    {
        SummaryJSON { result, action_items: items.action_items }
    }
}

/// The model that summarises.
pub fn summary_model() -> (r: &'static str)
    ensures
        r@ == "llama3:latest"@,
{
    "llama3:latest"
}

/// The request for a summary of `text`.
pub fn summary_prompt(text: &str) -> (r: String)
    ensures
        r@ == "Can you summarize this: "@ + text@,
{
    let mut r = String::from_str("Can you summarize this: ");
    r.append(text);
    r
}

/// The request for a short title of `text`.
pub fn title_prompt(text: &str) -> (r: String)
    ensures
        r@ == "Can you generate a short meeting title from this: "@ + text@,
{
    let mut r = String::from_str("Can you generate a short meeting title from this: ");
    r.append(text);
    r
}

/// The instructions that ask for the action items of a transcript as JSON.
pub open spec fn action_items_instructions() -> Seq<char> {
    "Create action items from a transcript. You must format your output as a JSON value that adheres to this JSON Schema instance: {\"type\": \"object\", \"properties\": {\"action_items\": {\"type\": \"array\", \"items\": {\"type\": \"object\", \"properties\": {\"title\": {\"type\": \"string\", \"description\": \"The title of the action item\"}}, \"required\": [\"title\"], \"additionalProperties\": false}}}, \"required\": [\"action_items\"], \"additionalProperties\": false}\ntranscript: "@
}

/// The request for the action items of `text`.
pub fn action_items_prompt(text: &str) -> (r: String)
    ensures
        r@ == action_items_instructions() + text@,
{
    let mut r = String::from_str(
        "Create action items from a transcript. You must format your output as a JSON value that adheres to this JSON Schema instance: {\"type\": \"object\", \"properties\": {\"action_items\": {\"type\": \"array\", \"items\": {\"type\": \"object\", \"properties\": {\"title\": {\"type\": \"string\", \"description\": \"The title of the action item\"}}, \"required\": [\"title\"], \"additionalProperties\": false}}}, \"required\": [\"action_items\"], \"additionalProperties\": false}\ntranscript: ",
    );
    r.append(text);
    r
}

} // verus!
