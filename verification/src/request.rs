//! The text of a chat-completion request.
//!
//! The body is the JSON object that the chat backend expects, written out
//! around the model's name and the question. Both go in as they are: a
//! question that holds a quote or a backslash makes a body that is not JSON.

use vstd::prelude::*;
use vstd::string::*;
use crate::config::Config;

verus! {

/// The name of the model that is asked when the configuration names none.
pub open spec fn default_model() -> Seq<char> {
    "gpt-3.5-turbo"@
}

/// The model to ask under a configuration with this model setting.
pub open spec fn chosen_model(configured: Option<Seq<char>>) -> Seq<char> {
    match configured {
        Some(name) => name,
        None => default_model(),
    }
}

/// The request body for `question`, addressed to `model`: one user message
/// and nothing else.
pub open spec fn request_body(model: Seq<char>, question: Seq<char>) -> Seq<char> {
    "{\n\"model\": \""@ + model + "\",\n\"messages\": [\n{\"role\": \"user\",\n\"content\": \""@
        + question + "\"\n}\n]\n}"@
}

/// The name of the model to ask: the configured one, or the default.
pub fn model_or_default(config: &Config) -> (model: String)
    ensures
        model@ == chosen_model(config@.model),
{
    match config.model() {
        Some(name) => name,
        None => String::from_str("gpt-3.5-turbo"),
    }
}

/// Writes the request body for `question`, addressed to `model`.
pub fn completion_request_body(model: &str, question: &str) -> (body: String)
    ensures
        body@ == request_body(model@, question@),
{
    let mut body = String::from_str("{\n\"model\": \"");
    body.append(model);
    body.append("\",\n\"messages\": [\n{\"role\": \"user\",\n\"content\": \"");
    body.append(question);
    body.append("\"\n}\n]\n}");
    body
}

} // verus!
