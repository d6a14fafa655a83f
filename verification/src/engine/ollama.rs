//! What a call of the model server gives back.
use vstd::prelude::*;
use crate::text::{join2, join3};

verus! {

/// How a request to the model server went.
pub enum OllamaReply {
    /// The server could not be reached.
    Unreachable,
    /// The server answered with a status other than success.
    BadStatus,
    /// The answer could not be read as a generation (the error's text).
    Unparsable(String),
    /// The answer was read; it may lack the generated text.
    Generated(Option<String>),
}

/// The address of the generation endpoint of the server at `base`.
pub fn generate_url(base: &str) -> (u: String)
    ensures
        u@ == base@ + "/api/generate"@,
{
    join2(base, "/api/generate")
}

/// The text a model call yields: a stand-in text when the server cannot be
/// reached, answers with an error status, or leaves the text out; an error
/// only when the answer cannot be read.
pub fn ollama_outcome(model: &str, reply: OllamaReply) -> (r: Result<String, String>)
    ensures
        r matches Ok(s) ==> s@ == match reply {
            OllamaReply::Unreachable => "[Simulated "@ + model@
                + " output]: Action completed successfully based on prompt context."@,
            OllamaReply::BadStatus => "[Simulated "@ + model@ + " output]: Detected missing model or API error."@,
            OllamaReply::Generated(Some(t)) => t@,
            _ => "[Simulated fallback] Empty block from model."@,
        },
        r matches Err(e) ==> reply matches OllamaReply::Unparsable(m) && e@ == "Failed to parse Ollama response: "@ + m@,
        r is Err <==> reply is Unparsable,
{
    match reply {
        OllamaReply::Unreachable => Ok(join3(
            "[Simulated ",
            model,
            " output]: Action completed successfully based on prompt context.",
        )),
        OllamaReply::BadStatus => Ok(join3("[Simulated ", model, " output]: Detected missing model or API error.")),
        OllamaReply::Unparsable(m) => Err(join2("Failed to parse Ollama response: ", m.as_str())),
        OllamaReply::Generated(Some(t)) => Ok(t),
        OllamaReply::Generated(None) => Ok("[Simulated fallback] Empty block from model.".to_owned()),
    }
}

} // verus!
