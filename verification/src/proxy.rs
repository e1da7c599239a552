//! How the desktop app talks to its transcription runtime and to the local
//! Ollama server: the message shapes, the endpoints and the error texts.

use vstd::prelude::*;
use vstd::string::*;

verus! {

/// A model entry as the runtime lists it.
pub struct Model {
    pub id: String,
    pub name: String,
    pub backend: String,
    pub size: usize,
    pub filename: String,
    pub download_url: String,
    pub languages: Vec<String>,
}

/// Asks the runtime to download a model.
pub struct DownloadRequest {
    pub model_id: String,
}

/// The runtime's answer about a download or a deletion.
pub struct DownloadResponse {
    pub model_id: String,
    pub status: String,
    pub path: String,
}

/// A model installed in Ollama.
pub struct OllamaModel {
    pub name: String,
    pub model: String,
    pub details: OllamaModelDetails,
}

/// Size and quantization of an Ollama model.
pub struct OllamaModelDetails {
    pub parameter_size: String,
    pub quantization_level: String,
}

/// Where the transcription runtime listens.
pub const RUNTIME_URL: &'static str = "http://127.0.0.1:15000";

/// Where Ollama listens.
pub const OLLAMA_URL: &'static str = "http://127.0.0.1:11434";

/// The remote operations the app uses.
pub enum Endpoint {
    AvailableModels,
    DownloadedModels,
    DownloadModel,
    DeleteModel(String),
    Transcribe,
    OllamaTags,
    OllamaGenerate,
}

/// The URL of an operation.
pub open spec fn endpoint_url_spec(e: Endpoint) -> Seq<char> {
    match e {
        Endpoint::AvailableModels => RUNTIME_URL@ + "/v1/models/available"@,
        Endpoint::DownloadedModels => RUNTIME_URL@ + "/v1/models/downloaded"@,
        Endpoint::DownloadModel => RUNTIME_URL@ + "/v1/models/download"@,
        Endpoint::DeleteModel(id) => RUNTIME_URL@ + "/v1/models/"@ + id@,
        Endpoint::Transcribe => RUNTIME_URL@ + "/v1/transcribe"@,
        Endpoint::OllamaTags => OLLAMA_URL@ + "/api/tags"@,
        Endpoint::OllamaGenerate => OLLAMA_URL@ + "/api/generate"@,
    }
}

/// The URL of an operation.
pub fn endpoint_url(e: &Endpoint) -> (r: String)
    ensures
        r@ == endpoint_url_spec(*e),
{
    match e {
        Endpoint::AvailableModels => String::from_str(RUNTIME_URL).concat("/v1/models/available"),
        Endpoint::DownloadedModels => String::from_str(RUNTIME_URL).concat("/v1/models/downloaded"),
        Endpoint::DownloadModel => String::from_str(RUNTIME_URL).concat("/v1/models/download"),
        Endpoint::DeleteModel(id) => String::from_str(RUNTIME_URL).concat("/v1/models/").concat(
            id.as_str(),
        ),
        Endpoint::Transcribe => String::from_str(RUNTIME_URL).concat("/v1/transcribe"),
        Endpoint::OllamaTags => String::from_str(OLLAMA_URL).concat("/api/tags"),
        Endpoint::OllamaGenerate => String::from_str(OLLAMA_URL).concat("/api/generate"),
    }
}

/// The error when the runtime cannot be reached.
pub fn runtime_unavailable_text(err: &str) -> (r: String)
    ensures
        r@ == "runtime server unavailable: "@ + err@,
{
    String::from_str("runtime server unavailable: ").concat(err)
}

/// The error when Ollama cannot be reached.
pub fn ollama_not_running_text(err: &str) -> (r: String)
    ensures
        r@ == "ollama not running: "@ + err@,
{
    String::from_str("ollama not running: ").concat(err)
}

/// The error when the runtime's answer has no transcript text.
pub fn unexpected_response_text(body: &str) -> (r: String)
    ensures
        r@ == "unexpected response: "@ + body@,
{
    String::from_str("unexpected response: ").concat(body)
}

/// The transcript in the runtime's answer: its `text` field when that is a
/// string, otherwise an error quoting the whole answer.
pub fn transcript_from_response(text: Option<String>, body: &str) -> (r: Result<String, String>)
    ensures
        match text {
            Some(t) => r == Ok::<String, String>(t),
            None => r matches Err(e) && e@ == "unexpected response: "@ + body@,
        },
{
    match text {
        Some(t) => Ok(t),
        None => Err(unexpected_response_text(body)),
    }
}

/// The delete URL of a model is the fixed runtime prefix followed by the
/// model id exactly as given, for every id.
pub proof fn lemma_delete_url_keeps_id(id: String)
    ensures
        endpoint_url_spec(Endpoint::DeleteModel(id)) == "http://127.0.0.1:15000/v1/models/"@ + id@,
        endpoint_url_spec(Endpoint::DeleteModel(id)).len() == 33 + id@.len(),
        endpoint_url_spec(Endpoint::DeleteModel(id)).skip(33) == id@,
{
    reveal_strlit("http://127.0.0.1:15000");
    reveal_strlit("/v1/models/");
    reveal_strlit("http://127.0.0.1:15000/v1/models/");
    assert(RUNTIME_URL@ + "/v1/models/"@ =~= "http://127.0.0.1:15000/v1/models/"@);
    assert(("http://127.0.0.1:15000/v1/models/"@ + id@).skip(33) =~= id@);
}

} // verus!
