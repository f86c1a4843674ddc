use vstd::prelude::*;

use crate::common::Identifiable;
use crate::error::OpenApiError;

verus! {

/// `url::Url`, carried opaque: an absolute URL that `url::Url::parse`
/// accepted.
#[verifier::external_type_specification]
#[verifier::external_body]
pub struct ExUrl(url::Url);

/// The HTTP methods the service's endpoints use.
#[derive(Clone, Copy, Debug, PartialEq, Eq, Structural)]
pub enum HttpMethod {
    Get,
    Post,
    Patch,
    Delete,
}

/// What the transport is to send: a method and an endpoint path relative
/// to the service's base address. Bodies are serialized by the transport.
#[derive(Clone, Debug)]
pub struct ApiRequest {
    pub method: HttpMethod,
    pub endpoint: String,
}

/// Whether `url::Url::parse` accepts a text as an absolute URL; it depends
/// on the text alone.
pub uninterp spec fn parses_as_url(s: Seq<char>) -> bool;

/// Relies on `url::Url::parse`: it accepts or refuses a text according to
/// the text alone.
#[verifier::external_body]
fn parse_url(s: &str) -> (r: Result<url::Url, url::ParseError>)
    ensures
        r is Ok <==> parses_as_url(s@),
{
    url::Url::parse(s)
}

/// The service's base address, which every endpoint path extends.
pub open spec fn base_uri() -> Seq<char> {
    "https://api.openai.com/v1/"@
}

/// The absolute URL of an endpoint path.
pub fn construct_url(endpoint: &str) -> (r: Result<url::Url, OpenApiError>)
    ensures
        r is Ok <==> parses_as_url(base_uri() + endpoint@),
        r is Err ==> r->Err_0 is UrlParseError,
{
    let mut full = String::from_str("https://api.openai.com/v1/");
    full.append(endpoint);
    match parse_url(full.as_str()) {
        Ok(url) => Ok(url),
        Err(e) => Err(OpenApiError::UrlParseError(e)),
    }
}

/// The headers every call carries, as (name, value) pairs: the bearer
/// credential, the beta-feature marker and, when one is given, the
/// organization.
pub fn construct_headers(
    apikey: &str,
    organization_id: &Option<String>,
) -> (r: Vec<(String, String)>)
    ensures
        r@.len() == if organization_id is Some { 3int } else { 2int },
        r@[0].0@ == "Authorization"@ && r@[0].1@ == "Bearer "@ + apikey@,
        r@[1].0@ == "OpenAI-Beta"@ && r@[1].1@ == "assistants=v1"@,
        organization_id matches Some(org) ==> r@[2].0@ == "OpenAI-Organization"@ && r@[2].1@
            == org@,
{
    let mut headers: Vec<(String, String)> = Vec::new();
    let mut bearer = String::from_str("Bearer ");
    bearer.append(apikey);
    headers.push((String::from_str("Authorization"), bearer));
    headers.push((String::from_str("OpenAI-Beta"), String::from_str("assistants=v1")));
    if let Some(org) = organization_id {
        headers.push((String::from_str("OpenAI-Organization"), org.clone()));
    }
    headers
}

/// Create a run on a thread, or a thread and a run together when no thread
/// is given.
pub fn create_run(thread_id: &Option<String>) -> (r: ApiRequest)
    ensures
        r.method == HttpMethod::Post,
        thread_id matches Some(t) ==> r.endpoint@ == "threads/"@ + t@ + "/runs"@,
        thread_id is None ==> r.endpoint@ == "threads/runs"@,
{
    match thread_id {
        Some(t) => {
            let mut endpoint = String::from_str("threads/");
            endpoint.append(t.as_str());
            endpoint.append("/runs");
            ApiRequest { method: HttpMethod::Post, endpoint }
        },
        None => ApiRequest { method: HttpMethod::Post, endpoint: String::from_str("threads/runs") },
    }
}

/// Create a chat completion.
pub fn create_chat_completion() -> (r: ApiRequest)
    ensures
        r.method == HttpMethod::Post,
        r.endpoint@ == "chat/completions"@,
{
    let endpoint = String::from_str("chat/completions");
    ApiRequest { method: HttpMethod::Post, endpoint }
}

/// Upload a file (multipart form).
pub fn upload_file() -> (r: ApiRequest)
    ensures
        r.method == HttpMethod::Post,
        r.endpoint@ == "files"@,
{
    let endpoint = String::from_str("files");
    ApiRequest { method: HttpMethod::Post, endpoint }
}

/// List the uploaded files.
pub fn list_files() -> (r: ApiRequest)
    ensures
        r.method == HttpMethod::Get,
        r.endpoint@ == "files"@,
{
    let endpoint = String::from_str("files");
    ApiRequest { method: HttpMethod::Get, endpoint }
}

/// Fetch one file's record.
pub fn retrieve_file<F: Identifiable>(file: F) -> (r: ApiRequest)
    ensures
        r.method == HttpMethod::Get,
        r.endpoint@ == "files/"@ + file.identifier(),
{
    let mut endpoint = String::from_str("files/");
    let file_id = file.get_identifier();
    endpoint.append(file_id.as_str());
    ApiRequest { method: HttpMethod::Get, endpoint }
}

/// Delete a file.
pub fn delete_file<F: Identifiable>(file: F) -> (r: ApiRequest)
    ensures
        r.method == HttpMethod::Delete,
        r.endpoint@ == "files/"@ + file.identifier(),
{
    let mut endpoint = String::from_str("files/");
    let file_id = file.get_identifier();
    endpoint.append(file_id.as_str());
    ApiRequest { method: HttpMethod::Delete, endpoint }
}

/// Fetch a file's content.
pub fn retrieve_file_content<F: Identifiable>(file: F) -> (r: ApiRequest)
    ensures
        r.method == HttpMethod::Get,
        r.endpoint@ == "files/"@ + file.identifier() + "/content"@,
{
    let mut endpoint = String::from_str("files/");
    let file_id = file.get_identifier();
    endpoint.append(file_id.as_str());
    endpoint.append("/content");
    ApiRequest { method: HttpMethod::Get, endpoint }
}

/// List the available models.
pub fn list_models() -> (r: ApiRequest)
    ensures
        r.method == HttpMethod::Get,
        r.endpoint@ == "models"@,
{
    let endpoint = String::from_str("models");
    ApiRequest { method: HttpMethod::Get, endpoint }
}

/// Fetch one model.
pub fn load_model<M: Identifiable>(model: M) -> (r: ApiRequest)
    ensures
        r.method == HttpMethod::Get,
        r.endpoint@ == "models/"@ + model.identifier(),
{
    let mut endpoint = String::from_str("models/");
    let model_id = model.get_identifier();
    endpoint.append(model_id.as_str());
    ApiRequest { method: HttpMethod::Get, endpoint }
}

/// Classify a text.
pub fn create_moderation() -> (r: ApiRequest)
    ensures
        r.method == HttpMethod::Post,
        r.endpoint@ == "moderations"@,
{
    let endpoint = String::from_str("moderations");
    ApiRequest { method: HttpMethod::Post, endpoint }
}

/// Create an assistant.
pub fn create_assistant() -> (r: ApiRequest)
    ensures
        r.method == HttpMethod::Post,
        r.endpoint@ == "assistants"@,
{
    let endpoint = String::from_str("assistants");
    ApiRequest { method: HttpMethod::Post, endpoint }
}

/// Attach a file to an assistant.
pub fn create_assistant_file<A: Identifiable>(assistant: A) -> (r: ApiRequest)
    ensures
        r.method == HttpMethod::Post,
        r.endpoint@ == "assistants/"@ + assistant.identifier() + "/files"@,
{
    let mut endpoint = String::from_str("assistants/");
    let assistant_id = assistant.get_identifier();
    endpoint.append(assistant_id.as_str());
    endpoint.append("/files");
    ApiRequest { method: HttpMethod::Post, endpoint }
}

/// List the assistants.
pub fn list_assistants() -> (r: ApiRequest)
    ensures
        r.method == HttpMethod::Get,
        r.endpoint@ == "assistants"@,
{
    let endpoint = String::from_str("assistants");
    ApiRequest { method: HttpMethod::Get, endpoint }
}

/// List an assistant's files.
pub fn list_assistant_files<A: Identifiable>(assistant: A) -> (r: ApiRequest)
    ensures
        r.method == HttpMethod::Get,
        r.endpoint@ == "assistants/"@ + assistant.identifier() + "/files"@,
{
    let mut endpoint = String::from_str("assistants/");
    let assistant_id = assistant.get_identifier();
    endpoint.append(assistant_id.as_str());
    endpoint.append("/files");
    ApiRequest { method: HttpMethod::Get, endpoint }
}

/// Fetch one assistant.
pub fn retrieve_assistant<A: Identifiable>(assistant: A) -> (r: ApiRequest)
    ensures
        r.method == HttpMethod::Get,
        r.endpoint@ == "assistants/"@ + assistant.identifier(),
{
    let mut endpoint = String::from_str("assistants/");
    let assistant_id = assistant.get_identifier();
    endpoint.append(assistant_id.as_str());
    ApiRequest { method: HttpMethod::Get, endpoint }
}

/// Fetch one of an assistant's files.
pub fn retrieve_assistant_file<A: Identifiable, F: Identifiable>(
    assistant: A,
    file: F,
) -> (r: ApiRequest)
    ensures
        r.method == HttpMethod::Get,
        r.endpoint@ == "assistants/"@ + assistant.identifier() + "/files/"@ + file.identifier(),
{
    let mut endpoint = String::from_str("assistants/");
    let assistant_id = assistant.get_identifier();
    endpoint.append(assistant_id.as_str());
    endpoint.append("/files/");
    let file_id = file.get_identifier();
    endpoint.append(file_id.as_str());
    ApiRequest { method: HttpMethod::Get, endpoint }
}

/// Change an assistant.
pub fn modify_assistant<A: Identifiable>(assistant: A) -> (r: ApiRequest)
    ensures
        r.method == HttpMethod::Patch,
        r.endpoint@ == "assistants/"@ + assistant.identifier(),
{
    let mut endpoint = String::from_str("assistants/");
    let assistant_id = assistant.get_identifier();
    endpoint.append(assistant_id.as_str());
    ApiRequest { method: HttpMethod::Patch, endpoint }
}

/// Delete an assistant.
pub fn delete_assistant<A: Identifiable>(assistant: A) -> (r: ApiRequest)
    ensures
        r.method == HttpMethod::Delete,
        r.endpoint@ == "assistants/"@ + assistant.identifier(),
{
    let mut endpoint = String::from_str("assistants/");
    let assistant_id = assistant.get_identifier();
    endpoint.append(assistant_id.as_str());
    ApiRequest { method: HttpMethod::Delete, endpoint }
}

/// Detach a file from an assistant.
pub fn delete_assistant_file<A: Identifiable, F: Identifiable>(
    assistant: A,
    file: F,
) -> (r: ApiRequest)
    ensures
        r.method == HttpMethod::Delete,
        r.endpoint@ == "assistants/"@ + assistant.identifier() + "/files/"@ + file.identifier(),
{
    let mut endpoint = String::from_str("assistants/");
    let assistant_id = assistant.get_identifier();
    endpoint.append(assistant_id.as_str());
    endpoint.append("/files/");
    let file_id = file.get_identifier();
    endpoint.append(file_id.as_str());
    ApiRequest { method: HttpMethod::Delete, endpoint }
}

/// Create a thread.
pub fn create_thread() -> (r: ApiRequest)
    ensures
        r.method == HttpMethod::Post,
        r.endpoint@ == "threads"@,
{
    let endpoint = String::from_str("threads");
    ApiRequest { method: HttpMethod::Post, endpoint }
}

/// Fetch one thread.
pub fn retrieve_thread<T: Identifiable>(thread: T) -> (r: ApiRequest)
    ensures
        r.method == HttpMethod::Get,
        r.endpoint@ == "threads/"@ + thread.identifier(),
{
    let mut endpoint = String::from_str("threads/");
    let thread_id = thread.get_identifier();
    endpoint.append(thread_id.as_str());
    ApiRequest { method: HttpMethod::Get, endpoint }
}

/// Change a thread's metadata.
pub fn modify_thread<T: Identifiable>(thread: T) -> (r: ApiRequest)
    ensures
        r.method == HttpMethod::Patch,
        r.endpoint@ == "threads/"@ + thread.identifier(),
{
    let mut endpoint = String::from_str("threads/");
    let thread_id = thread.get_identifier();
    endpoint.append(thread_id.as_str());
    ApiRequest { method: HttpMethod::Patch, endpoint }
}

/// Delete a thread.
pub fn delete_thread<T: Identifiable>(thread: T) -> (r: ApiRequest)
    ensures
        r.method == HttpMethod::Delete,
        r.endpoint@ == "threads/"@ + thread.identifier(),
{
    let mut endpoint = String::from_str("threads/");
    let thread_id = thread.get_identifier();
    endpoint.append(thread_id.as_str());
    ApiRequest { method: HttpMethod::Delete, endpoint }
}

/// Add a message to a thread.
pub fn create_message<T: Identifiable>(thread: T) -> (r: ApiRequest)
    ensures
        r.method == HttpMethod::Post,
        r.endpoint@ == "threads/"@ + thread.identifier() + "/messages"@,
{
    let mut endpoint = String::from_str("threads/");
    let thread_id = thread.get_identifier();
    endpoint.append(thread_id.as_str());
    endpoint.append("/messages");
    ApiRequest { method: HttpMethod::Post, endpoint }
}

/// List a thread's messages.
pub fn list_messages<T: Identifiable>(thread: T) -> (r: ApiRequest)
    ensures
        r.method == HttpMethod::Get,
        r.endpoint@ == "threads/"@ + thread.identifier() + "/messages"@,
{
    let mut endpoint = String::from_str("threads/");
    let thread_id = thread.get_identifier();
    endpoint.append(thread_id.as_str());
    endpoint.append("/messages");
    ApiRequest { method: HttpMethod::Get, endpoint }
}

/// List a message's files.
pub fn list_message_files<T: Identifiable, M: Identifiable>(
    thread: T,
    message: M,
) -> (r: ApiRequest)
    ensures
        r.method == HttpMethod::Get,
        r.endpoint@ == "threads/"@ + thread.identifier() + "/messages/"@ + message.identifier()
            + "/files"@,
{
    let mut endpoint = String::from_str("threads/");
    let thread_id = thread.get_identifier();
    endpoint.append(thread_id.as_str());
    endpoint.append("/messages/");
    let message_id = message.get_identifier();
    endpoint.append(message_id.as_str());
    endpoint.append("/files");
    ApiRequest { method: HttpMethod::Get, endpoint }
}

/// Fetch one message.
pub fn retrieve_message<T: Identifiable, M: Identifiable>(thread: T, message: M) -> (r: ApiRequest)
    ensures
        r.method == HttpMethod::Get,
        r.endpoint@ == "threads/"@ + thread.identifier() + "/messages/"@ + message.identifier(),
{
    let mut endpoint = String::from_str("threads/");
    let thread_id = thread.get_identifier();
    endpoint.append(thread_id.as_str());
    endpoint.append("/messages/");
    let message_id = message.get_identifier();
    endpoint.append(message_id.as_str());
    ApiRequest { method: HttpMethod::Get, endpoint }
}

/// Fetch one of a message's files.
pub fn retrieve_message_file<T: Identifiable, M: Identifiable, F: Identifiable>(
    thread: T,
    message: M,
    file: F,
) -> (r: ApiRequest)
    ensures
        r.method == HttpMethod::Get,
        r.endpoint@ == "threads/"@ + thread.identifier() + "/messages/"@ + message.identifier()
            + "/files/"@ + file.identifier(),
{
    let mut endpoint = String::from_str("threads/");
    let thread_id = thread.get_identifier();
    endpoint.append(thread_id.as_str());
    endpoint.append("/messages/");
    let message_id = message.get_identifier();
    endpoint.append(message_id.as_str());
    endpoint.append("/files/");
    let file_id = file.get_identifier();
    endpoint.append(file_id.as_str());
    ApiRequest { method: HttpMethod::Get, endpoint }
}

/// Change a message's metadata.
pub fn modify_message<T: Identifiable, M: Identifiable>(thread: T, message: M) -> (r: ApiRequest)
    ensures
        r.method == HttpMethod::Post,
        r.endpoint@ == "threads/"@ + thread.identifier() + "/messages/"@ + message.identifier(),
{
    let mut endpoint = String::from_str("threads/");
    let thread_id = thread.get_identifier();
    endpoint.append(thread_id.as_str());
    endpoint.append("/messages/");
    let message_id = message.get_identifier();
    endpoint.append(message_id.as_str());
    ApiRequest { method: HttpMethod::Post, endpoint }
}

/// Fetch a run: one poll.
pub fn retrieve_run<T: Identifiable, R: Identifiable>(thread: T, run: R) -> (r: ApiRequest)
    ensures
        r.method == HttpMethod::Get,
        r.endpoint@ == "threads/"@ + thread.identifier() + "/runs/"@ + run.identifier(),
{
    let mut endpoint = String::from_str("threads/");
    let thread_id = thread.get_identifier();
    endpoint.append(thread_id.as_str());
    endpoint.append("/runs/");
    let run_id = run.get_identifier();
    endpoint.append(run_id.as_str());
    ApiRequest { method: HttpMethod::Get, endpoint }
}

/// Fetch one step of a run.
pub fn retrieve_run_step<T: Identifiable, R: Identifiable, S: Identifiable>(
    thread: T,
    run: R,
    step: S,
) -> (r: ApiRequest)
    ensures
        r.method == HttpMethod::Get,
        r.endpoint@ == "threads/"@ + thread.identifier() + "/runs/"@ + run.identifier() + "/steps/"@
            + step.identifier(),
{
    let mut endpoint = String::from_str("threads/");
    let thread_id = thread.get_identifier();
    endpoint.append(thread_id.as_str());
    endpoint.append("/runs/");
    let run_id = run.get_identifier();
    endpoint.append(run_id.as_str());
    endpoint.append("/steps/");
    let step_id = step.get_identifier();
    endpoint.append(step_id.as_str());
    ApiRequest { method: HttpMethod::Get, endpoint }
}

/// List a thread's runs.
pub fn list_runs<T: Identifiable>(thread: T) -> (r: ApiRequest)
    ensures
        r.method == HttpMethod::Get,
        r.endpoint@ == "threads/"@ + thread.identifier() + "/runs"@,
{
    let mut endpoint = String::from_str("threads/");
    let thread_id = thread.get_identifier();
    endpoint.append(thread_id.as_str());
    endpoint.append("/runs");
    ApiRequest { method: HttpMethod::Get, endpoint }
}

/// List a run's steps.
pub fn list_run_steps<T: Identifiable, R: Identifiable>(thread: T, run: R) -> (r: ApiRequest)
    ensures
        r.method == HttpMethod::Get,
        r.endpoint@ == "threads/"@ + thread.identifier() + "/runs/"@ + run.identifier() + "/steps"@,
{
    let mut endpoint = String::from_str("threads/");
    let thread_id = thread.get_identifier();
    endpoint.append(thread_id.as_str());
    endpoint.append("/runs/");
    let run_id = run.get_identifier();
    endpoint.append(run_id.as_str());
    endpoint.append("/steps");
    ApiRequest { method: HttpMethod::Get, endpoint }
}

/// Ask the service to cancel a run; the run moves on to `Cancelled` asynchronously.
pub fn cancel_run<T: Identifiable, R: Identifiable>(thread: T, run: R) -> (r: ApiRequest)
    ensures
        r.method == HttpMethod::Post,
        r.endpoint@ == "threads/"@ + thread.identifier() + "/runs/"@ + run.identifier()
            + "/cancel"@,
{
    let mut endpoint = String::from_str("threads/");
    let thread_id = thread.get_identifier();
    endpoint.append(thread_id.as_str());
    endpoint.append("/runs/");
    let run_id = run.get_identifier();
    endpoint.append(run_id.as_str());
    endpoint.append("/cancel");
    ApiRequest { method: HttpMethod::Post, endpoint }
}

/// Hand the outputs of a paused run's tool calls back to it.
pub fn submit_tool_outputs<T: Identifiable, R: Identifiable>(thread: T, run: R) -> (r: ApiRequest)
    ensures
        r.method == HttpMethod::Post,
        r.endpoint@ == "threads/"@ + thread.identifier() + "/runs/"@ + run.identifier()
            + "/submit_tool_outputs"@,
{
    let mut endpoint = String::from_str("threads/");
    let thread_id = thread.get_identifier();
    endpoint.append(thread_id.as_str());
    endpoint.append("/runs/");
    let run_id = run.get_identifier();
    endpoint.append(run_id.as_str());
    endpoint.append("/submit_tool_outputs");
    ApiRequest { method: HttpMethod::Post, endpoint }
}
} // verus!
