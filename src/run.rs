use std::collections::HashMap;
use vstd::prelude::*;

use crate::common::{opt_str, ApiList, Identifiable, ToolCalls, Tools, Usage};
use crate::message::Message;
use crate::error::OpenApiError;
use crate::networking::{self, ApiRequest, HttpMethod};

verus! {

/// Where a run stands in its server-driven lifecycle.
#[derive(Clone, Copy, Debug, PartialEq, Eq, Structural)]
pub enum RunStatus {
    Queued,
    InProgress,
    RequiresAction,
    Cancelling,
    Cancelled,
    Failed,
    Completed,
    Expired,
}

impl RunStatus {
    /// The states that end the lifecycle: no later poll can change them.
    pub open spec fn spec_is_terminal(self) -> bool {
        self == RunStatus::Cancelled || self == RunStatus::Failed || self == RunStatus::Completed
            || self == RunStatus::Expired
    }

    #[verifier::when_used_as_spec(spec_is_terminal)]
    pub fn is_terminal(self) -> (r: bool)
        ensures
            r == self.spec_is_terminal(),
    {
        match self {
            RunStatus::Cancelled | RunStatus::Failed | RunStatus::Completed
            | RunStatus::Expired => true,
            _ => false,
        }
    }
}

#[derive(Clone, Copy, Debug, PartialEq, Eq, Structural)]
pub enum LastErrorCode {
    ServerError,
    RateLimitExceeded,
}

/// Why a run failed: a coded reason and a readable message.
#[derive(Clone, Debug)]
pub struct LastError {
    pub code: LastErrorCode,
    pub message: String,
}

#[derive(Clone, Copy, Debug, PartialEq, Eq, Structural)]
pub enum RequiredActionType {
    SubmitToolOutputs,
}

/// The tool calls a paused run waits on.
#[derive(Clone, Debug)]
pub struct SubmitToolOutputs {
    pub tool_calls: Vec<ToolCalls>,
}

/// What a run in the `RequiresAction` state waits for.
#[derive(Clone, Debug)]
pub struct RequiredAction {
    pub action_type: RequiredActionType,
    pub submit_tool_outputs: SubmitToolOutputs,
}

/// One tool result handed back to a paused run.
#[derive(Clone, Debug)]
pub struct ToolOutput {
    pub tool_call_id: String,
    pub output: String,
}

/// A snapshot of a run as the service last reported it. Polling replaces
/// the snapshot; it is never changed in place.
#[derive(Clone, Debug)]
pub struct Run {
    pub id: String,
    pub object: String,
    pub created_at: i64,
    pub thread_id: String,
    pub assistant_id: String,
    pub status: RunStatus,
    pub required_action: Option<RequiredAction>,
    pub last_error: Option<LastError>,
    pub expires_at: Option<i64>,
    pub started_at: Option<i64>,
    pub cancelled_at: Option<i64>,
    pub failed_at: Option<i64>,
    pub completed_at: Option<i64>,
    pub model: String,
    pub instructions: String,
    pub tools: Vec<Tools>,
    pub file_ids: Vec<String>,
    pub metadata: HashMap<String, String>,
    pub usage: Option<Usage>,
}

/// The ids of the tool calls in a required-action payload, in the order
/// the service listed them.
pub open spec fn call_ids(calls: Seq<ToolCalls>) -> Seq<Seq<char>> {
    calls.map_values(|c: ToolCalls| c.id@)
}

/// The output a caller supplied for a tool call: the first pair whose key
/// is that call's id.
pub open spec fn output_for(outputs: Seq<(String, String)>, id: Seq<char>) -> Option<Seq<char>>
    decreases outputs.len(),
{
    if outputs.len() == 0 {
        None
    } else if outputs[0].0@ == id {
        Some(outputs[0].1@)
    } else {
        output_for(outputs.drop_first(), id)
    }
}

impl Run {
    /// The ids of the tool calls the run waits on; empty when it waits on
    /// nothing.
    pub open spec fn pending_ids(&self) -> Seq<Seq<char>> {
        match self.required_action {
            Some(a) => call_ids(a.submit_tool_outputs.tool_calls@),
            None => Seq::empty(),
        }
    }

    /// Whether the run is paused on tool calls that the caller must answer.
    pub open spec fn awaits_tool_outputs(&self) -> bool {
        self.status == RunStatus::RequiresAction && self.required_action is Some
    }

    pub fn retrieve_status(&self) -> (r: RunStatus)
        ensures
            r == self.status,
    {
        self.status
    }

    /// True only for `Completed`; runs that failed, expired or were
    /// cancelled are terminal but not complete.
    pub fn is_complete(&self) -> (r: bool)
        ensures
            r == (self.status == RunStatus::Completed),
    {
        match self.status {
            RunStatus::Completed => true,
            _ => false,
        }
    }

    pub fn is_terminal(&self) -> (r: bool)
        ensures
            r == self.status.spec_is_terminal(),
    {
        self.status.is_terminal()
    }

    /// The ids of the pending tool calls, unchanged from the service's
    /// payload.
    pub fn pending_tool_call_ids(&self) -> (r: Vec<String>)
        ensures
            r@.map_values(|s: String| s@) == self.pending_ids(),
    {
        let mut ids: Vec<String> = Vec::new();
        match &self.required_action {
            Some(action) => {
                let calls = &action.submit_tool_outputs.tool_calls;
                for i in 0..calls.len()
                    invariant
                        self.required_action == Some(*action),
                        calls == &action.submit_tool_outputs.tool_calls,
                        ids@.len() == i,
                        forall|j: int| 0 <= j < i ==> ids@[j]@ == calls@[j].id@,
                {
                    ids.push(calls[i].id.clone());
                }
                assert(ids@.map_values(|s: String| s@) =~= self.pending_ids());
            },
            None => {
                assert(ids@.map_values(|s: String| s@) =~= self.pending_ids());
            },
        }
        ids
    }

    /// Pairs each pending tool call with the caller's output for it, in the
    /// order of the calls, ready to be submitted.
    ///
    /// Fails with `RestrictedValue` when the run does not wait on tool
    /// outputs, or when some pending call has no output.
    pub fn tool_outputs_for(&self, outputs: &Vec<(String, String)>) -> (r: Result<
        Vec<ToolOutput>,
        OpenApiError,
    >)
        ensures
            r is Ok <==> self.awaits_tool_outputs() && forall|i: int|
                0 <= i < self.pending_ids().len() ==> (#[trigger] output_for(
                    outputs@,
                    self.pending_ids()[i],
                )) is Some,
            r is Err ==> r->Err_0 is RestrictedValue,
            r matches Ok(v) ==> v@.len() == self.pending_ids().len() && forall|i: int|
                0 <= i < v@.len() ==> v@[i].tool_call_id@ == self.pending_ids()[i] && Some(
                    (#[trigger] v@[i]).output@,
                ) == output_for(outputs@, self.pending_ids()[i]),
    {
        if self.status != RunStatus::RequiresAction {
            return Err(
                OpenApiError::RestrictedValue(String::from_str("Run does not require action")),
            );
        }
        let action = match &self.required_action {
            Some(a) => a,
            None => {
                return Err(
                    OpenApiError::RestrictedValue(String::from_str("Run does not require action")),
                );
            },
        };
        let calls = &action.submit_tool_outputs.tool_calls;
        let ghost ids = self.pending_ids();
        let mut result: Vec<ToolOutput> = Vec::new();
        for i in 0..calls.len()
            invariant
                self.required_action == Some(*action),
                calls == &action.submit_tool_outputs.tool_calls,
                ids == self.pending_ids(),
                ids == call_ids(calls@),
                result@.len() == i,
                forall|j: int| 0 <= j < i ==> (#[trigger] output_for(outputs@, ids[j])) is Some,
                forall|j: int|
                    0 <= j < i ==> result@[j].tool_call_id@ == ids[j] && Some(
                        (#[trigger] result@[j]).output@,
                    ) == output_for(outputs@, ids[j]),
        {
            let id = &calls[i].id;
            assert(ids[i as int] == id@);
            match find_output(outputs, id) {
                Some(out) => {
                    result.push(ToolOutput { tool_call_id: id.clone(), output: out });
                },
                None => {
                    assert(output_for(outputs@, ids[i as int]) is None);
                    return Err(
                        OpenApiError::RestrictedValue(
                            String::from_str("Missing output for a pending tool call"),
                        ),
                    );
                },
            }
        }
        Ok(result)
    }
}

/// The caller's output for tool call `id`, if any.
fn find_output(outputs: &Vec<(String, String)>, id: &String) -> (r: Option<String>)
    ensures
        r matches Some(s) ==> output_for(outputs@, id@) == Some(s@),
        r is None ==> output_for(outputs@, id@) is None,
{
    let mut j: usize = 0;
    assert(outputs@.subrange(0, outputs@.len() as int) =~= outputs@);
    while j < outputs.len()
        invariant
            j <= outputs@.len(),
            output_for(outputs@, id@) == output_for(outputs@.subrange(j as int, outputs@.len() as int), id@),
        decreases outputs@.len() - j,
    {
        let ghost rest = outputs@.subrange(j as int, outputs@.len() as int);
        assert(rest.drop_first() =~= outputs@.subrange(j + 1, outputs@.len() as int));
        if outputs[j].0 == *id {
            return Some(outputs[j].1.clone());
        }
        j = j + 1;
    }
    assert(outputs@.subrange(j as int, outputs@.len() as int) =~= Seq::<(String, String)>::empty());
    None
}

impl Run {
    /// One poll: fetch this run again by its thread and its id.
    pub fn retrieve_request(&self) -> (r: ApiRequest)
        ensures
            r.method == HttpMethod::Get,
            r.endpoint@ == "threads/"@ + self.thread_id@ + "/runs/"@ + self.id@,
    {
        networking::retrieve_run(&self.thread_id, &self.id)
    }

    /// Ask for this run to be cancelled.
    pub fn cancel_request(&self) -> (r: ApiRequest)
        ensures
            r.method == HttpMethod::Post,
            r.endpoint@ == "threads/"@ + self.thread_id@ + "/runs/"@ + self.id@ + "/cancel"@,
    {
        networking::cancel_run(&self.thread_id, &self.id)
    }

    /// Hand tool outputs back to this run.
    pub fn submit_tool_outputs_request(&self) -> (r: ApiRequest)
        ensures
            r.method == HttpMethod::Post,
            r.endpoint@ == "threads/"@ + self.thread_id@ + "/runs/"@ + self.id@
                + "/submit_tool_outputs"@,
    {
        networking::submit_tool_outputs(&self.thread_id, &self.id)
    }

    /// List the messages of this run's thread, from which the first is
    /// taken.
    pub fn messages_request(&self) -> (r: ApiRequest)
        ensures
            r.method == HttpMethod::Get,
            r.endpoint@ == "threads/"@ + self.thread_id@ + "/messages"@,
    {
        networking::list_messages(&self.thread_id)
    }
}

/// The first message of a listing of a run's thread; a listing without
/// messages breaks what a run guarantees and is reported as a
/// `ClientError`.
pub fn first_message(messages: ApiList<Message>) -> (r: Result<Message, OpenApiError>)
    ensures
        r is Ok <==> messages.data@.len() > 0,
        r matches Ok(m) ==> m == messages.data@[0],
        r matches Err(e) ==> e is ClientError,
{
    let mut data = messages.data;
    if data.len() < 1 {
        return Err(OpenApiError::ClientError(String::from_str("Run contains no messages")));
    }
    Ok(data.remove(0))
}

/// One recorded action of a run.
#[derive(Clone, Debug)]
pub struct RunStep {
    pub id: String,
    pub object: String,
    pub created_at: i64,
    pub assistant_id: String,
    pub thread_id: String,
    pub run_id: String,
    pub step_type: RunType,
    pub status: RunStatus,
    pub last_error: Option<LastError>,
    pub expired_at: Option<i64>,
    pub cancelled_at: Option<i64>,
    pub failed_at: Option<i64>,
    pub completed_at: Option<i64>,
    pub metadata: HashMap<String, String>,
    pub usage: Option<Usage>,
}

/// What a run step did.
#[derive(Clone, Copy, Debug, PartialEq, Eq, Structural)]
pub enum RunType {
    MessageCreation,
    ToolCalls,
}

impl Identifiable for Run {
    open spec fn identifier(&self) -> Seq<char> {
        self.id@
    }

    fn get_identifier(&self) -> (r: String) {
        self.id.clone()
    }
}

impl<'a> Identifiable for &'a Run {
    open spec fn identifier(&self) -> Seq<char> {
        (**self).identifier()
    }

    fn get_identifier(&self) -> (r: String) {
        (**self).get_identifier()
    }
}

/// Configuration of a run to create: the assistant to run (required), the
/// thread to run it on (without one, a thread is created together with the
/// run), and optional overrides.
#[derive(Debug)]
pub struct RunBuilder {
    thread_id: Option<String>,
    assistant_id: String,
    model: Option<String>,
    instructions: Option<String>,
    additional_instructions: Option<String>,
    tools: Vec<Tools>,
    metadata: HashMap<String, String>,
}

/// What a `RunBuilder` holds.
pub struct RunBuilderView {
    pub thread_id: Option<Seq<char>>,
    pub assistant_id: Seq<char>,
    pub model: Option<Seq<char>>,
    pub instructions: Option<Seq<char>>,
    pub additional_instructions: Option<Seq<char>>,
    pub tools: Seq<Tools>,
    pub metadata: Map<String, String>,
}

impl View for RunBuilder {
    type V = RunBuilderView;

    closed spec fn view(&self) -> RunBuilderView {
        RunBuilderView {
            thread_id: opt_str(self.thread_id),
            assistant_id: self.assistant_id@,
            model: opt_str(self.model),
            instructions: opt_str(self.instructions),
            additional_instructions: opt_str(self.additional_instructions),
            tools: self.tools@,
            metadata: self.metadata@,
        }
    }
}

impl RunBuilder {
    /// A run of `assistant_id` on the thread `thread_id`.
    pub fn new<T: Identifiable, A: Identifiable>(thread_id: T, assistant_id: A) -> (r: Self)
        ensures
            r@.thread_id == Some(thread_id.identifier()),
            r@.assistant_id == assistant_id.identifier(),
            r@.model is None,
            r@.instructions is None,
            r@.additional_instructions is None,
            r@.tools.len() == 0,
    {
        let thread_id = thread_id.get_identifier();
        let assistant_id = assistant_id.get_identifier();
        RunBuilder {
            thread_id: Some(thread_id),
            assistant_id,
            model: None,
            instructions: None,
            additional_instructions: None,
            tools: Vec::new(),
            metadata: HashMap::new(),
        }
    }

    /// A run of `assistant_id` on a thread created together with it.
    pub fn new_with_thread<A: Identifiable>(assistant_id: A) -> (r: Self)
        ensures
            r@.thread_id is None,
            r@.assistant_id == assistant_id.identifier(),
            r@.model is None,
            r@.instructions is None,
            r@.additional_instructions is None,
            r@.tools.len() == 0,
    {
        let assistant_id = assistant_id.get_identifier();
        RunBuilder {
            thread_id: None,
            assistant_id,
            model: None,
            instructions: None,
            additional_instructions: None,
            tools: Vec::new(),
            metadata: HashMap::new(),
        }
    }

    /// Overrides the assistant's model; the model is resolved to its
    /// identifier now.
    pub fn with_model<M: Identifiable>(self, model: M) -> (r: Self)
        ensures
            r@ == (RunBuilderView { model: Some(model.identifier()), ..self@ }),
    {
        let model = model.get_identifier();
        RunBuilder { model: Some(model), ..self }
    }

    /// Overrides the assistant's instructions.
    pub fn with_instructions(self, instructions: String) -> (r: Self)
        ensures
            r@ == (RunBuilderView { instructions: Some(instructions@), ..self@ }),
    {
        RunBuilder { instructions: Some(instructions), ..self }
    }

    /// Appends to the assistant's instructions for this run only.
    pub fn with_additional_instructions(self, additional_instructions: String) -> (r: Self)
        ensures
            r@ == (RunBuilderView { additional_instructions: Some(additional_instructions@), ..self@ }),
    {
        RunBuilder { additional_instructions: Some(additional_instructions), ..self }
    }

    /// Where the run is created: on its thread, or on a new thread when it
    /// has none.
    pub fn create_request(&self) -> (r: ApiRequest)
        ensures
            r.method == HttpMethod::Post,
            self@.thread_id matches Some(t) ==> r.endpoint@ == "threads/"@ + t + "/runs"@,
            self@.thread_id is None ==> r.endpoint@ == "threads/runs"@,
    {
        networking::create_run(&self.thread_id)
    }
}

impl RunBuilder {
    pub fn thread_id(&self) -> (r: &Option<String>)
        ensures
            opt_str(*r) == self@.thread_id,
    {
        &self.thread_id
    }

    pub fn assistant_id(&self) -> (r: &String)
        ensures
            r@ == self@.assistant_id,
    {
        &self.assistant_id
    }

    pub fn model(&self) -> (r: &Option<String>)
        ensures
            opt_str(*r) == self@.model,
    {
        &self.model
    }

    pub fn instructions(&self) -> (r: &Option<String>)
        ensures
            opt_str(*r) == self@.instructions,
    {
        &self.instructions
    }

    pub fn additional_instructions(&self) -> (r: &Option<String>)
        ensures
            opt_str(*r) == self@.additional_instructions,
    {
        &self.additional_instructions
    }

    pub fn tools(&self) -> (r: &Vec<Tools>)
        ensures
            r@ == self@.tools,
    {
        &self.tools
    }

    pub fn metadata(&self) -> (r: &HashMap<String, String>)
        ensures
            r@ == self@.metadata,
    {
        &self.metadata
    }
}

} // verus!
