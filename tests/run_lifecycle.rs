use std::collections::HashMap;

use rust_open_ai::common::{ApiList, Identifiable, ToolCalls, ToolCallsFunction};
use rust_open_ai::error::OpenApiError;
use rust_open_ai::message::{Message, MessageRole};
use rust_open_ai::networking::HttpMethod;
use rust_open_ai::polling::{PollAction, PollEvent, PollOutcome, PollPolicy, RunPoller};
use rust_open_ai::run::{
    first_message, RequiredAction, RequiredActionType, Run, RunBuilder, RunStatus,
    SubmitToolOutputs,
};

const ALL_STATUSES: [RunStatus; 8] = [
    RunStatus::Queued,
    RunStatus::InProgress,
    RunStatus::RequiresAction,
    RunStatus::Cancelling,
    RunStatus::Cancelled,
    RunStatus::Failed,
    RunStatus::Completed,
    RunStatus::Expired,
];

fn tool_call(id: &str) -> ToolCalls {
    ToolCalls {
        index: None,
        id: id.to_string(),
        call_type: "function".to_string(),
        function: ToolCallsFunction { name: "lookup".to_string(), arguments: "{}".to_string() },
    }
}

fn run_in(status: RunStatus, calls: Option<Vec<ToolCalls>>) -> Run {
    Run {
        id: "run_1".to_string(),
        object: "thread.run".to_string(),
        created_at: 1,
        thread_id: "thread_1".to_string(),
        assistant_id: "asst_1".to_string(),
        status,
        required_action: calls.map(|tool_calls| RequiredAction {
            action_type: RequiredActionType::SubmitToolOutputs,
            submit_tool_outputs: SubmitToolOutputs { tool_calls },
        }),
        last_error: None,
        expires_at: None,
        started_at: None,
        cancelled_at: None,
        failed_at: None,
        completed_at: None,
        model: "gpt-4".to_string(),
        instructions: String::new(),
        tools: Vec::new(),
        file_ids: Vec::new(),
        metadata: HashMap::new(),
        usage: None,
    }
}

fn policy() -> PollPolicy {
    PollPolicy { initial_delay_ms: 100, max_delay_ms: 1000, max_polls: 50 }
}

#[test]
fn is_complete_only_for_completed() {
    for status in ALL_STATUSES {
        let run = run_in(status, None);
        assert_eq!(run.is_complete(), status == RunStatus::Completed);
        assert_eq!(run.retrieve_status(), status);
    }
}

#[test]
fn terminal_states_are_the_four_final_ones() {
    let terminal: Vec<RunStatus> = ALL_STATUSES.iter().copied().filter(|s| s.is_terminal()).collect();
    assert_eq!(
        terminal,
        vec![RunStatus::Cancelled, RunStatus::Failed, RunStatus::Completed, RunStatus::Expired]
    );
    assert!(run_in(RunStatus::Failed, None).is_terminal());
    assert!(!run_in(RunStatus::Failed, None).is_complete());
    assert!(!run_in(RunStatus::Expired, None).is_complete());
}

#[test]
fn create_run_without_thread_goes_to_threads_runs() {
    let builder = RunBuilder::new_with_thread("asst_1");
    let request = builder.create_request();
    assert_eq!(request.method, HttpMethod::Post);
    assert_eq!(request.endpoint, "threads/runs");
}

#[test]
fn create_run_with_thread_goes_to_its_runs() {
    let builder = RunBuilder::new("thread_abc", "asst_1")
        .with_model("gpt-4")
        .with_instructions("be brief".to_string())
        .with_additional_instructions("really".to_string());
    assert_eq!(builder.create_request().endpoint, "threads/thread_abc/runs");
    assert_eq!(builder.model().as_deref(), Some("gpt-4"));
    assert_eq!(builder.instructions().as_deref(), Some("be brief"));
    assert_eq!(builder.additional_instructions().as_deref(), Some("really"));
}

#[test]
fn poll_loop_stops_at_first_completed() {
    let responses = [
        RunStatus::Queued,
        RunStatus::InProgress,
        RunStatus::RequiresAction,
        RunStatus::InProgress,
        RunStatus::Completed,
        RunStatus::InProgress,
        RunStatus::Queued,
    ];
    let mut poller = RunPoller::new(policy());
    let mut actions = Vec::new();
    for status in responses {
        actions.push(poller.observe(PollEvent::Fetched(status)));
    }
    assert_eq!(actions[0], PollAction::FetchAfter(100));
    assert_eq!(actions[1], PollAction::FetchAfter(200));
    assert_eq!(actions[2], PollAction::SubmitToolOutputs);
    assert_eq!(actions[3], PollAction::FetchAfter(400));
    let settled = PollAction::Stop(PollOutcome::Settled(RunStatus::Completed));
    assert_eq!(actions[4], settled);
    assert_eq!(actions[5], settled);
    assert_eq!(actions[6], settled);
    assert_eq!(poller.polls, 5);
}

#[test]
fn poll_delays_double_up_to_the_cap() {
    let mut poller = RunPoller::new(PollPolicy { initial_delay_ms: 300, max_delay_ms: 1000, max_polls: 10 });
    let mut delays = Vec::new();
    for _ in 0..4 {
        match poller.observe(PollEvent::Fetched(RunStatus::InProgress)) {
            PollAction::FetchAfter(d) => delays.push(d),
            other => panic!("unexpected {:?}", other),
        }
    }
    assert_eq!(delays, vec![300, 600, 1000, 1000]);
}

#[test]
fn poll_budget_runs_out() {
    let mut poller = RunPoller::new(PollPolicy { initial_delay_ms: 1, max_delay_ms: 1, max_polls: 2 });
    assert_eq!(poller.observe(PollEvent::Fetched(RunStatus::Queued)), PollAction::FetchAfter(1));
    assert_eq!(poller.observe(PollEvent::Fetched(RunStatus::Queued)), PollAction::Stop(PollOutcome::TimedOut));
    assert_eq!(
        poller.observe(PollEvent::Fetched(RunStatus::Completed)),
        PollAction::Stop(PollOutcome::TimedOut)
    );
}

#[test]
fn transport_failure_is_not_a_failed_run() {
    let mut poller = RunPoller::new(policy());
    assert_eq!(poller.observe(PollEvent::FetchFailed), PollAction::Stop(PollOutcome::TransportFailed));
    let mut other = RunPoller::new(policy());
    assert_eq!(
        other.observe(PollEvent::Fetched(RunStatus::Failed)),
        PollAction::Stop(PollOutcome::Settled(RunStatus::Failed))
    );
}

#[test]
fn caller_interrupt_stops_polling() {
    let mut poller = RunPoller::new(policy());
    assert_eq!(poller.observe(PollEvent::Fetched(RunStatus::Queued)), PollAction::FetchAfter(100));
    assert_eq!(poller.observe(PollEvent::Interrupt), PollAction::Stop(PollOutcome::Interrupted));
    assert_eq!(poller.observe(PollEvent::Fetched(RunStatus::Queued)), PollAction::Stop(PollOutcome::Interrupted));
}

#[test]
fn requires_action_exposes_pending_tool_calls() {
    let run = run_in(RunStatus::RequiresAction, Some(vec![tool_call("call_a"), tool_call("call_b")]));
    assert_eq!(run.pending_tool_call_ids(), vec!["call_a".to_string(), "call_b".to_string()]);
    assert!(!run.is_complete());
    assert!(!run.is_terminal());
    let mut poller = RunPoller::new(policy());
    assert_eq!(poller.observe(PollEvent::Fetched(run.retrieve_status())), PollAction::SubmitToolOutputs);
}

#[test]
fn tool_outputs_are_paired_in_call_order() {
    let run = run_in(RunStatus::RequiresAction, Some(vec![tool_call("call_a"), tool_call("call_b")]));
    let outputs = vec![
        ("call_b".to_string(), "B".to_string()),
        ("call_a".to_string(), "A".to_string()),
        ("call_a".to_string(), "ignored".to_string()),
    ];
    let paired = run.tool_outputs_for(&outputs).unwrap();
    assert_eq!(paired.len(), 2);
    assert_eq!(paired[0].tool_call_id, "call_a");
    assert_eq!(paired[0].output, "A");
    assert_eq!(paired[1].tool_call_id, "call_b");
    assert_eq!(paired[1].output, "B");
    assert_eq!(
        run.submit_tool_outputs_request().endpoint,
        "threads/thread_1/runs/run_1/submit_tool_outputs"
    );
}

#[test]
fn tool_outputs_missing_one_are_refused() {
    let run = run_in(RunStatus::RequiresAction, Some(vec![tool_call("call_a"), tool_call("call_b")]));
    let outputs = vec![("call_a".to_string(), "A".to_string())];
    assert!(matches!(run.tool_outputs_for(&outputs), Err(OpenApiError::RestrictedValue(_))));
}

#[test]
fn tool_outputs_for_run_not_waiting_are_refused() {
    let run = run_in(RunStatus::InProgress, None);
    assert!(run.pending_tool_call_ids().is_empty());
    let outputs = vec![("call_a".to_string(), "A".to_string())];
    assert!(matches!(run.tool_outputs_for(&outputs), Err(OpenApiError::RestrictedValue(_))));
}

#[test]
fn cancelled_run_polls_end_in_cancelled() {
    let run = run_in(RunStatus::Queued, None);
    let cancel = run.cancel_request();
    assert_eq!(cancel.method, HttpMethod::Post);
    assert_eq!(cancel.endpoint, "threads/thread_1/runs/run_1/cancel");
    let mut poller = RunPoller::new(policy());
    assert_eq!(poller.observe(PollEvent::Fetched(RunStatus::Cancelling)), PollAction::FetchAfter(100));
    assert_eq!(poller.observe(PollEvent::Fetched(RunStatus::Cancelling)), PollAction::FetchAfter(200));
    let cancelled = PollAction::Stop(PollOutcome::Settled(RunStatus::Cancelled));
    assert_eq!(poller.observe(PollEvent::Fetched(RunStatus::Cancelled)), cancelled);
    assert_eq!(poller.observe(PollEvent::Fetched(RunStatus::Queued)), cancelled);
    assert_eq!(poller.observe(PollEvent::Fetched(RunStatus::InProgress)), cancelled);
}

#[test]
fn poll_request_refetches_by_thread_and_id() {
    let run = run_in(RunStatus::Queued, None);
    let request = run.retrieve_request();
    assert_eq!(request.method, HttpMethod::Get);
    assert_eq!(request.endpoint, "threads/thread_1/runs/run_1");
    assert_eq!(run.messages_request().endpoint, "threads/thread_1/messages");
    assert_eq!(run.get_identifier(), "run_1");
    assert_eq!((&run).get_identifier(), run.get_identifier());
}

fn message(id: &str) -> Message {
    Message {
        id: id.to_string(),
        object: "thread.message".to_string(),
        created_at: 0,
        thread_id: "thread_1".to_string(),
        role: MessageRole::Assistant,
        content: Vec::new(),
        assistant_id: None,
        run_id: None,
        file_ids: Vec::new(),
        metadata: HashMap::new(),
    }
}

#[test]
fn first_message_of_a_listing() {
    let listing = ApiList {
        object: "list".to_string(),
        data: vec![message("msg_1"), message("msg_2")],
        first_id: None,
        last_id: None,
        has_more: Some(false),
    };
    assert_eq!(first_message(listing).unwrap().id, "msg_1");
    let empty: ApiList<Message> =
        ApiList { object: "list".to_string(), data: Vec::new(), first_id: None, last_id: None, has_more: None };
    assert!(matches!(first_message(empty), Err(OpenApiError::ClientError(_))));
}
