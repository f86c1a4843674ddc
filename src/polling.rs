use vstd::prelude::*;

use crate::run::RunStatus;

verus! {

/// How the caller wants a run awaited: the first delay between polls, the
/// cap the delay doubles up to, and the most polls to make.
#[derive(Clone, Copy, Debug, PartialEq, Eq, Structural)]
pub struct PollPolicy {
    pub initial_delay_ms: u64,
    pub max_delay_ms: u64,
    pub max_polls: u64,
}

impl PollPolicy {
    /// A policy never asks for a poll without a delay, and allows one poll.
    pub open spec fn wf(&self) -> bool {
        1 <= self.initial_delay_ms <= self.max_delay_ms && 1 <= self.max_polls
    }
}

/// Why awaiting a run ended.
#[derive(Clone, Copy, Debug, PartialEq, Eq, Structural)]
pub enum PollOutcome {
    /// The run reached this terminal status.
    Settled(RunStatus),
    /// The caller's cancellation signal fired; the remote run is untouched.
    Interrupted,
    /// The poll budget ran out before a terminal status.
    TimedOut,
    /// A fetch failed at the transport level; nothing is retried.
    TransportFailed,
}

/// What the caller observed since the last decision.
#[derive(Clone, Copy, Debug, PartialEq, Eq, Structural)]
pub enum PollEvent {
    /// A fetch (or a submission) returned a run in this status.
    Fetched(RunStatus),
    /// A fetch failed at the transport level.
    FetchFailed,
    /// The caller's cancellation signal fired.
    Interrupt,
}

/// What the caller is to do next.
#[derive(Clone, Copy, Debug, PartialEq, Eq, Structural)]
pub enum PollAction {
    /// Wait this many milliseconds, then fetch the run again.
    FetchAfter(u64),
    /// Submit outputs for the pending tool calls, then report the run the
    /// submission returned.
    SubmitToolOutputs,
    /// Stop polling.
    Stop(PollOutcome),
}

/// The decisions of a loop that awaits a run's terminal status.
///
/// The caller performs each action and reports what it observed; the
/// poller never sleeps or fetches itself.
#[derive(Clone, Copy, Debug, PartialEq, Eq, Structural)]
pub struct RunPoller {
    pub policy: PollPolicy,
    pub polls: u64,
    pub next_delay_ms: u64,
    pub outcome: Option<PollOutcome>,
}

/// The delay after `delay`: doubled, up to `max`.
pub open spec fn grown_delay(delay: u64, max: u64) -> u64 {
    if delay + delay >= max {
        max
    } else {
        (delay + delay) as u64
    }
}

impl RunPoller {
    pub open spec fn wf(&self) -> bool {
        &&& self.policy.wf()
        &&& 1 <= self.next_delay_ms <= self.policy.max_delay_ms
        &&& self.polls <= self.policy.max_polls
        &&& self.outcome is None ==> self.polls < self.policy.max_polls
    }

    /// The poller stopped with `o`.
    pub open spec fn stopped(self, o: PollOutcome) -> (RunPoller, PollAction) {
        (RunPoller { outcome: Some(o), ..self }, PollAction::Stop(o))
    }

    /// One decision: the poller after `event`, and the action it asks for.
    pub open spec fn step(self, event: PollEvent) -> (RunPoller, PollAction) {
        match self.outcome {
            Some(o) => (self, PollAction::Stop(o)),
            None => match event {
                PollEvent::Interrupt => self.stopped(PollOutcome::Interrupted),
                PollEvent::FetchFailed => self.stopped(PollOutcome::TransportFailed),
                PollEvent::Fetched(status) => {
                    let counted = RunPoller { polls: (self.polls + 1) as u64, ..self };
                    if status.spec_is_terminal() {
                        counted.stopped(PollOutcome::Settled(status))
                    } else if counted.polls >= self.policy.max_polls {
                        counted.stopped(PollOutcome::TimedOut)
                    } else if status == RunStatus::RequiresAction {
                        (counted, PollAction::SubmitToolOutputs)
                    } else {
                        (
                            RunPoller {
                                next_delay_ms: grown_delay(
                                    self.next_delay_ms,
                                    self.policy.max_delay_ms,
                                ),
                                ..counted
                            },
                            PollAction::FetchAfter(self.next_delay_ms),
                        )
                    }
                },
            },
        }
    }

    /// The actions asked for over a sequence of events.
    pub open spec fn actions(self, events: Seq<PollEvent>) -> Seq<PollAction>
        decreases events.len(),
    {
        if events.len() == 0 {
            Seq::empty()
        } else {
            let (next, action) = self.step(events[0]);
            seq![action] + next.actions(events.drop_first())
        }
    }

    /// A poller that has made no poll yet.
    pub fn new(policy: PollPolicy) -> (r: Self)
        requires
            policy.wf(),
        ensures
            r.wf(),
            r.policy == policy,
            r.polls == 0,
            r.next_delay_ms == policy.initial_delay_ms,
            r.outcome is None,
    {
        RunPoller { policy, polls: 0, next_delay_ms: policy.initial_delay_ms, outcome: None }
    }

    /// Records `event` and returns the next action.
    pub fn observe(&mut self, event: PollEvent) -> (r: PollAction)
        requires
            old(self).wf(),
        ensures
            (*final(self), r) == old(self).step(event),
            final(self).wf(),
    {
        if let Some(o) = self.outcome {
            return PollAction::Stop(o);
        }
        match event {
            PollEvent::Interrupt => {
                self.outcome = Some(PollOutcome::Interrupted);
                PollAction::Stop(PollOutcome::Interrupted)
            },
            PollEvent::FetchFailed => {
                self.outcome = Some(PollOutcome::TransportFailed);
                PollAction::Stop(PollOutcome::TransportFailed)
            },
            PollEvent::Fetched(status) => {
                self.polls = self.polls + 1;
                if status.is_terminal() {
                    self.outcome = Some(PollOutcome::Settled(status));
                    PollAction::Stop(PollOutcome::Settled(status))
                } else if self.polls >= self.policy.max_polls {
                    self.outcome = Some(PollOutcome::TimedOut);
                    PollAction::Stop(PollOutcome::TimedOut)
                } else if status == RunStatus::RequiresAction {
                    PollAction::SubmitToolOutputs
                } else {
                    let delay = self.next_delay_ms;
                    let max = self.policy.max_delay_ms;
                    self.next_delay_ms = if delay >= max - delay {
                        max
                    } else {
                        delay + delay
                    };
                    PollAction::FetchAfter(delay)
                }
            },
        }
    }
}

/// One action per event; the first is the first step's, the rest come from
/// the poller that step leaves.
proof fn lemma_actions_unfold(p: RunPoller, events: Seq<PollEvent>)
    ensures
        p.actions(events).len() == events.len(),
        events.len() > 0 ==> p.actions(events)[0] == p.step(events[0]).1,
        forall|j: int|
            0 < j < events.len() ==> #[trigger] p.actions(events)[j] == p.step(
                events[0],
            ).0.actions(events.drop_first())[j - 1],
    decreases events.len(),
{
    if events.len() > 0 {
        lemma_actions_unfold(p.step(events[0]).0, events.drop_first());
    }
}

/// A stopped poller stays stopped: every later event yields the same stop.
pub proof fn lemma_stopped_poller_stays_stopped(p: RunPoller, events: Seq<PollEvent>)
    requires
        p.outcome is Some,
    ensures
        forall|j: int|
            0 <= j < events.len() ==> #[trigger] p.actions(events)[j] == PollAction::Stop(
                p.outcome->0,
            ),
    decreases events.len(),
{
    lemma_actions_unfold(p, events);
    if events.len() > 0 {
        lemma_stopped_poller_stays_stopped(p, events.drop_first());
        assert forall|j: int| 0 <= j < events.len() implies #[trigger] p.actions(events)[j]
            == PollAction::Stop(p.outcome->0) by {
        }
    }
}

/// Once the poller asks to stop, it never asks to poll again: every later
/// action is that same stop, whatever the service reports afterwards.
pub proof fn lemma_no_poll_after_stop(p: RunPoller, events: Seq<PollEvent>, i: int, j: int)
    requires
        0 <= i < j < events.len(),
        p.actions(events)[i] is Stop,
    ensures
        p.actions(events)[j] == p.actions(events)[i],
    decreases i,
{
    lemma_actions_unfold(p, events);
    let (next, action) = p.step(events[0]);
    let rest = events.drop_first();
    lemma_actions_unfold(next, rest);
    if i == 0 {
        assert(next.outcome == Some(action->Stop_0));
        lemma_stopped_poller_stays_stopped(next, rest);
    } else {
        lemma_no_poll_after_stop(next, rest, i - 1, j - 1);
    }
}

/// A terminal status ends the wait with that status, whatever the budget.
pub proof fn lemma_terminal_status_settles(p: RunPoller, status: RunStatus)
    requires
        p.wf(),
        p.outcome is None,
        status.spec_is_terminal(),
    ensures
        p.step(PollEvent::Fetched(status)).1 == PollAction::Stop(PollOutcome::Settled(status)),
        p.step(PollEvent::Fetched(status)).0.outcome == Some(PollOutcome::Settled(status)),
{
}

/// A run paused on tool calls is never reported as settled.
pub proof fn lemma_requires_action_does_not_settle(p: RunPoller)
    requires
        p.wf(),
        p.outcome is None,
    ensures
        !(p.step(PollEvent::Fetched(RunStatus::RequiresAction)).1 matches PollAction::Stop(
            PollOutcome::Settled(_),
        )),
{
}

/// The poller never asks for a fetch without a delay, nor for one longer
/// than the policy's cap; each step keeps the poller well formed.
pub proof fn lemma_fetches_are_spaced(p: RunPoller, event: PollEvent)
    requires
        p.wf(),
    ensures
        p.step(event).0.wf(),
        p.step(event).1 matches PollAction::FetchAfter(d) ==> 1 <= d <= p.policy.max_delay_ms,
{
}

} // verus!
