//! The bounded generate → execute → classify → feedback cycle for code
//! tasks, as a state machine.
//!
//! The loop owns a conversation window and asks its driver, one action at a
//! time, to call the completion client, run extracted code through the
//! process bridge, ask the termination gatekeeper, or compress the window.
//! The driver feeds each answer back as an event. Every failed round — a
//! reply without a code block, a failed execution, or a result judged
//! incorrect — appends a feedback turn and consumes one round of the budget;
//! when the budget is exhausted the loop halts as unresolved, an outcome
//! distinct from success, never silently dropped and never an endless loop.

use vstd::prelude::*;
use vstd::string::*;
use crate::messages::{Content, Message, Role, content_text_spec};
use crate::extract::{extract_code, extract_code_spec};
use crate::compress::PREAMBLE_LEN;
use crate::text::{concat2, concat4};

verus! {

/// The round budget a repair loop runs with unless its caller picks another.
pub const DEFAULT_REPAIR_BUDGET: usize = 9;

/// Window length above which the tail is folded into a summary.
pub const WINDOW_LIMIT: usize = 5;

/// How a finished loop ended: with a result the gatekeeper accepted, or
/// unresolved after the budget ran out.
#[derive(Clone, Debug)]
pub enum RepairOutcome {
    Completed(String),
    Unresolved,
}

/// What the loop is waiting for.
#[derive(Clone, Debug)]
pub enum RepairPhase {
    /// Waiting for the completion client's generated reply.
    AwaitGeneration,
    /// Waiting for the extracted code to be executed.
    AwaitExecution(String),
    /// Waiting for the gatekeeper's verdict on code and captured output.
    AwaitVerdict(String, String),
    /// Waiting for the compressor's summary of the window tail.
    AwaitSummary,
    /// Halted.
    Done(RepairOutcome),
}

/// What the driver hands back after performing an action.
#[derive(Clone, Debug)]
pub enum RepairEvent {
    /// The raw reply the completion client generated.
    Generated(String),
    /// Whether execution exited cleanly, and the captured output or
    /// diagnostic.
    Executed(bool, String),
    /// The gatekeeper's verdict on whether the task is done.
    Judged(bool),
    /// The compressor's summarising reply.
    Summarized(String),
}

/// What the driver must do next.
#[derive(Clone, Debug)]
pub enum RepairAction {
    /// Ask the completion client for code against the current window.
    Generate,
    /// Execute this code through the process bridge.
    Execute(String),
    /// Ask the gatekeeper whether this captured output settles the task.
    Classify(String),
    /// Summarise the window tail.
    Compress,
    /// Stop driving the loop.
    Halt,
}

/// Ghost mirror of [`RepairOutcome`].
pub enum OutcomeView {
    Completed(Seq<char>),
    Unresolved,
}

/// Ghost mirror of [`RepairPhase`].
pub enum PhaseView {
    Generation,
    Execution(Seq<char>),
    Verdict(Seq<char>, Seq<char>),
    Summary,
    Done(OutcomeView),
}

/// Ghost mirror of [`RepairEvent`].
pub enum EventView {
    Generated(Seq<char>),
    Executed(bool, Seq<char>),
    Judged(bool),
    Summarized(Seq<char>),
}

/// The mathematical state of a [`RepairLoop`]: the window as role-tagged
/// texts, the instruction the gatekeeper judges against, the rounds spent,
/// the budget, and the phase.
pub struct RepairView {
    pub window: Seq<(Role, Seq<char>)>,
    pub instruction: Seq<char>,
    pub rounds: int,
    pub budget: int,
    pub phase: PhaseView,
}

/// The role and text a message contributes to the window model.
pub open spec fn message_entry(m: Message) -> (Role, Seq<char>) {
    (m.role, content_text_spec(m.content))
}

/// The window model of a message sequence.
pub open spec fn window_view(ms: Seq<Message>) -> Seq<(Role, Seq<char>)> {
    ms.map_values(|m: Message| message_entry(m))
}

/// Ghost mirror of a [`RepairPhase`] value.
pub open spec fn phase_view(p: RepairPhase) -> PhaseView {
    match p {
        RepairPhase::AwaitGeneration => PhaseView::Generation,
        RepairPhase::AwaitExecution(code) => PhaseView::Execution(code@),
        RepairPhase::AwaitVerdict(code, output) => PhaseView::Verdict(code@, output@),
        RepairPhase::AwaitSummary => PhaseView::Summary,
        RepairPhase::Done(RepairOutcome::Completed(out)) => PhaseView::Done(
            OutcomeView::Completed(out@),
        ),
        RepairPhase::Done(RepairOutcome::Unresolved) => PhaseView::Done(OutcomeView::Unresolved),
    }
}

/// Ghost mirror of a [`RepairEvent`] value.
pub open spec fn event_view(e: RepairEvent) -> EventView {
    match e {
        RepairEvent::Generated(reply) => EventView::Generated(reply@),
        RepairEvent::Executed(ok, output) => EventView::Executed(ok, output@),
        RepairEvent::Judged(done) => EventView::Judged(done),
        RepairEvent::Summarized(text) => EventView::Summarized(text@),
    }
}

/// The feedback turn appended after a failed execution (or a reply with no
/// code block).
pub open spec fn failure_feedback_spec(code: Seq<char>, errors: Seq<char>) -> Seq<char> {
    "Failed to execute the code:\n"@ + code + ", got the following errors:\n"@ + errors
}

/// The feedback turn appended after an execution whose result the gatekeeper
/// judged incorrect.
pub open spec fn incorrect_feedback_spec(code: Seq<char>, result: Seq<char>) -> Seq<char> {
    "Executed the code below:\n"@ + code
        + "\nproducing the following result, but the result is incorrect:\n"@ + result
}

/// The opening user turn built from the task's key points.
pub open spec fn start_prompt_spec(task: Seq<char>) -> Seq<char> {
    "Complete the following task with Python code: "@ + task
}

impl RepairView {
    /// The budget is positive, the preamble is in place, and the rounds
    /// spent never pass the budget — strictly below it while the loop still
    /// runs.
    pub open spec fn wf(self) -> bool {
        &&& self.budget >= 1
        &&& self.rounds >= 0
        &&& self.window.len() >= PREAMBLE_LEN
        &&& match self.phase {
            PhaseView::Done(_) => self.rounds <= self.budget,
            _ => self.rounds < self.budget,
        }
    }
}

/// The machine accepts an event only in the phase that awaits it; a halted
/// machine accepts nothing.
pub open spec fn accepts(v: RepairView, e: EventView) -> bool {
    match (v.phase, e) {
        (PhaseView::Generation, EventView::Generated(_)) => true,
        (PhaseView::Execution(_), EventView::Executed(_, _)) => true,
        (PhaseView::Verdict(_, _), EventView::Judged(_)) => true,
        (PhaseView::Summary, EventView::Summarized(_)) => true,
        _ => false,
    }
}

/// One failed round: the round is spent; if it was the last, the loop halts
/// unresolved, otherwise the feedback turn is appended and the loop either
/// asks for a summary (window over the limit) or generates again.
pub open spec fn fail_view(v: RepairView, feedback: Seq<char>) -> RepairView {
    if v.rounds + 1 >= v.budget {
        RepairView {
            window: v.window,
            instruction: v.instruction,
            rounds: v.rounds + 1,
            budget: v.budget,
            phase: PhaseView::Done(OutcomeView::Unresolved),
        }
    } else {
        let w = v.window.push((Role::User, feedback));
        RepairView {
            window: w,
            instruction: v.instruction,
            rounds: v.rounds + 1,
            budget: v.budget,
            phase: if w.len() > WINDOW_LIMIT as int {
                PhaseView::Summary
            } else {
                PhaseView::Generation
            },
        }
    }
}

/// The transition the machine makes on one accepted event.
pub open spec fn step_spec(v: RepairView, e: EventView) -> RepairView {
    match (v.phase, e) {
        (PhaseView::Generation, EventView::Generated(reply)) => {
            let code = extract_code_spec(reply);
            if code.len() > 0 {
                RepairView {
                    window: v.window,
                    instruction: v.instruction,
                    rounds: v.rounds,
                    budget: v.budget,
                    phase: PhaseView::Execution(code),
                }
            } else {
                fail_view(
                    v,
                    failure_feedback_spec(reply, "no fenced python code block in the reply"@),
                )
            }
        },
        (PhaseView::Execution(code), EventView::Executed(ok, output)) => {
            if ok {
                RepairView {
                    window: v.window,
                    instruction: v.instruction,
                    rounds: v.rounds,
                    budget: v.budget,
                    phase: PhaseView::Verdict(code, output),
                }
            } else {
                fail_view(v, failure_feedback_spec(code, output))
            }
        },
        (PhaseView::Verdict(code, output), EventView::Judged(done)) => {
            if done {
                RepairView {
                    window: v.window,
                    instruction: v.instruction,
                    rounds: v.rounds,
                    budget: v.budget,
                    phase: PhaseView::Done(OutcomeView::Completed(output)),
                }
            } else {
                fail_view(v, incorrect_feedback_spec(code, output))
            }
        },
        (PhaseView::Summary, EventView::Summarized(text)) => RepairView {
            window: v.window.take(PREAMBLE_LEN as int).push((Role::User, text)),
            instruction: v.instruction,
            rounds: v.rounds,
            budget: v.budget,
            phase: PhaseView::Generation,
        },
        _ => v,
    }
}

/// Ranks phases so that one round's phases descend: summary, generation,
/// execution, verdict, halt.
pub open spec fn phase_rank(p: PhaseView) -> int {
    match p {
        PhaseView::Done(_) => 0,
        PhaseView::Verdict(_, _) => 1,
        PhaseView::Execution(_) => 2,
        PhaseView::Generation => 3,
        PhaseView::Summary => 4,
    }
}

/// A bound on how many more events the machine can accept.
pub open spec fn measure(v: RepairView) -> int {
    (v.budget - v.rounds) * 5 + phase_rank(v.phase)
}

/// Every accepted event keeps the machine well-formed and strictly decreases
/// the measure, which stays non-negative: no run, failing or not, goes on
/// forever.
pub proof fn lemma_step_decreases(v: RepairView, e: EventView)
    requires
        v.wf(),
        accepts(v, e),
    ensures
        step_spec(v, e).wf(),
        0 <= measure(step_spec(v, e)) < measure(v),
{
}

/// The events a run sees when every execution attempt fails: replies (whose
/// code may or may not extract), failed executions, and summaries. No
/// successful execution means the gatekeeper is never consulted.
pub open spec fn is_failure_event(e: EventView) -> bool {
    match e {
        EventView::Generated(_) => true,
        EventView::Executed(ok, _) => !ok,
        EventView::Judged(_) => false,
        EventView::Summarized(_) => true,
    }
}

/// Holds while a failing run can still only end unresolved: once halted, the
/// outcome is unresolved and the rounds spent equal the budget exactly.
pub open spec fn unresolved_pending(v: RepairView) -> bool {
    match v.phase {
        PhaseView::Done(o) => o is Unresolved && v.rounds == v.budget,
        _ => true,
    }
}

/// One failure event preserves [`unresolved_pending`].
pub proof fn lemma_step_failure(v: RepairView, e: EventView)
    requires
        v.wf(),
        accepts(v, e),
        is_failure_event(e),
        unresolved_pending(v),
    ensures
        unresolved_pending(step_spec(v, e)),
{
}

/// The machine after a whole event sequence.
pub open spec fn run_steps(v: RepairView, es: Seq<EventView>) -> RepairView
    decreases es.len(),
{
    if es.len() == 0 {
        v
    } else {
        run_steps(step_spec(v, es[0]), es.skip(1))
    }
}

/// Each event of the sequence is accepted by the machine at its turn.
pub open spec fn trace_ok(v: RepairView, es: Seq<EventView>) -> bool
    decreases es.len(),
{
    es.len() == 0 || (accepts(v, es[0]) && trace_ok(step_spec(v, es[0]), es.skip(1)))
}

/// Every event of the sequence is a failure event.
pub open spec fn all_failures(es: Seq<EventView>) -> bool {
    forall|i: int| 0 <= i < es.len() ==> is_failure_event(#[trigger] es[i])
}

/// When every execution attempt fails, the loop never runs forever — the
/// trace length is bounded by the measure — and if it halts, it halts as
/// unresolved with exactly the configured budget of rounds spent, never
/// conflated with success.
pub proof fn lemma_all_failures_unresolved(v: RepairView, es: Seq<EventView>)
    requires
        v.wf(),
        unresolved_pending(v),
        trace_ok(v, es),
        all_failures(es),
    ensures
        run_steps(v, es).wf(),
        unresolved_pending(run_steps(v, es)),
        es.len() + measure(run_steps(v, es)) <= measure(v),
    decreases es.len(),
{
    if es.len() > 0 {
        lemma_step_decreases(v, es[0]);
        lemma_step_failure(v, es[0]);
        let v1 = step_spec(v, es[0]);
        assert(all_failures(es.skip(1))) by {
            assert forall|i: int| 0 <= i < es.skip(1).len() implies is_failure_event(
                #[trigger] es.skip(1)[i],
            ) by {
                assert(es.skip(1)[i] == es[i + 1]);
            }
        }
        lemma_all_failures_unresolved(v1, es.skip(1));
    }
}

/// The bounded generate → execute → classify → feedback cycle: a
/// conversation window, the instruction the gatekeeper judges against, the
/// rounds spent so far, the configured budget, and the phase.
pub struct RepairLoop {
    pub window: Vec<Message>,
    pub instruction: String,
    pub rounds: usize,
    pub budget: usize,
    pub phase: RepairPhase,
}

impl View for RepairLoop {
    type V = RepairView;

    open spec fn view(&self) -> RepairView {
        RepairView {
            window: window_view(self.window@),
            instruction: self.instruction@,
            rounds: self.rounds as int,
            budget: self.budget as int,
            phase: phase_view(self.phase),
        }
    }
}

impl RepairLoop {
    pub open spec fn wf(self) -> bool {
        self@.wf()
    }

    /// A fresh loop over a window holding the system setup and the opening
    /// user turn built from the task's key points.
    pub fn new(system_prompt: String, task: &str, budget: usize) -> (r: RepairLoop)
        requires
            budget >= 1,
        ensures
            r.wf(),
            r@.phase == PhaseView::Generation,
            r@.rounds == 0,
            r@.budget == budget,
            r@.instruction == start_prompt_spec(task@),
            r@.window == seq![
                (Role::System, system_prompt@),
                (Role::User, start_prompt_spec(task@)),
            ],
    {
        let start = concat2("Complete the following task with Python code: ", task);
        let mut window: Vec<Message> = Vec::new();
        window.push(
            Message { content: Content::Text(system_prompt), name: None, role: Role::System },
        );
        window.push(Message { content: Content::Text(start.clone()), name: None, role: Role::User });
        let r = RepairLoop {
            window,
            instruction: start,
            rounds: 0,
            budget,
            phase: RepairPhase::AwaitGeneration,
        };
        proof {
            assert(r@.window =~= seq![
                (Role::System, system_prompt@),
                (Role::User, start_prompt_spec(task@)),
            ]);
        }
        r
    }

    /// One failed round, at the executable level.
    fn fail_step(&mut self, feedback: String) -> (a: RepairAction)
        requires
            old(self).wf(),
            !(old(self)@.phase is Done),
        ensures
            final(self)@ == fail_view(old(self)@, feedback@),
            (match final(self)@.phase {
                PhaseView::Generation => a == RepairAction::Generate,
                PhaseView::Execution(c) => a matches RepairAction::Execute(s) && s@ == c,
                PhaseView::Verdict(_, o) => a matches RepairAction::Classify(s) && s@ == o,
                PhaseView::Summary => a == RepairAction::Compress,
                PhaseView::Done(_) => a == RepairAction::Halt,
            }),
    {
        self.rounds = self.rounds + 1;
        if self.rounds >= self.budget {
            self.phase = RepairPhase::Done(RepairOutcome::Unresolved);
            RepairAction::Halt
        } else {
            self.window.push(
                Message { content: Content::Text(feedback), name: None, role: Role::User },
            );
            proof {
                assert(window_view(self.window@) =~= window_view(old(self).window@).push(
                    (Role::User, feedback@),
                ));
            }
            if self.window.len() > WINDOW_LIMIT {
                self.phase = RepairPhase::AwaitSummary;
                RepairAction::Compress
            } else {
                self.phase = RepairPhase::AwaitGeneration;
                RepairAction::Generate
            }
        }
    }

    /// Feeds one event into the machine and says what to do next. The event
    /// must be the one the current phase awaits.
    pub fn step(&mut self, event: RepairEvent) -> (a: RepairAction)
        requires
            old(self).wf(),
            accepts(old(self)@, event_view(event)),
        ensures
            final(self).wf(),
            final(self)@ == step_spec(old(self)@, event_view(event)),
            (match final(self)@.phase {
                PhaseView::Generation => a == RepairAction::Generate,
                PhaseView::Execution(c) => a matches RepairAction::Execute(s) && s@ == c,
                PhaseView::Verdict(_, o) => a matches RepairAction::Classify(s) && s@ == o,
                PhaseView::Summary => a == RepairAction::Compress,
                PhaseView::Done(_) => a == RepairAction::Halt,
            }),
    {
        match event {
            RepairEvent::Generated(reply) => {
                let code = extract_code(reply.as_str());
                if code.as_str().unicode_len() > 0 {
                    let code_for_driver = code.clone();
                    self.phase = RepairPhase::AwaitExecution(code);
                    RepairAction::Execute(code_for_driver)
                } else {
                    let feedback = concat4(
                        "Failed to execute the code:\n",
                        reply.as_str(),
                        ", got the following errors:\n",
                        "no fenced python code block in the reply",
                    );
                    self.fail_step(feedback)
                }
            },
            RepairEvent::Executed(ok, output) => {
                let code = match &self.phase {
                    RepairPhase::AwaitExecution(c) => c.clone(),
                    _ => unreached(),
                };
                if ok {
                    let output_for_driver = output.clone();
                    self.phase = RepairPhase::AwaitVerdict(code, output);
                    RepairAction::Classify(output_for_driver)
                } else {
                    let feedback = concat4(
                        "Failed to execute the code:\n",
                        code.as_str(),
                        ", got the following errors:\n",
                        output.as_str(),
                    );
                    self.fail_step(feedback)
                }
            },
            RepairEvent::Judged(done) => {
                let (code, output) = match &self.phase {
                    RepairPhase::AwaitVerdict(c, o) => (c.clone(), o.clone()),
                    _ => unreached(),
                };
                if done {
                    self.phase = RepairPhase::Done(RepairOutcome::Completed(output));
                    RepairAction::Halt
                } else {
                    let feedback = concat4(
                        "Executed the code below:\n",
                        code.as_str(),
                        "\nproducing the following result, but the result is incorrect:\n",
                        output.as_str(),
                    );
                    self.fail_step(feedback)
                }
            },
            RepairEvent::Summarized(text) => {
                self.window.truncate(PREAMBLE_LEN);
                self.window.push(
                    Message { content: Content::Text(text), name: None, role: Role::User },
                );
                proof {
                    assert(window_view(self.window@) =~= window_view(old(self).window@).take(
                        PREAMBLE_LEN as int,
                    ).push((Role::User, text@)));
                }
                self.phase = RepairPhase::AwaitGeneration;
                RepairAction::Generate
            },
        }
    }
}

} // verus!
