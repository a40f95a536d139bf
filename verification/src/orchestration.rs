//! The decisions of an orchestrated run: after the planner, whether the
//! plan is reviewed, answered directly or delegated; which worker runs
//! next, with what instruction, and whether its result earns a follow-up
//! round, is accepted or is escalated; whether the quality critic runs; and
//! when the synthesis finishes the run. Every completion is asked only while
//! the runtime budget lasts. The completions themselves, and the parsing of
//! their JSON answers, run outside; each answer comes back as an event.

use vstd::prelude::*;

use crate::control::AutonomyPolicy;
use crate::orchestrate::{
    budget_exceeded_message, excerpt, make_checkpoint, make_trace_entry, make_transcript_entry, OrchestrationCheckpoint,
    OrchestrationTraceEntry, OrchestrationTranscriptEntry, ResolvedModelDecision, WorkerOutcome,
};
use crate::text::{concat2, concat3, concat5, decimal, is_blank, owned, strs, trim, trim_seq, usize_text};

verus! {

/// A task the planner hands to a worker claw.
pub struct Delegation {
    pub claw_id: String,
    pub instruction: String,
    pub reason: String,
}

/// The limits of the autonomy policy that steer a run.
#[derive(Clone, Copy, Debug, PartialEq, Eq, Structural)]
pub struct RunPolicy {
    pub steering_enabled: bool,
    pub critic_enabled: bool,
    pub max_delegations: usize,
    pub max_iterations: usize,
    pub max_runtime_secs: u64,
}

/// A delegation as plain values: claw id, instruction, reason.
pub type DelegationView = (Seq<char>, Seq<char>, Seq<char>);

pub open spec fn delegations_view(v: Seq<Delegation>) -> Seq<DelegationView> {
    v.map_values(|d: Delegation| (d.claw_id@, d.instruction@, d.reason@))
}

/// Where the run stands.
#[derive(Clone, Copy, Debug, PartialEq, Eq, Structural)]
pub enum OrchestrationPhase {
    Planning,
    PlanReview,
    Working,
    FollowUpReview,
    QualityReview,
    Synthesis,
    Done,
}

/// The run's state between two completions.
pub struct OrchestrationState {
    pub phase: OrchestrationPhase,
    pub autonomy: RunPolicy,
    /// The operator's request.
    pub prompt: String,
    /// What the planner answered: its direct response, whether it chose to
    /// answer directly, and its raw text.
    pub direct_response: Option<String>,
    pub answer_directly: bool,
    pub planner_text: String,
    /// The delegations to run, at most the allowed number.
    pub delegations: Vec<Delegation>,
    /// The delegation running, its follow-up round and instruction.
    pub current: usize,
    pub follow_up_count: usize,
    pub instruction: String,
    /// A worker result awaiting its follow-up review, with its full output.
    pub pending: Option<WorkerOutcome>,
    pub pending_output: String,
    /// The accepted worker results, in order, with whether each was
    /// escalated and the note that escalated it.
    pub results: Vec<WorkerOutcome>,
    pub escalated: Vec<bool>,
    pub escalation_notes: Vec<Option<String>>,
    /// The reflection notes gathered from the reviews.
    pub notes: Vec<String>,
}

/// A worker result as plain values: status, question count, and whether
/// its confidence is below the follow-up and critic thresholds.
pub type OutcomeView = (Seq<char>, nat, bool, bool);

pub open spec fn outcome_view(w: WorkerOutcome) -> OutcomeView {
    (w.status@, w.question_count as nat, w.confidence_below_follow_up, w.confidence_below_critic)
}

pub open spec fn outcomes_view(v: Seq<WorkerOutcome>) -> Seq<OutcomeView> {
    v.map_values(|w: WorkerOutcome| outcome_view(w))
}

pub open spec fn opt_view(o: Option<String>) -> Option<Seq<char>> {
    crate::text::opt_string_view(o)
}

pub struct OrchestrationStateView {
    pub phase: OrchestrationPhase,
    pub autonomy: RunPolicy,
    pub prompt: Seq<char>,
    pub direct_response: Option<Seq<char>>,
    pub answer_directly: bool,
    pub planner_text: Seq<char>,
    pub delegations: Seq<DelegationView>,
    pub current: nat,
    pub follow_up_count: nat,
    pub instruction: Seq<char>,
    pub pending: Option<OutcomeView>,
    pub pending_output: Seq<char>,
    pub results: Seq<OutcomeView>,
    pub escalated: Seq<bool>,
    pub escalation_notes: Seq<Option<Seq<char>>>,
    pub notes: Seq<Seq<char>>,
}

impl View for OrchestrationState {
    type V = OrchestrationStateView;

    open spec fn view(&self) -> OrchestrationStateView {
        OrchestrationStateView {
            phase: self.phase,
            autonomy: self.autonomy,
            prompt: self.prompt@,
            direct_response: opt_view(self.direct_response),
            answer_directly: self.answer_directly,
            planner_text: self.planner_text@,
            delegations: delegations_view(self.delegations@),
            current: self.current as nat,
            follow_up_count: self.follow_up_count as nat,
            instruction: self.instruction@,
            pending: match self.pending {
                Some(w) => Some(outcome_view(w)),
                None => None,
            },
            pending_output: self.pending_output@,
            results: outcomes_view(self.results@),
            escalated: self.escalated@,
            escalation_notes: self.escalation_notes@.map_values(|o: Option<String>| opt_view(o)),
            notes: strs(self.notes@),
        }
    }
}

/// A completion's answer, as parsed outside.
pub enum OrchestrationEvent {
    /// The planner answered: `parsed` when its JSON was read; then its
    /// final mode, direct response and delegations. `raw` is its text.
    Planned {
        parsed: bool,
        final_mode: Option<String>,
        direct_response: Option<String>,
        delegations: Vec<Delegation>,
        raw: String,
    },
    /// The plan review answered with an action and a note.
    PlanReviewed { action: Option<String>, note: Option<String> },
    /// The running worker answered.
    WorkerAnswered { outcome: WorkerOutcome, full_output: String },
    /// The follow-up review answered.
    FollowUpReviewed { action: Option<String>, instruction: Option<String>, note: Option<String> },
    /// The quality critic answered with a note.
    QualityReviewed { note: Option<String> },
    /// The synthesis answered with the final output.
    Synthesized(String),
}

pub enum OrchestrationEventView {
    Planned {
        parsed: bool,
        final_mode: Option<Seq<char>>,
        direct_response: Option<Seq<char>>,
        delegations: Seq<DelegationView>,
        raw: Seq<char>,
    },
    PlanReviewed { action: Option<Seq<char>>, note: Option<Seq<char>> },
    WorkerAnswered { outcome: OutcomeView, full_output: Seq<char> },
    FollowUpReviewed { action: Option<Seq<char>>, instruction: Option<Seq<char>>, note: Option<Seq<char>> },
    QualityReviewed { note: Option<Seq<char>> },
    Synthesized(Seq<char>),
}

impl View for OrchestrationEvent {
    type V = OrchestrationEventView;

    open spec fn view(&self) -> OrchestrationEventView {
        match self {
            OrchestrationEvent::Planned { parsed, final_mode, direct_response, delegations, raw } =>
                OrchestrationEventView::Planned {
                parsed: *parsed,
                final_mode: opt_view(*final_mode),
                direct_response: opt_view(*direct_response),
                delegations: delegations_view(delegations@),
                raw: raw@,
            },
            OrchestrationEvent::PlanReviewed { action, note } => OrchestrationEventView::PlanReviewed {
                action: opt_view(*action),
                note: opt_view(*note),
            },
            OrchestrationEvent::WorkerAnswered { outcome, full_output } => OrchestrationEventView::WorkerAnswered {
                outcome: outcome_view(*outcome),
                full_output: full_output@,
            },
            OrchestrationEvent::FollowUpReviewed { action, instruction, note } =>
                OrchestrationEventView::FollowUpReviewed {
                action: opt_view(*action),
                instruction: opt_view(*instruction),
                note: opt_view(*note),
            },
            OrchestrationEvent::QualityReviewed { note } => OrchestrationEventView::QualityReviewed {
                note: opt_view(*note),
            },
            OrchestrationEvent::Synthesized(t) => OrchestrationEventView::Synthesized(t@),
        }
    }
}

/// What the run asks to be done next.
pub enum OrchestrationAction {
    /// Ask the orchestrator to plan, with at most this many delegations.
    AskPlanner { max_delegations: usize },
    /// Ask the critic to review the plan.
    AskPlanReview,
    /// Ask the worker of delegation `index` with this user prompt, in this
    /// follow-up round.
    AskWorker { index: usize, claw_id: String, user_prompt: String, round: usize },
    /// Ask whether the result of delegation `index` needs a follow-up.
    AskFollowUpReview { index: usize },
    /// Ask the critic to review the workers' results.
    AskQualityReview,
    /// Ask the orchestrator to synthesize the final answer.
    AskSynthesis,
    /// The run is over with this final output.
    Finish { final_output: String },
    /// The run stops with this error.
    Fail(String),
    /// The answer does not fit where the run stands; nothing changes.
    Ignore,
}

pub enum OrchestrationActionView {
    AskPlanner { max_delegations: nat },
    AskPlanReview,
    AskWorker { index: nat, claw_id: Seq<char>, user_prompt: Seq<char>, round: nat },
    AskFollowUpReview { index: nat },
    AskQualityReview,
    AskSynthesis,
    Finish { final_output: Seq<char> },
    Fail(Seq<char>),
    Ignore,
}

impl View for OrchestrationAction {
    type V = OrchestrationActionView;

    open spec fn view(&self) -> OrchestrationActionView {
        match self {
            OrchestrationAction::AskPlanner { max_delegations } => OrchestrationActionView::AskPlanner {
                max_delegations: *max_delegations as nat,
            },
            OrchestrationAction::AskPlanReview => OrchestrationActionView::AskPlanReview,
            OrchestrationAction::AskWorker { index, claw_id, user_prompt, round } => OrchestrationActionView::AskWorker {
                index: *index as nat,
                claw_id: claw_id@,
                user_prompt: user_prompt@,
                round: *round as nat,
            },
            OrchestrationAction::AskFollowUpReview { index } => OrchestrationActionView::AskFollowUpReview {
                index: *index as nat,
            },
            OrchestrationAction::AskQualityReview => OrchestrationActionView::AskQualityReview,
            OrchestrationAction::AskSynthesis => OrchestrationActionView::AskSynthesis,
            OrchestrationAction::Finish { final_output } => OrchestrationActionView::Finish {
                final_output: final_output@,
            },
            OrchestrationAction::Fail(m) => OrchestrationActionView::Fail(m@),
            OrchestrationAction::Ignore => OrchestrationActionView::Ignore,
        }
    }
}

// ---------------------------------------------------------------------
// The decisions, as plain values

/// The number of delegations a plan may run: the policy's, at least one.
pub open spec fn delegation_limit(a: RunPolicy) -> nat {
    if a.max_delegations == 0 {
        1
    } else {
        a.max_delegations as nat
    }
}

/// The user prompt of a worker.
pub open spec fn worker_prompt(request: Seq<char>, instruction: Seq<char>, reason: Seq<char>, round: nat) -> Seq<char> {
    "Original request:\n"@ + request + "\n\nAssigned subtask:\n"@ + instruction + "\n\nReason for assignment:\n"@
        + reason + "\n\nFollow-up round: "@ + decimal(round)
}

/// The note a review leaves, when it has one that is not blank.
pub open spec fn note_added(notes: Seq<Seq<char>>, label: Seq<char>, note: Option<Seq<char>>) -> Seq<Seq<char>> {
    match note {
        Some(n) => if trim_seq(n).len() > 0 {
            notes.push(label + trim_seq(n))
        } else {
            notes
        },
        None => notes,
    }
}

/// Asks for a completion while the budget lasts; past it, the run fails.
pub open spec fn ask(
    s: OrchestrationStateView,
    s2: OrchestrationStateView,
    a: OrchestrationActionView,
    elapsed: u64,
) -> (OrchestrationStateView, OrchestrationActionView) {
    if elapsed >= s.autonomy.max_runtime_secs {
        (
            OrchestrationStateView { phase: OrchestrationPhase::Done, ..s },
            OrchestrationActionView::Fail(budget_exceeded_message(s.autonomy.max_runtime_secs)),
        )
    } else {
        (s2, a)
    }
}

/// Starts delegation `k`, in round zero with its own instruction.
pub open spec fn start_worker(s: OrchestrationStateView, k: nat, elapsed: u64) -> (
    OrchestrationStateView,
    OrchestrationActionView,
) {
    let d = s.delegations[k as int];
    ask(
        s,
        OrchestrationStateView {
            phase: OrchestrationPhase::Working,
            current: k,
            follow_up_count: 0,
            instruction: d.1,
            ..s
        },
        OrchestrationActionView::AskWorker {
            index: k,
            claw_id: d.0,
            user_prompt: worker_prompt(s.prompt, d.1, d.2, 0),
            round: 0,
        },
        elapsed,
    )
}

/// After the last worker: the quality critic when it is on and some result
/// needs it, else the synthesis.
pub open spec fn after_workers(s: OrchestrationStateView, elapsed: u64) -> (
    OrchestrationStateView,
    OrchestrationActionView,
) {
    if s.autonomy.critic_enabled && exists|i: int|
        0 <= i < s.results.len() && critic_needed(#[trigger] s.results[i]) {
        ask(
            s,
            OrchestrationStateView { phase: OrchestrationPhase::QualityReview, ..s },
            OrchestrationActionView::AskQualityReview,
            elapsed,
        )
    } else {
        ask(s, OrchestrationStateView { phase: OrchestrationPhase::Synthesis, ..s }, OrchestrationActionView::AskSynthesis, elapsed)
    }
}

/// Whether a result calls for the quality critic.
pub open spec fn critic_needed(o: OutcomeView) -> bool {
    o.0 != "completed"@ || o.1 > 0 || o.3
}

/// After a worker's result is settled: the next delegation, or what follows
/// the workers.
pub open spec fn next_worker(s: OrchestrationStateView, elapsed: u64) -> (
    OrchestrationStateView,
    OrchestrationActionView,
) {
    if s.current + 1 < s.delegations.len() {
        start_worker(s, s.current + 1, elapsed)
    } else {
        after_workers(s, elapsed)
    }
}

/// After the plan (and its review): a direct answer when the planner chose
/// one or delegated nothing, else the first of the allowed delegations.
pub open spec fn after_plan(s: OrchestrationStateView, elapsed: u64) -> (
    OrchestrationStateView,
    OrchestrationActionView,
) {
    if s.answer_directly || s.delegations.len() == 0 {
        (
            OrchestrationStateView { phase: OrchestrationPhase::Done, ..s },
            OrchestrationActionView::Finish {
                final_output: match s.direct_response {
                    Some(d) => d,
                    None => s.planner_text,
                },
            },
        )
    } else {
        let kept = if s.delegations.len() > delegation_limit(s.autonomy) {
            s.delegations.take(delegation_limit(s.autonomy) as int)
        } else {
            s.delegations
        };
        start_worker(OrchestrationStateView { delegations: kept, ..s }, 0, elapsed)
    }
}

/// Whether a follow-up review asks for another round that the policy allows.
pub open spec fn follow_up_granted(action: Option<Seq<char>>, count: nat, a: RunPolicy) -> bool {
    action == Some("follow_up"@) && count + 1 < a.max_iterations
}

/// The instruction of a follow-up round: the review's, when not blank, else
/// the worker's output with a request to close its open questions.
pub open spec fn follow_up_instruction(instruction: Option<Seq<char>>, full_output: Seq<char>) -> Seq<char> {
    match instruction {
        Some(i) => if trim_seq(i).len() > 0 {
            i
        } else {
            full_output + "\n\nAddress the open questions and improve confidence before returning."@
        },
        None => full_output + "\n\nAddress the open questions and improve confidence before returning."@,
    }
}

/// Accepts a worker result, escalated or not, and moves on.
pub open spec fn settle(
    s: OrchestrationStateView,
    o: OutcomeView,
    escalated: bool,
    note: Option<Seq<char>>,
    elapsed: u64,
) -> (OrchestrationStateView, OrchestrationActionView) {
    next_worker(
        OrchestrationStateView {
            pending: None,
            results: s.results.push(o),
            escalated: s.escalated.push(escalated),
            escalation_notes: s.escalation_notes.push(note),
            ..s
        },
        elapsed,
    )
}

/// The run's next state and action, given a completion's answer and the
/// seconds elapsed since it started.
pub open spec fn orchestration_transition(s: OrchestrationStateView, e: OrchestrationEventView, elapsed: u64) -> (
    OrchestrationStateView,
    OrchestrationActionView,
) {
    let ignore = (s, OrchestrationActionView::Ignore);
    match e {
        OrchestrationEventView::Planned { parsed, final_mode, direct_response, delegations, raw } => if s.phase
            == OrchestrationPhase::Planning {
            let s1 = if parsed {
                OrchestrationStateView {
                    direct_response,
                    answer_directly: final_mode == Some("answer_directly"@),
                    planner_text: raw,
                    delegations,
                    ..s
                }
            } else {
                OrchestrationStateView {
                    direct_response: Some(raw),
                    answer_directly: true,
                    planner_text: raw,
                    delegations: Seq::empty(),
                    ..s
                }
            };
            if s1.autonomy.critic_enabled && s1.delegations.len() > 0 {
                ask(s1, OrchestrationStateView { phase: OrchestrationPhase::PlanReview, ..s1 }, OrchestrationActionView::AskPlanReview, elapsed)
            } else {
                after_plan(s1, elapsed)
            }
        } else {
            ignore
        },
        OrchestrationEventView::PlanReviewed { action, note } => if s.phase == OrchestrationPhase::PlanReview {
            let s1 = OrchestrationStateView { notes: note_added(s.notes, "critic: "@, note), ..s };
            if action == Some("answer_directly"@) {
                (
                    OrchestrationStateView { phase: OrchestrationPhase::Done, ..s1 },
                    OrchestrationActionView::Finish {
                        final_output: match s1.direct_response {
                            Some(d) => d,
                            None => "critic requested direct answer"@,
                        },
                    },
                )
            } else {
                after_plan(s1, elapsed)
            }
        } else {
            ignore
        },
        OrchestrationEventView::WorkerAnswered { outcome, full_output } => if s.phase == OrchestrationPhase::Working
            && s.current < s.delegations.len() {
            if follow_up_due_view(s.autonomy, outcome, s.follow_up_count) {
                ask(
                    s,
                    OrchestrationStateView {
                        phase: OrchestrationPhase::FollowUpReview,
                        pending: Some(outcome),
                        pending_output: full_output,
                        ..s
                    },
                    OrchestrationActionView::AskFollowUpReview { index: s.current },
                    elapsed,
                )
            } else {
                settle(s, outcome, false, None, elapsed)
            }
        } else {
            ignore
        },
        OrchestrationEventView::FollowUpReviewed { action, instruction, note } => if s.phase
            == OrchestrationPhase::FollowUpReview && s.current < s.delegations.len() && s.pending is Some {
            let o = s.pending->0;
            let d = s.delegations[s.current as int];
            if follow_up_granted(action, s.follow_up_count, s.autonomy) {
                let count = s.follow_up_count + 1;
                let instr = follow_up_instruction(instruction, s.pending_output);
                let label = "follow-up "@ + decimal(count) + " for worker '"@ + d.0 + "': "@;
                ask(
                    s,
                    OrchestrationStateView {
                        phase: OrchestrationPhase::Working,
                        pending: None,
                        follow_up_count: count,
                        instruction: instr,
                        notes: note_added(s.notes, label, note),
                        ..s
                    },
                    OrchestrationActionView::AskWorker {
                        index: s.current,
                        claw_id: d.0,
                        user_prompt: worker_prompt(s.prompt, instr, d.2, count),
                        round: count,
                    },
                    elapsed,
                )
            } else if action == Some("escalate"@) {
                settle(s, ("needs_input"@, o.1, o.2, o.3), true, note, elapsed)
            } else {
                settle(s, o, false, None, elapsed)
            }
        } else {
            ignore
        },
        OrchestrationEventView::QualityReviewed { note } => if s.phase == OrchestrationPhase::QualityReview {
            ask(
                s,
                OrchestrationStateView {
                    phase: OrchestrationPhase::Synthesis,
                    notes: note_added(s.notes, "quality review: "@, note),
                    ..s
                },
                OrchestrationActionView::AskSynthesis,
                elapsed,
            )
        } else {
            ignore
        },
        OrchestrationEventView::Synthesized(t) => if s.phase == OrchestrationPhase::Synthesis {
            (
                OrchestrationStateView { phase: OrchestrationPhase::Done, ..s },
                OrchestrationActionView::Finish { final_output: t },
            )
        } else {
            ignore
        },
    }
}

/// `follow_up_due`, read on a result's plain values.
pub open spec fn follow_up_due_view(a: RunPolicy, o: OutcomeView, count: nat) -> bool {
    &&& a.steering_enabled
    &&& count + 1 < a.max_iterations
    &&& (o.0 == "failed"@ || o.0 == "needs_input"@ || o.1 > 0 || o.2)
}

/// A run that has yet to plan.
pub open spec fn initial_state(prompt: Seq<char>, policy: RunPolicy) -> OrchestrationStateView {
    OrchestrationStateView {
        phase: OrchestrationPhase::Planning,
        autonomy: policy,
        prompt,
        direct_response: None,
        answer_directly: false,
        planner_text: Seq::empty(),
        delegations: Seq::empty(),
        current: 0,
        follow_up_count: 0,
        instruction: Seq::empty(),
        pending: None,
        pending_output: Seq::empty(),
        results: Seq::empty(),
        escalated: Seq::empty(),
        escalation_notes: Seq::empty(),
        notes: Seq::empty(),
    }
}

// ---------------------------------------------------------------------
// The decisions, in code

/// The limits of an autonomy policy that steer a run.
pub fn run_policy(a: &AutonomyPolicy) -> (r: RunPolicy)
    ensures
        r.steering_enabled == a.steering_enabled,
        r.critic_enabled == a.critic_enabled,
        r.max_delegations == a.max_delegations,
        r.max_iterations == a.max_iterations,
        r.max_runtime_secs == a.max_runtime_secs,
{
    RunPolicy {
        steering_enabled: a.steering_enabled,
        critic_enabled: a.critic_enabled,
        max_delegations: a.max_delegations,
        max_iterations: a.max_iterations,
        max_runtime_secs: a.max_runtime_secs,
    }
}

fn worker_prompt_text(request: &str, instruction: &str, reason: &str, round: usize) -> (r: String)
    ensures
        r@ == worker_prompt(request@, instruction@, reason@, round as nat),
{
    let a = concat3("Original request:\n", request, "\n\nAssigned subtask:\n");
    let b = concat3(a.as_str(), instruction, "\n\nReason for assignment:\n");
    let n = usize_text(round);
    let c = concat3(b.as_str(), reason, "\n\nFollow-up round: ");
    concat2(c.as_str(), n.as_str())
}

fn add_note(notes: &mut Vec<String>, label: &str, note: &Option<String>)
    ensures
        strs(final(notes)@) == note_added(strs(old(notes)@), label@, opt_view(*note)),
{
    match note {
        Some(n) => {
            if !is_blank(n.as_str()) {
                let t = trim(n.as_str());
                let ghost before = strs(notes@);
                notes.push(concat2(label, t.as_str()));
                assert(strs(notes@) =~= before.push(label@ + trim_seq(n@)));
            }
        },
        None => {},
    }
}

fn budget_fail(s: OrchestrationState) -> (r: (OrchestrationState, OrchestrationAction))
    requires
        s.autonomy.max_runtime_secs <= u64::MAX,
    ensures
        r.0@ == (OrchestrationStateView { phase: OrchestrationPhase::Done, ..s@ }),
        r.1@ == OrchestrationActionView::Fail(budget_exceeded_message(s.autonomy.max_runtime_secs)),
{
    let max = s.autonomy.max_runtime_secs;
    let m = match crate::orchestrate::ensure_runtime_budget(max, max) {
        Err(m) => m,
        Ok(()) => owned(""),
    };
    (OrchestrationState { phase: OrchestrationPhase::Done, ..s }, OrchestrationAction::Fail(m))
}

/// The run before its planner: it asks for the plan while the budget lasts.
pub fn start_orchestration(prompt: String, policy: RunPolicy, elapsed: u64) -> (r: (
    OrchestrationState,
    OrchestrationAction,
))
    ensures
        (r.0@, r.1@) == ask(
            initial_state(prompt@, policy),
            initial_state(prompt@, policy),
            OrchestrationActionView::AskPlanner { max_delegations: delegation_limit(policy) },
            elapsed,
        ),
{
    let s = OrchestrationState {
        phase: OrchestrationPhase::Planning,
        autonomy: policy,
        prompt,
        direct_response: None,
        answer_directly: false,
        planner_text: String::new(),
        delegations: Vec::new(),
        current: 0,
        follow_up_count: 0,
        instruction: String::new(),
        pending: None,
        pending_output: String::new(),
        results: Vec::new(),
        escalated: Vec::new(),
        escalation_notes: Vec::new(),
        notes: Vec::new(),
    };
    assert(s@.escalation_notes =~= Seq::<Option<Seq<char>>>::empty());
    assert(s@.notes =~= Seq::<Seq<char>>::empty());
    assert(s@.results =~= Seq::<OutcomeView>::empty());
    assert(s@.delegations =~= Seq::<DelegationView>::empty());
    assert(s@ == initial_state(prompt@, policy));
    if elapsed >= policy.max_runtime_secs {
        return budget_fail(s);
    }
    let limit: usize = if policy.max_delegations == 0 { 1 } else { policy.max_delegations };
    (s, OrchestrationAction::AskPlanner { max_delegations: limit })
}

fn exec_start_worker(s: OrchestrationState, k: usize, elapsed: u64) -> (r: (OrchestrationState, OrchestrationAction))
    requires
        k < s.delegations@.len(),
    ensures
        (r.0@, r.1@) == start_worker(s@, k as nat, elapsed),
{
    if elapsed >= s.autonomy.max_runtime_secs {
        return budget_fail(s);
    }
    let ghost sv = s@;
    assert(sv.delegations[k as int] == (s.delegations@[k as int].claw_id@, s.delegations@[k as int].instruction@, s.delegations@[k as int].reason@));
    let prompt = worker_prompt_text(
        s.prompt.as_str(),
        s.delegations[k].instruction.as_str(),
        s.delegations[k].reason.as_str(),
        0,
    );
    let claw_id = s.delegations[k].claw_id.clone();
    let instruction = s.delegations[k].instruction.clone();
    (
        OrchestrationState { phase: OrchestrationPhase::Working, current: k, follow_up_count: 0, instruction, ..s },
        OrchestrationAction::AskWorker { index: k, claw_id, user_prompt: prompt, round: 0 },
    )
}

fn exec_after_workers(s: OrchestrationState, elapsed: u64) -> (r: (OrchestrationState, OrchestrationAction))
    ensures
        (r.0@, r.1@) == after_workers(s@, elapsed),
{
    let ghost sv = s@;
    let mut needed = false;
    if s.autonomy.critic_enabled {
        let mut i: usize = 0;
        while i < s.results.len()
            invariant
                i <= s.results@.len(),
                sv == s@,
                !needed ==> forall|k: int| 0 <= k < i ==> !critic_needed(#[trigger] sv.results[k]),
                needed ==> exists|k: int| 0 <= k < sv.results.len() && critic_needed(#[trigger] sv.results[k]),
            decreases s.results@.len() - i,
        {
            assert(sv.results[i as int] == outcome_view(s.results@[i as int]));
            let w = &s.results[i];
            if !str_is(w.status.as_str(), "completed") || w.question_count > 0 || w.confidence_below_critic {
                needed = true;
                assert(critic_needed(sv.results[i as int]));
            }
            i = i + 1;
        }
    }
    if elapsed >= s.autonomy.max_runtime_secs {
        return budget_fail(s);
    }
    if needed {
        (OrchestrationState { phase: OrchestrationPhase::QualityReview, ..s }, OrchestrationAction::AskQualityReview)
    } else {
        (OrchestrationState { phase: OrchestrationPhase::Synthesis, ..s }, OrchestrationAction::AskSynthesis)
    }
}

fn str_is(a: &str, b: &str) -> (r: bool)
    ensures
        r == (a@ == b@),
{
    crate::text::str_eq(a, b)
}

fn exec_next_worker(s: OrchestrationState, elapsed: u64) -> (r: (OrchestrationState, OrchestrationAction))
    ensures
        (r.0@, r.1@) == next_worker(s@, elapsed),
{
    if s.current < s.delegations.len() && s.current + 1 < s.delegations.len() {
        let k = s.current + 1;
        exec_start_worker(s, k, elapsed)
    } else {
        exec_after_workers(s, elapsed)
    }
}

fn exec_settle(
    s: OrchestrationState,
    o: WorkerOutcome,
    escalated: bool,
    note: Option<String>,
    elapsed: u64,
) -> (r: (OrchestrationState, OrchestrationAction))
    ensures
        (r.0@, r.1@) == settle(s@, outcome_view(o), escalated, opt_view(note), elapsed),
{
    let mut s = s;
    let ghost before = s@;
    s.pending = None;
    s.results.push(o);
    s.escalated.push(escalated);
    s.escalation_notes.push(note);
    assert(s@.results =~= before.results.push(outcome_view(o)));
    assert(s@.escalation_notes =~= before.escalation_notes.push(opt_view(note)));
    exec_next_worker(s, elapsed)
}

fn exec_after_plan(s: OrchestrationState, elapsed: u64) -> (r: (OrchestrationState, OrchestrationAction))
    ensures
        (r.0@, r.1@) == after_plan(s@, elapsed),
{
    if s.answer_directly || s.delegations.len() == 0 {
        let out = match &s.direct_response {
            Some(d) => d.clone(),
            None => s.planner_text.clone(),
        };
        return (OrchestrationState { phase: OrchestrationPhase::Done, ..s }, OrchestrationAction::Finish { final_output: out });
    }
    let mut s = s;
    let ghost before = s@;
    let limit: usize = if s.autonomy.max_delegations == 0 { 1 } else { s.autonomy.max_delegations };
    if s.delegations.len() > limit {
        let ghost whole = s.delegations@;
        s.delegations.truncate(limit);
        assert(s.delegations@ =~= whole.take(limit as int));
        assert(delegations_view(s.delegations@) =~= before.delegations.take(limit as int));
    }
    assert(s@ == (OrchestrationStateView {
        delegations: if before.delegations.len() > delegation_limit(before.autonomy) {
            before.delegations.take(delegation_limit(before.autonomy) as int)
        } else {
            before.delegations
        },
        ..before
    }));
    exec_start_worker(s, 0, elapsed)
}

fn opt_is(o: &Option<String>, v: &str) -> (r: bool)
    ensures
        r == (opt_view(*o) == Some(v@)),
{
    match o {
        Some(x) => crate::text::str_eq(x.as_str(), v),
        None => false,
    }
}

/// One step of an orchestrated run: its next state and what to do, given a
/// completion's answer and the seconds elapsed since the run started.
pub fn orchestration_step(state: OrchestrationState, event: OrchestrationEvent, elapsed: u64) -> (r: (
    OrchestrationState,
    OrchestrationAction,
))
    ensures
        (r.0@, r.1@) == orchestration_transition(state@, event@, elapsed),
{
    let s = state;
    match event {
        OrchestrationEvent::Planned { parsed, final_mode, direct_response, delegations, raw } => {
            if s.phase != OrchestrationPhase::Planning {
                return (s, OrchestrationAction::Ignore);
            }
            let s1 = if parsed {
                let answer_directly = opt_is(&final_mode, "answer_directly");
                OrchestrationState { direct_response, answer_directly, planner_text: raw, delegations, ..s }
            } else {
                let d = raw.clone();
                let empty: Vec<Delegation> = Vec::new();
                let t = OrchestrationState {
                    direct_response: Some(d),
                    answer_directly: true,
                    planner_text: raw,
                    delegations: empty,
                    ..s
                };
                assert(t@.delegations =~= Seq::<DelegationView>::empty());
                t
            };
            if s1.autonomy.critic_enabled && s1.delegations.len() > 0 {
                if elapsed >= s1.autonomy.max_runtime_secs {
                    return budget_fail(s1);
                }
                (OrchestrationState { phase: OrchestrationPhase::PlanReview, ..s1 }, OrchestrationAction::AskPlanReview)
            } else {
                exec_after_plan(s1, elapsed)
            }
        },
        OrchestrationEvent::PlanReviewed { action, note } => {
            if s.phase != OrchestrationPhase::PlanReview {
                return (s, OrchestrationAction::Ignore);
            }
            let mut s1 = s;
            add_note(&mut s1.notes, "critic: ", &note);
            if opt_is(&action, "answer_directly") {
                let out = match &s1.direct_response {
                    Some(d) => d.clone(),
                    None => owned("critic requested direct answer"),
                };
                (OrchestrationState { phase: OrchestrationPhase::Done, ..s1 }, OrchestrationAction::Finish { final_output: out })
            } else {
                exec_after_plan(s1, elapsed)
            }
        },
        OrchestrationEvent::WorkerAnswered { outcome, full_output } => {
            if s.phase != OrchestrationPhase::Working || s.current >= s.delegations.len() {
                return (s, OrchestrationAction::Ignore);
            }
            let st = outcome.status.as_str();
            let due = s.autonomy.steering_enabled && s.follow_up_count < s.autonomy.max_iterations
                && s.follow_up_count + 1 < s.autonomy.max_iterations && (str_is(st, "failed") || str_is(
                st,
                "needs_input",
            ) || outcome.question_count > 0 || outcome.confidence_below_follow_up);
            if due {
                if elapsed >= s.autonomy.max_runtime_secs {
                    return budget_fail(s);
                }
                let index = s.current;
                (
                    OrchestrationState {
                        phase: OrchestrationPhase::FollowUpReview,
                        pending: Some(outcome),
                        pending_output: full_output,
                        ..s
                    },
                    OrchestrationAction::AskFollowUpReview { index },
                )
            } else {
                exec_settle(s, outcome, false, None, elapsed)
            }
        },
        OrchestrationEvent::FollowUpReviewed { action, instruction, note } => {
            if s.phase != OrchestrationPhase::FollowUpReview || s.current >= s.delegations.len() || s.pending.is_none() {
                return (s, OrchestrationAction::Ignore);
            }
            let ghost sv = s@;
            let k = s.current;
            assert(sv.delegations[k as int] == (s.delegations@[k as int].claw_id@, s.delegations@[k as int].instruction@, s.delegations@[k as int].reason@));
            let granted = opt_is(&action, "follow_up") && s.follow_up_count < s.autonomy.max_iterations
                && s.follow_up_count + 1 < s.autonomy.max_iterations;
            if granted {
                if elapsed >= s.autonomy.max_runtime_secs {
                    return budget_fail(s);
                }
                let count = s.follow_up_count + 1;
                let instr = match &instruction {
                    Some(i) => if !is_blank(i.as_str()) {
                        i.clone()
                    } else {
                        concat2(
                            s.pending_output.as_str(),
                            "\n\nAddress the open questions and improve confidence before returning.",
                        )
                    },
                    None => concat2(
                        s.pending_output.as_str(),
                        "\n\nAddress the open questions and improve confidence before returning.",
                    ),
                };
                let n = usize_text(count);
                let label = concat5("follow-up ", n.as_str(), " for worker '", s.delegations[k].claw_id.as_str(), "': ");
                let prompt = worker_prompt_text(s.prompt.as_str(), instr.as_str(), s.delegations[k].reason.as_str(), count);
                let claw_id = s.delegations[k].claw_id.clone();
                let mut s1 = s;
                add_note(&mut s1.notes, label.as_str(), &note);
                (
                    OrchestrationState {
                        phase: OrchestrationPhase::Working,
                        pending: None,
                        follow_up_count: count,
                        instruction: instr,
                        ..s1
                    },
                    OrchestrationAction::AskWorker { index: k, claw_id, user_prompt: prompt, round: count },
                )
            } else {
                let mut s1 = s;
                let pending = s1.pending.take();
                let o = match pending {
                    Some(o) => o,
                    None => WorkerOutcome {
                        status: String::new(),
                        question_count: 0,
                        confidence_below_follow_up: false,
                        confidence_below_critic: false,
                    },
                };
                s1.pending = None;
                assert(s1@ == (OrchestrationStateView { pending: None, ..sv }));
                if opt_is(&action, "escalate") {
                    let escalated = WorkerOutcome {
                        status: owned("needs_input"),
                        question_count: o.question_count,
                        confidence_below_follow_up: o.confidence_below_follow_up,
                        confidence_below_critic: o.confidence_below_critic,
                    };
                    exec_settle(s1, escalated, true, note, elapsed)
                } else {
                    exec_settle(s1, o, false, None, elapsed)
                }
            }
        },
        OrchestrationEvent::QualityReviewed { note } => {
            if s.phase != OrchestrationPhase::QualityReview {
                return (s, OrchestrationAction::Ignore);
            }
            if elapsed >= s.autonomy.max_runtime_secs {
                return budget_fail(s);
            }
            let mut s1 = s;
            add_note(&mut s1.notes, "quality review: ", &note);
            (OrchestrationState { phase: OrchestrationPhase::Synthesis, ..s1 }, OrchestrationAction::AskSynthesis)
        },
        OrchestrationEvent::Synthesized(t) => {
            if s.phase != OrchestrationPhase::Synthesis {
                return (s, OrchestrationAction::Ignore);
            }
            (OrchestrationState { phase: OrchestrationPhase::Done, ..s }, OrchestrationAction::Finish { final_output: t })
        },
    }
}

// ---------------------------------------------------------------------
// The direct run

/// What a completion gave back.
pub struct CompletionOutcome {
    pub content: String,
    pub estimated_input_tokens: usize,
    pub estimated_output_tokens: usize,
    pub duration_ms: u64,
}

/// The record of a direct run: the claw answered the request itself.
pub struct DirectRunRecord {
    pub run_id: String,
    pub created_at: String,
    pub mode: String,
    pub checkpoints: Vec<OrchestrationCheckpoint>,
    pub trace: Vec<OrchestrationTraceEntry>,
    pub transcript: Vec<OrchestrationTranscriptEntry>,
    pub reflection_notes: Vec<String>,
    pub final_output: String,
    pub final_claw_id: String,
    pub final_model_profile_id: String,
    pub final_provider: String,
    pub final_model: String,
}

/// The first 240 characters of a text, as a record keeps them.
pub open spec fn excerpt240(t: Seq<char>) -> Seq<char> {
    t.take(if 240 < t.len() { 240 } else { t.len() as int })
}

/// The record of a direct run once its completion came back: one completed
/// checkpoint and one trace entry for the direct response, the system,
/// user and assistant messages of its transcript, the routing's steering
/// notes, and the claw and model that answered.
pub fn direct_run_record(
    prompt: &str,
    claw_id: &str,
    executable: &ResolvedModelDecision,
    system_prompt: String,
    outcome: &CompletionOutcome,
    steering_notes: &Vec<String>,
) -> (r: DirectRunRecord)
    ensures
        crate::ids::hyphenated_uuid_shape(r.run_id@),
        r.mode@ == "direct"@,
        r.final_output@ == outcome.content@,
        r.final_claw_id@ == claw_id@,
        r.final_model_profile_id@ == executable.selected_profile_id@,
        r.final_provider@ == executable.provider@,
        r.final_model@ == executable.model@,
        strs(r.reflection_notes@) == strs(steering_notes@),
        r.checkpoints@.len() == 1,
        r.checkpoints@[0].stage@ == "direct_response"@,
        r.checkpoints@[0].status@ == "completed"@,
        r.checkpoints@[0].note@ == "direct run completed"@,
        opt_view(r.checkpoints@[0].claw_id) == Some(claw_id@),
        opt_view(r.checkpoints@[0].model_profile_id) == Some(executable.selected_profile_id@),
        opt_view(r.checkpoints@[0].provider) == Some(executable.provider@),
        opt_view(r.checkpoints@[0].model) == Some(executable.model@),
        opt_view(r.checkpoints@[0].input_excerpt) == Some(excerpt240(prompt@)),
        opt_view(r.checkpoints@[0].output_excerpt) == Some(excerpt240(outcome.content@)),
        r.trace@.len() == 1,
        r.trace@[0].stage@ == "direct_response"@,
        r.trace@[0].actor_type@ == "claw"@,
        r.trace@[0].actor_id@ == claw_id@,
        r.trace@[0].parent_trace_id is None,
        r.trace@[0].status@ == "completed"@,
        r.trace@[0].note@ == "direct run completed"@,
        opt_view(r.trace@[0].input_excerpt) == Some(excerpt240(prompt@)),
        opt_view(r.trace@[0].output_excerpt) == Some(excerpt240(outcome.content@)),
        r.trace@[0].estimated_input_tokens == Some(outcome.estimated_input_tokens),
        r.trace@[0].estimated_output_tokens == Some(outcome.estimated_output_tokens),
        r.trace@[0].duration_ms == Some(outcome.duration_ms),
        r.transcript@.len() == 3,
        r.transcript@[0].role@ == "system"@ && r.transcript@[0].content@ == system_prompt@
            && r.transcript@[0].actor_type@ == "claw"@ && r.transcript@[0].actor_id@ == claw_id@,
        r.transcript@[1].role@ == "user"@ && r.transcript@[1].content@ == prompt@
            && r.transcript@[1].actor_type@ == "operator"@ && r.transcript@[1].actor_id@ == "request"@,
        r.transcript@[2].role@ == "assistant"@ && r.transcript@[2].content@ == outcome.content@
            && r.transcript@[2].actor_type@ == "claw"@ && r.transcript@[2].actor_id@ == claw_id@
            && opt_view(r.transcript@[2].parent_trace_id) == Some(r.trace@[0].trace_id@),
        forall|i: int| 0 <= i < 3 ==> (#[trigger] r.transcript@[i]).stage@ == "direct_response"@
            && r.transcript@[i].delegation_id is None,
        r.transcript@[0].parent_trace_id is None && r.transcript@[1].parent_trace_id is None,
{
    let input_excerpt = excerpt(prompt, 240);
    let output_excerpt = excerpt(outcome.content.as_str(), 240);
    let checkpoint = make_checkpoint(
        "direct_response",
        "completed",
        "direct run completed",
        Some(claw_id),
        Some(executable.selected_profile_id.as_str()),
        Some(executable.provider.as_str()),
        Some(executable.model.as_str()),
        Some(input_excerpt.clone()),
        Some(output_excerpt.clone()),
    );
    let entry = make_trace_entry(
        "direct_response",
        "claw",
        claw_id,
        None,
        "completed",
        Some(claw_id),
        Some(executable.selected_profile_id.as_str()),
        Some(executable.provider.as_str()),
        Some(executable.model.as_str()),
        "direct run completed",
        Some(input_excerpt),
        Some(output_excerpt),
        Some(outcome.estimated_input_tokens),
        Some(outcome.estimated_output_tokens),
        Some(outcome.duration_ms),
    );
    let system = make_transcript_entry("direct_response", "claw", claw_id, "system", system_prompt.as_str(), None, None);
    let user = make_transcript_entry("direct_response", "operator", "request", "user", prompt, None, None);
    let assistant = make_transcript_entry(
        "direct_response",
        "claw",
        claw_id,
        "assistant",
        outcome.content.as_str(),
        Some(entry.trace_id.as_str()),
        None,
    );
    let mut checkpoints: Vec<OrchestrationCheckpoint> = Vec::new();
    checkpoints.push(checkpoint);
    let mut trace: Vec<OrchestrationTraceEntry> = Vec::new();
    trace.push(entry);
    let mut transcript: Vec<OrchestrationTranscriptEntry> = Vec::new();
    transcript.push(system);
    transcript.push(user);
    transcript.push(assistant);
    DirectRunRecord {
        run_id: crate::ids::new_uuid(),
        created_at: crate::clock::now_rfc3339(),
        mode: owned("direct"),
        checkpoints,
        trace,
        transcript,
        reflection_notes: crate::text::clone_strings(steering_notes),
        final_output: outcome.content.clone(),
        final_claw_id: owned(claw_id),
        final_model_profile_id: executable.selected_profile_id.clone(),
        final_provider: executable.provider.clone(),
        final_model: executable.model.clone(),
    }
}

/// Whether an action asks for a completion.
pub open spec fn asks_completion(a: OrchestrationActionView) -> bool {
    ||| a is AskPlanner
    ||| a is AskPlanReview
    ||| a is AskWorker
    ||| a is AskFollowUpReview
    ||| a is AskQualityReview
    ||| a is AskSynthesis
}

/// No completion is asked for once the runtime budget is spent.
pub proof fn law_no_completion_past_the_budget(s: OrchestrationStateView, e: OrchestrationEventView, elapsed: u64)
    ensures
        asks_completion(orchestration_transition(s, e, elapsed).1) ==> elapsed < s.autonomy.max_runtime_secs,
{
}

/// A worker is asked again, in a later follow-up round, only while the
/// policy's iterations last.
pub proof fn law_follow_up_rounds_stay_within_the_policy(
    s: OrchestrationStateView,
    e: OrchestrationEventView,
    elapsed: u64,
)
    ensures
        orchestration_transition(s, e, elapsed).1 matches OrchestrationActionView::AskWorker { round, .. } ==> (round
            == 0 || round < s.autonomy.max_iterations),
{
}

// ---------------------------------------------------------------------
// The prompts of an orchestrated run; `base` is the claw's own system
// prompt (`build_claw_system_prompt`) and the JSON texts are serialised
// outside.

/// The planner's system prompt: at most `max_delegations` tasks, only to
/// the listed workers.
pub fn planner_system_prompt(base: &str, max_delegations: usize, worker_ids: &Vec<String>) -> (r: String)
    ensures
        r@ == base@ + "\nReturn JSON only with this schema:\n{\"final_mode\":\"delegate|answer_directly\",\"direct_response\":\"...\",\"delegations\":[{\"claw_id\":\"worker-id\",\"instruction\":\"bounded instruction\",\"reason\":\"why this worker\"}]}\nIf delegation is needed, keep it to at most "@ + decimal(max_delegations as nat) + " worker tasks and only use these claw ids: "@
            + crate::runtime::joined(strs(worker_ids@), ", "@) + "."@,
{
    let ids = crate::runtime::join_strings(worker_ids, ", ");
    let n = usize_text(max_delegations);
    let a = concat3(base, "\nReturn JSON only with this schema:\n{\"final_mode\":\"delegate|answer_directly\",\"direct_response\":\"...\",\"delegations\":[{\"claw_id\":\"worker-id\",\"instruction\":\"bounded instruction\",\"reason\":\"why this worker\"}]}\nIf delegation is needed, keep it to at most ", n.as_str());
    let b = concat3(a.as_str(), " worker tasks and only use these claw ids: ", ids.as_str());
    concat2(b.as_str(), ".")
}

/// A prompt that states the request and one more labelled part.
pub open spec fn request_with(request: Seq<char>, label: Seq<char>, part: Seq<char>) -> Seq<char> {
    "Original request:\n"@ + request + "\n\n"@ + label + ":\n"@ + part
}

fn request_with_text(request: &str, label: &str, part: &str) -> (r: String)
    ensures
        r@ == request_with(request@, label@, part@),
{
    let a = concat3("Original request:\n", request, "\n\n");
    let b = concat3(a.as_str(), label, ":\n");
    concat2(b.as_str(), part)
}

/// The planner's user prompt, with the available workers as JSON.
pub fn planner_user_prompt(request: &str, workers_json: &str) -> (r: String)
    ensures
        r@ == request_with(request@, "Available workers"@, workers_json@),
{
    request_with_text(request, "Available workers", workers_json)
}

/// The plan review's system prompt.
pub fn plan_review_system_prompt(base: &str) -> (r: String)
    ensures
        r@ == base@ + "\nReturn JSON only with this schema:\n{\"action\":\"continue|answer_directly\",\"note\":\"brief reasoning\"}\nDo not rewrite the whole plan unless it is clearly over-scoped or unsafe."@,
{
    concat2(base, "\nReturn JSON only with this schema:\n{\"action\":\"continue|answer_directly\",\"note\":\"brief reasoning\"}\nDo not rewrite the whole plan unless it is clearly over-scoped or unsafe.")
}

/// The plan review's user prompt, with the plan as JSON.
pub fn plan_review_user_prompt(request: &str, plan_json: &str) -> (r: String)
    ensures
        r@ == request_with(request@, "Planner output"@, plan_json@),
{
    request_with_text(request, "Planner output", plan_json)
}

/// A worker's system prompt.
pub fn worker_system_prompt(base: &str) -> (r: String)
    ensures
        r@ == base@ + "\nReturn JSON only with this schema:\n{\"status\":\"completed|needs_input|failed\",\"summary\":\"one paragraph\",\"full_output\":\"detailed output\",\"questions\":[\"...\"],\"confidence\":0.0,\"next_step_recommendation\":\"...\"}"@,
{
    concat2(base, "\nReturn JSON only with this schema:\n{\"status\":\"completed|needs_input|failed\",\"summary\":\"one paragraph\",\"full_output\":\"detailed output\",\"questions\":[\"...\"],\"confidence\":0.0,\"next_step_recommendation\":\"...\"}")
}

/// The follow-up review's system prompt.
pub fn follow_up_system_prompt(base: &str) -> (r: String)
    ensures
        r@ == base@ + "\nReturn JSON only with this schema:\n{\"action\":\"follow_up|accept|escalate\",\"instruction\":\"optional new instruction\",\"note\":\"brief reasoning\"}\nOnly request another worker round if it materially improves answer quality; do not over-steer high-confidence completed work."@,
{
    concat2(base, "\nReturn JSON only with this schema:\n{\"action\":\"follow_up|accept|escalate\",\"instruction\":\"optional new instruction\",\"note\":\"brief reasoning\"}\nOnly request another worker round if it materially improves answer quality; do not over-steer high-confidence completed work.")
}

/// The follow-up review's user prompt: the worker's result as JSON and the
/// instruction it ran with.
pub fn follow_up_user_prompt(request: &str, result_json: &str, instruction: &str) -> (r: String)
    ensures
        r@ == request_with(request@, "Worker result"@, result_json@) + "\n\nCurrent instruction:\n"@ + instruction@,
{
    let a = request_with_text(request, "Worker result", result_json);
    concat3(a.as_str(), "\n\nCurrent instruction:\n", instruction)
}

/// The quality critic's system prompt.
pub fn quality_review_system_prompt(base: &str) -> (r: String)
    ensures
        r@ == base@ + "\nReturn JSON only with this schema:\n{\"action\":\"proceed|surface_blockers\",\"note\":\"brief reasoning\"}\nReview the worker set only when confidence, failures, or open questions warrant it."@,
{
    concat2(base, "\nReturn JSON only with this schema:\n{\"action\":\"proceed|surface_blockers\",\"note\":\"brief reasoning\"}\nReview the worker set only when confidence, failures, or open questions warrant it.")
}

/// The user prompt of the quality critic and of the synthesis: the workers'
/// results as JSON.
pub fn worker_results_user_prompt(request: &str, results_json: &str) -> (r: String)
    ensures
        r@ == request_with(request@, "Worker results"@, results_json@),
{
    request_with_text(request, "Worker results", results_json)
}

/// The synthesis's system prompt.
pub fn synthesis_system_prompt(base: &str) -> (r: String)
    ensures
        r@ == base@ + "\nSynthesize the final user-facing answer from the worker results. If workers asked questions, surface only the necessary blockers. Do not mention hidden orchestration unless relevant."@,
{
    concat2(base, "\nSynthesize the final user-facing answer from the worker results. If workers asked questions, surface only the necessary blockers. Do not mention hidden orchestration unless relevant.")
}


/// A plan that answers directly, or delegates nothing, ends the run with
/// the plan's direct response when it carries one; the planner's own text
/// is the final output only when the plan carries no direct response.
pub proof fn law_direct_answer_is_the_plan_response(
    s: OrchestrationStateView,
    final_mode: Option<Seq<char>>,
    response: Option<Seq<char>>,
    delegations: Seq<DelegationView>,
    raw: Seq<char>,
    elapsed: u64,
)
    requires
        s.phase == OrchestrationPhase::Planning,
        final_mode == Some("answer_directly"@) || delegations.len() == 0,
        !s.autonomy.critic_enabled || delegations.len() == 0,
    ensures
        orchestration_transition(
            s,
            (OrchestrationEventView::Planned { parsed: true, final_mode, direct_response: response, delegations, raw }),
            elapsed,
        ).1 == (OrchestrationActionView::Finish {
            final_output: match response {
                Some(d) => d,
                None => raw,
            },
        }),
{
}

} // verus!
