//! Multi-claw orchestration: run records, the lifecycle of active runs and
//! the helpers that routing and the run loop share.

use vstd::prelude::*;

use crate::control::{AutonomyPolicy, DecisionLessonSpec};
use crate::paths::{join, join_path};
use crate::text::{
    chars_of, concat2, concat3, has_prefix, has_suffix, lower_char, owned, string_from_chars,
    trim, trim_seq, u64_text, usize_text, decimal, starts_with, ends_with,
};

verus! {

/// Where finished run receipts are kept, under a workspace.
pub const DEFAULT_RUNS_DIR: &'static str = ".claw/control/orchestration-runs";

/// Where the snapshots of active runs are kept, under a workspace.
pub const DEFAULT_ACTIVE_RUNS_DIR: &'static str = ".claw/control/orchestration-active";

/// The status an active run starts in.
pub fn default_active_status() -> (r: String)
    ensures
        r@ == "queued"@,
{
    owned("queued")
}

/// The lifecycle state a run starts in.
pub fn default_lifecycle_state() -> (r: String)
    ensures
        r@ == "queued"@,
{
    owned("queued")
}

/// The role of a transcript entry that does not name one.
pub fn default_transcript_role() -> (r: String)
    ensures
        r@ == "assistant"@,
{
    owned("assistant")
}

/// The mode of a request that does not name one.
pub fn default_run_mode() -> (r: String)
    ensures
        r@ == "auto"@,
{
    owned("auto")
}

/// The status of a worker result that does not name one.
pub fn default_status_completed() -> (r: String)
    ensures
        r@ == "completed"@,
{
    owned("completed")
}

/// The status of a checkpoint or trace entry that does not name one.
pub fn default_checkpoint_status_completed() -> (r: String)
    ensures
        r@ == "completed"@,
{
    owned("completed")
}

/// The kind of a reflection candidate that does not name one.
pub fn default_reflection_kind() -> (r: String)
    ensures
        r@ == "lesson_candidate"@,
{
    owned("lesson_candidate")
}

/// Per-run overrides of the routing defaults.
pub struct OrchestrationRequestOverrides {
    pub model_profile_id: Option<String>,
    pub worker_model_profile_id: Option<String>,
    pub autonomy_level: Option<String>,
    pub max_delegations: Option<usize>,
    pub max_iterations: Option<usize>,
    pub max_runtime_secs: Option<u64>,
    pub approval_policy: Option<String>,
}

impl Default for OrchestrationRequestOverrides {
    fn default() -> (r: Self)
        ensures
            r.model_profile_id is None,
            r.worker_model_profile_id is None,
            r.autonomy_level is None,
            r.max_delegations is None,
            r.max_iterations is None,
            r.max_runtime_secs is None,
            r.approval_policy is None,
    {
        OrchestrationRequestOverrides {
            model_profile_id: None,
            worker_model_profile_id: None,
            autonomy_level: None,
            max_delegations: None,
            max_iterations: None,
            max_runtime_secs: None,
            approval_policy: None,
        }
    }
}

/// A request to run a prompt through the claws.
pub struct OrchestrationRequest {
    pub prompt: String,
    pub task_id: Option<String>,
    pub category: Option<String>,
    pub claw_id: Option<String>,
    pub mode: String,
    pub overrides: OrchestrationRequestOverrides,
}

impl Default for OrchestrationRequest {
    fn default() -> (r: Self)
        ensures
            r.prompt@ == Seq::<char>::empty(),
            r.task_id is None,
            r.category is None,
            r.claw_id is None,
            r.mode@ == Seq::<char>::empty(),
            r.overrides.model_profile_id is None,
            r.overrides.worker_model_profile_id is None,
            r.overrides.autonomy_level is None,
            r.overrides.max_delegations is None,
            r.overrides.max_iterations is None,
            r.overrides.max_runtime_secs is None,
            r.overrides.approval_policy is None,
    {
        OrchestrationRequest {
            prompt: String::new(),
            task_id: None,
            category: None,
            claw_id: None,
            mode: String::new(),
            overrides: OrchestrationRequestOverrides::default(),
        }
    }
}

/// The model a profile resolved to, with the fallbacks it went through.
pub struct ResolvedModelDecision {
    pub requested_profile_id: String,
    pub selected_profile_id: String,
    pub provider: String,
    pub model: String,
    pub fallback_path: Vec<String>,
    pub warnings: Vec<String>,
}

/// Where a request was routed and under which policy.
pub struct RoutingDecision {
    pub execution_mode: String,
    pub route_source: String,
    pub task_id: Option<String>,
    pub category: Option<String>,
    pub selected_claw_id: String,
    pub selected_claw_role: String,
    pub selected_agent_profile_id: String,
    pub selected_model_profile_id: String,
    pub selected_model: ResolvedModelDecision,
    pub available_workers: Vec<String>,
    pub autonomy: AutonomyPolicy,
    pub allow_shared_context: bool,
    pub isolation_mode: String,
    pub applied_lessons: Vec<DecisionLessonSpec>,
    pub steering_notes: Vec<String>,
    pub warnings: Vec<String>,
    pub request_overrides: OrchestrationRequestOverrides,
}

/// Work handed by the orchestrator to one worker claw.
pub struct DelegationTask {
    pub id: String,
    pub claw_id: String,
    pub instruction: String,
    pub reason: String,
}

/// A point in a run worth keeping in its receipt.
pub struct OrchestrationCheckpoint {
    pub checkpoint_id: String,
    pub created_at: String,
    pub stage: String,
    pub status: String,
    pub claw_id: Option<String>,
    pub model_profile_id: Option<String>,
    pub provider: Option<String>,
    pub model: Option<String>,
    pub note: String,
    pub input_excerpt: Option<String>,
    pub output_excerpt: Option<String>,
}

/// Counts that summarise how the workers of a run fared.
pub struct SupervisionSummary {
    pub checkpoint_count: usize,
    pub worker_count: usize,
    pub needs_input_count: usize,
    pub failed_count: usize,
    pub low_confidence_workers: Vec<String>,
    pub reflection_candidate_count: usize,
    pub escalation_recommended: bool,
}

/// One step of a run as the trace records it.
pub struct OrchestrationTraceEntry {
    pub trace_id: String,
    pub created_at: String,
    pub stage: String,
    pub actor_type: String,
    pub actor_id: String,
    pub parent_trace_id: Option<String>,
    pub status: String,
    pub claw_id: Option<String>,
    pub model_profile_id: Option<String>,
    pub provider: Option<String>,
    pub model: Option<String>,
    pub note: String,
    pub input_excerpt: Option<String>,
    pub output_excerpt: Option<String>,
    pub estimated_input_tokens: Option<usize>,
    pub estimated_output_tokens: Option<usize>,
    pub duration_ms: Option<u64>,
}

/// A parent-child link between a run and what it spawned.
pub struct OrchestrationRelationship {
    pub relationship_id: String,
    pub parent_run_id: String,
    pub child_id: String,
    pub child_kind: String,
    pub delegation_id: Option<String>,
    pub claw_id: Option<String>,
    pub model_profile_id: Option<String>,
    pub stage: String,
}

/// One message of a run's transcript.
pub struct OrchestrationTranscriptEntry {
    pub transcript_id: String,
    pub created_at: String,
    pub stage: String,
    pub actor_type: String,
    pub actor_id: String,
    pub role: String,
    pub parent_trace_id: Option<String>,
    pub delegation_id: Option<String>,
    pub content: String,
}

/// An event in the log of an active run.
pub struct ActiveRunEvent {
    pub event_id: String,
    pub created_at: String,
    pub stage: String,
    pub actor_type: String,
    pub actor_id: String,
    pub status: String,
    pub note: String,
}

/// Where a run stands in its lifecycle, and the operator decisions on it.
pub struct SupervisionLifecycleSummary {
    pub state: String,
    pub intervention_required: bool,
    pub escalation_requested: bool,
    pub rollback_requested: bool,
    pub rollback_reference: Option<String>,
    pub decision_count: usize,
    pub last_decision_at: Option<String>,
}

impl Default for SupervisionLifecycleSummary {
    fn default() -> (r: Self)
        ensures
            r.state@ == "queued"@,
            !r.intervention_required,
            !r.escalation_requested,
            !r.rollback_requested,
            r.rollback_reference is None,
            r.decision_count == 0,
            r.last_decision_at is None,
    {
        SupervisionLifecycleSummary {
            state: default_lifecycle_state(),
            intervention_required: false,
            escalation_requested: false,
            rollback_requested: false,
            rollback_reference: None,
            decision_count: 0,
            last_decision_at: None,
        }
    }
}

/// An operator decision on an active run.
pub struct ActiveRunDecisionRecord {
    pub decision_id: String,
    pub created_at: String,
    pub action: String,
    pub requested_by: String,
    pub reason: Option<String>,
    pub rollback_reference: Option<String>,
    pub resulting_state: String,
}

/// Who asks for an intervention and why.
pub struct ActiveRunInterventionRequest {
    pub requested_by: Option<String>,
    pub reason: Option<String>,
    pub rollback_reference: Option<String>,
}

impl Default for ActiveRunInterventionRequest {
    fn default() -> (r: Self)
        ensures
            r.requested_by is None,
            r.reason is None,
            r.rollback_reference is None,
    {
        ActiveRunInterventionRequest { requested_by: None, reason: None, rollback_reference: None }
    }
}

/// Resource use summed over a trace.
pub struct OrchestrationResourceTotals {
    pub trace_count: usize,
    pub estimated_input_tokens: usize,
    pub estimated_output_tokens: usize,
    pub duration_ms: u64,
}

/// Resource use of one actor over a trace.
pub struct OrchestrationActorResourceSummary {
    pub actor_type: String,
    pub actor_id: String,
    pub stage_count: usize,
    pub estimated_input_tokens: usize,
    pub estimated_output_tokens: usize,
    pub duration_ms: u64,
}

/// The snapshot of a run that is queued, running or has ended.
pub struct ActiveOrchestrationRun {
    pub run_id: String,
    pub created_at: String,
    pub updated_at: String,
    pub started_at: Option<String>,
    pub finished_at: Option<String>,
    pub status: String,
    pub request: OrchestrationRequest,
    pub routing: Option<RoutingDecision>,
    pub current_stage: Option<String>,
    pub current_actor_type: Option<String>,
    pub current_actor_id: Option<String>,
    pub current_note: Option<String>,
    pub lifecycle: SupervisionLifecycleSummary,
    pub pause_requested: bool,
    pub kill_requested: bool,
    pub checkpoint_count: usize,
    pub trace_count: usize,
    pub worker_count: usize,
    pub relationship_count: usize,
    pub resource_totals: Option<OrchestrationResourceTotals>,
    pub receipt_id: Option<String>,
    pub receipt_path: Option<String>,
    pub last_error: Option<String>,
}

/// One line of the receipt listing.
pub struct OrchestrationRunSummary {
    pub receipt_id: String,
    pub run_id: String,
    pub created_at: String,
    pub mode: String,
    pub route_source: String,
    pub approval_policy: String,
    pub final_claw_id: String,
    pub final_provider: String,
    pub final_model: String,
    pub worker_count: usize,
    pub failed_count: usize,
    pub needs_input_count: usize,
    pub escalation_recommended: bool,
    pub lifecycle_state: String,
    pub decision_count: usize,
    pub receipt_path: String,
}

/// The route of a receipt, flattened for reports.
pub struct ReceiptRouteSummary {
    pub execution_mode: String,
    pub route_source: String,
    pub selected_claw_id: String,
    pub selected_claw_role: String,
    pub selected_model_profile_id: String,
    pub provider: String,
    pub model: String,
    pub approval_policy: String,
    pub autonomy_level: String,
    pub available_workers: Vec<String>,
    pub max_delegations: Option<usize>,
    pub max_iterations: Option<usize>,
    pub max_runtime_secs: Option<u64>,
}

/// A delegation of a receipt, flattened for reports.
pub struct ReceiptDelegationSummary {
    pub id: String,
    pub claw_id: String,
    pub reason: String,
    pub instruction: String,
}

/// An active run with its recent events and the signals that ask for
/// attention.
pub struct ActiveRunSupervisionReport {
    pub run: ActiveOrchestrationRun,
    pub recent_events: Vec<ActiveRunEvent>,
    pub attention_signals: Vec<String>,
    pub decision_history: Vec<ActiveRunDecisionRecord>,
}

// ---------------------------------------------------------------------
// Paths

/// The receipt directory of a workspace.
pub fn runs_root_for(workspace_root: &str) -> (r: String)
    ensures
        r@ == join_path(workspace_root@, DEFAULT_RUNS_DIR@),
{
    join(workspace_root, DEFAULT_RUNS_DIR)
}

/// The directory of active-run snapshots of a workspace.
pub fn active_runs_root_for(workspace_root: &str) -> (r: String)
    ensures
        r@ == join_path(workspace_root@, DEFAULT_ACTIVE_RUNS_DIR@),
{
    join(workspace_root, DEFAULT_ACTIVE_RUNS_DIR)
}

/// The file name of a run's snapshot, event log or decision log.
pub open spec fn active_run_file(workspace_root: Seq<char>, run_id: Seq<char>, suffix: Seq<char>) -> Seq<char> {
    join_path(join_path(workspace_root, DEFAULT_ACTIVE_RUNS_DIR@), run_id + suffix)
}

/// The snapshot file of an active run.
pub fn active_run_path(workspace_root: &str, run_id: &str) -> (r: String)
    ensures
        r@ == active_run_file(workspace_root@, run_id@, ".json"@),
{
    let root = active_runs_root_for(workspace_root);
    let name = concat2(run_id, ".json");
    join(root.as_str(), name.as_str())
}

/// The event log of an active run.
pub fn active_run_events_path(workspace_root: &str, run_id: &str) -> (r: String)
    ensures
        r@ == active_run_file(workspace_root@, run_id@, ".events.jsonl"@),
{
    let root = active_runs_root_for(workspace_root);
    let name = concat2(run_id, ".events.jsonl");
    join(root.as_str(), name.as_str())
}

/// The decision log of an active run.
pub fn active_run_decisions_path(workspace_root: &str, run_id: &str) -> (r: String)
    ensures
        r@ == active_run_file(workspace_root@, run_id@, ".decisions.jsonl"@),
{
    let root = active_runs_root_for(workspace_root);
    let name = concat2(run_id, ".decisions.jsonl");
    join(root.as_str(), name.as_str())
}

// ---------------------------------------------------------------------
// Text helpers

/// The first `max_chars` characters of `input`.
pub fn excerpt(input: &str, max_chars: usize) -> (r: String)
    ensures
        r@ == input@.take(if max_chars < input@.len() { max_chars as int } else { input@.len() as int }),
{
    let v = chars_of(input);
    let n = if max_chars < v.len() {
        max_chars
    } else {
        v.len()
    };
    let mut out: Vec<char> = Vec::new();
    let mut i: usize = 0;
    while i < n
        invariant
            n <= v.len(),
            i <= n,
            out@ == v@.take(i as int),
        decreases n - i,
    {
        out.push(v[i]);
        assert(v@.take(i + 1) =~= v@.take(i as int).push(v@[i as int]));
        i = i + 1;
    }
    string_from_chars(&out)
}

/// A rough token count: a quarter of the characters, rounded up.
pub open spec fn token_estimate(n: nat) -> nat {
    (n + 3) / 4
}

/// The estimated token count of `input`.
pub fn estimate_tokens(input: &str) -> (r: usize)
    ensures
        r == token_estimate(input@.len()),
{
    let n = input.unicode_len();
    let q = n / 4;
    if n % 4 == 0 {
        q
    } else {
        q + 1
    }
}

/// ASCII letters and digits.
pub open spec fn is_ascii_alnum(c: char) -> bool {
    ('a' <= c && c <= 'z') || ('A' <= c && c <= 'Z') || ('0' <= c && c <= '9')
}

/// The slug of `s` before its outer dashes are trimmed, and whether it
/// ends in a dash: letters and digits lowercased, every other run of
/// characters one dash.
pub open spec fn slug_raw(s: Seq<char>) -> (Seq<char>, bool)
    decreases s.len(),
{
    if s.len() == 0 {
        (seq![], false)
    } else {
        let prev = slug_raw(s.drop_last());
        let c = s.last();
        if is_ascii_alnum(c) {
            (prev.0.push(lower_char(c)), false)
        } else if !prev.1 {
            (prev.0.push('-'), true)
        } else {
            prev
        }
    }
}

/// `s` without leading dashes.
pub open spec fn trim_start_dashes(s: Seq<char>) -> Seq<char>
    decreases s.len(),
{
    if s.len() > 0 && s[0] == '-' {
        trim_start_dashes(s.drop_first())
    } else {
        s
    }
}

/// `s` without trailing dashes.
pub open spec fn trim_end_dashes(s: Seq<char>) -> Seq<char>
    decreases s.len(),
{
    if s.len() > 0 && s.last() == '-' {
        trim_end_dashes(s.drop_last())
    } else {
        s
    }
}

/// The slug of `s`.
pub open spec fn slug(s: Seq<char>) -> Seq<char> {
    trim_end_dashes(trim_start_dashes(slug_raw(s).0))
}

fn is_alnum(c: char) -> (r: bool)
    ensures
        r == is_ascii_alnum(c),
{
    ('a' <= c && c <= 'z') || ('A' <= c && c <= 'Z') || ('0' <= c && c <= '9')
}

fn trim_dashes(v: &Vec<char>) -> (r: Vec<char>)
    ensures
        r@ == trim_end_dashes(trim_start_dashes(v@)),
{
    let n = v.len();
    let mut i: usize = 0;
    assert(v@.subrange(0, n as int) =~= v@);
    while i < n && v[i] == '-'
        invariant
            n == v.len(),
            i <= n,
            trim_start_dashes(v@) == trim_start_dashes(v@.subrange(i as int, n as int)),
        decreases n - i,
    {
        assert(v@.subrange(i as int, n as int).drop_first() =~= v@.subrange(i + 1, n as int));
        i = i + 1;
    }
    let ghost t = v@.subrange(i as int, n as int);
    assert(trim_start_dashes(t) == t);
    let mut j: usize = n;
    assert(t.subrange(0, (n - i) as int) =~= t);
    while j > i && v[j - 1] == '-'
        invariant
            n == v.len(),
            i <= j <= n,
            t == v@.subrange(i as int, n as int),
            trim_end_dashes(t) == trim_end_dashes(t.subrange(0, j - i)),
        decreases j,
    {
        assert(t.subrange(0, (j - i) as int).drop_last() =~= t.subrange(0, (j - i - 1) as int));
        j = j - 1;
    }
    let ghost u = t.subrange(0, j - i);
    assert(trim_end_dashes(u) == u);
    let mut out: Vec<char> = Vec::new();
    let mut k: usize = i;
    while k < j
        invariant
            i <= k <= j <= n,
            n == v.len(),
            out@ == v@.subrange(i as int, k as int),
        decreases j - k,
    {
        out.push(v[k]);
        assert(v@.subrange(i as int, k + 1) =~= v@.subrange(i as int, k as int).push(v@[k as int]));
        k = k + 1;
    }
    assert(out@ =~= u);
    out
}

/// Lowercase letters and digits, other runs of characters folded to one
/// dash, with no dash at either end.
pub fn simple_slug(input: &str) -> (r: String)
    ensures
        r@ == slug(input@),
{
    let v = chars_of(input);
    let mut out: Vec<char> = Vec::new();
    let mut last_dash = false;
    let mut i: usize = 0;
    while i < v.len()
        invariant
            i <= v.len(),
            (out@, last_dash) == slug_raw(v@.take(i as int)),
        decreases v.len() - i,
    {
        let ch = v[i];
        assert(v@.take(i + 1).drop_last() =~= v@.take(i as int));
        if is_alnum(ch) {
            last_dash = false;
            out.push(crate::text::lower(ch));
        } else if !last_dash {
            last_dash = true;
            out.push('-');
        }
        i = i + 1;
    }
    assert(v@.take(v.len() as int) =~= v@);
    let trimmed = trim_dashes(&out);
    string_from_chars(&trimmed)
}

/// The id of a lesson promoted from a reflection candidate.
pub open spec fn lesson_id(run_id: Seq<char>, index: nat, kind: Seq<char>) -> Seq<char> {
    "reflection-"@ + slug(run_id) + "-"@ + decimal(index) + "-"@ + slug(kind)
}

/// The id of the lesson promoted from candidate `candidate_index` of a run.
pub fn make_lesson_id(run_id: &str, candidate_index: usize, kind: &str) -> (r: String)
    ensures
        r@ == lesson_id(run_id@, candidate_index as nat, kind@),
{
    let a = simple_slug(run_id);
    let b = usize_text(candidate_index);
    let c = simple_slug(kind);
    let head = concat3("reflection-", a.as_str(), "-");
    let mid = concat3(head.as_str(), b.as_str(), "-");
    concat2(mid.as_str(), c.as_str())
}

/// The message of a run that used up its time budget.
pub open spec fn budget_exceeded_message(max_runtime_secs: u64) -> Seq<char> {
    "orchestration runtime budget exceeded "@ + decimal(max_runtime_secs as nat) + "s"@
}

/// Refuses to go on once `elapsed_secs` has reached the run's time budget.
pub fn ensure_runtime_budget(elapsed_secs: u64, max_runtime_secs: u64) -> (r: Result<(), String>)
    ensures
        elapsed_secs < max_runtime_secs ==> r is Ok,
        elapsed_secs >= max_runtime_secs ==> (r matches Err(e) && e@ == budget_exceeded_message(max_runtime_secs)),
{
    if elapsed_secs >= max_runtime_secs {
        let n = u64_text(max_runtime_secs);
        Err(concat3("orchestration runtime budget exceeded ", n.as_str(), "s"))
    } else {
        Ok(())
    }
}


// ---------------------------------------------------------------------
// The lifecycle of active runs

/// The option's character sequences, if any.
pub open spec fn opt_view(o: Option<String>) -> Option<Seq<char>> {
    match o {
        Some(s) => Some(s@),
        None => None,
    }
}

/// The lifecycle of a run as recorded by its decision log: `base` (or the
/// default lifecycle) with the count of decisions and the time of the last.
pub fn lifecycle_summary_for(
    base: Option<SupervisionLifecycleSummary>,
    decisions: &Vec<ActiveRunDecisionRecord>,
) -> (r: SupervisionLifecycleSummary)
    ensures
        base matches Some(b) ==> (r.state == b.state && r.intervention_required == b.intervention_required
            && r.escalation_requested == b.escalation_requested
            && r.rollback_requested == b.rollback_requested
            && r.rollback_reference == b.rollback_reference),
        base is None ==> (r.state@ == "queued"@ && !r.intervention_required && !r.escalation_requested
            && !r.rollback_requested && r.rollback_reference is None),
        r.decision_count == decisions@.len(),
        decisions@.len() == 0 ==> r.last_decision_at is None,
        decisions@.len() > 0 ==> opt_view(r.last_decision_at) == Some(decisions@.last().created_at@),
{
    let mut lifecycle = match base {
        Some(b) => b,
        None => SupervisionLifecycleSummary::default(),
    };
    lifecycle.decision_count = decisions.len();
    lifecycle.last_decision_at = if decisions.len() > 0 {
        Some(decisions[decisions.len() - 1].created_at.clone())
    } else {
        None
    };
    lifecycle
}

/// An operator action on an active run, with who asked and why.
pub struct LifecycleAction {
    pub action: String,
    pub requested_by: String,
    pub reason: Option<String>,
    pub rollback_reference: Option<String>,
}

/// The action names the lifecycle knows.
pub open spec fn action_fits(
    a: LifecycleAction,
    action: Seq<char>,
    requested_by: Seq<char>,
    reason: Option<Seq<char>>,
    rollback_reference: Option<Seq<char>>,
) -> bool {
    &&& a.action@ == action
    &&& a.requested_by@ == requested_by
    &&& opt_view(a.reason) == reason
    &&& opt_view(a.rollback_reference) == rollback_reference
}

/// Who a request names, or the operator.
pub open spec fn requester(request: ActiveRunInterventionRequest) -> Seq<char> {
    match request.requested_by {
        Some(s) => s@,
        None => "operator"@,
    }
}

fn requester_of(request: &ActiveRunInterventionRequest) -> (r: String)
    ensures
        r@ == requester(*request),
{
    match &request.requested_by {
        Some(s) => s.clone(),
        None => owned("operator"),
    }
}

fn clone_opt(o: &Option<String>) -> (r: Option<String>)
    ensures
        opt_view(r) == opt_view(*o),
{
    match o {
        Some(s) => Some(s.clone()),
        None => None,
    }
}

/// The operator's request to pause a run.
pub fn pause_active_run() -> (r: LifecycleAction)
    ensures
        action_fits(r, "pause"@, "operator"@, None, None),
{
    LifecycleAction { action: owned("pause"), requested_by: owned("operator"), reason: None, rollback_reference: None }
}

/// The operator's request to resume a paused run.
pub fn resume_active_run() -> (r: LifecycleAction)
    ensures
        action_fits(r, "resume"@, "operator"@, None, None),
{
    LifecycleAction { action: owned("resume"), requested_by: owned("operator"), reason: None, rollback_reference: None }
}

/// The operator's request to kill a run.
pub fn kill_active_run() -> (r: LifecycleAction)
    ensures
        action_fits(r, "kill"@, "operator"@, None, None),
{
    LifecycleAction { action: owned("kill"), requested_by: owned("operator"), reason: None, rollback_reference: None }
}

/// A request to escalate a run, on behalf of whoever the request names.
pub fn escalate_active_run(request: &ActiveRunInterventionRequest) -> (r: LifecycleAction)
    ensures
        action_fits(r, "escalate"@, requester(*request), opt_view(request.reason), None),
{
    LifecycleAction {
        action: owned("escalate"),
        requested_by: requester_of(request),
        reason: clone_opt(&request.reason),
        rollback_reference: None,
    }
}

/// A request to roll a run back to the receipt the request references.
pub fn rollback_active_run(request: &ActiveRunInterventionRequest) -> (r: LifecycleAction)
    ensures
        action_fits(
            r,
            "rollback"@,
            requester(*request),
            opt_view(request.reason),
            opt_view(request.rollback_reference),
        ),
{
    LifecycleAction {
        action: owned("rollback"),
        requested_by: requester_of(request),
        reason: clone_opt(&request.reason),
        rollback_reference: clone_opt(&request.rollback_reference),
    }
}

/// What an intervention does to a run, as the routing service decides it.
pub struct LifecycleTransition {
    pub pause_requested: bool,
    pub kill_requested: bool,
    pub state: String,
    pub intervention_required: bool,
    pub escalation_requested: bool,
    pub rollback_requested: bool,
    pub rollback_reference: Option<String>,
    pub stage: String,
    pub note: String,
    pub status: String,
    pub resulting_state: String,
}

/// The fields of a run that its lifecycle operations never touch.
pub open spec fn same_record(a: ActiveOrchestrationRun, b: ActiveOrchestrationRun) -> bool {
    &&& a.run_id == b.run_id
    &&& a.created_at == b.created_at
    &&& a.request == b.request
    &&& a.routing == b.routing
    &&& a.checkpoint_count == b.checkpoint_count
    &&& a.trace_count == b.trace_count
    &&& a.worker_count == b.worker_count
    &&& a.relationship_count == b.relationship_count
    &&& a.resource_totals == b.resource_totals
    &&& a.receipt_id == b.receipt_id
    &&& a.receipt_path == b.receipt_path
}

/// Applies an intervention's transition to a run. The lifecycle is
/// replaced by the transition's, with no decision counted yet.
pub fn apply_lifecycle_transition(run: &mut ActiveOrchestrationRun, t: &LifecycleTransition, now: &str)
    ensures
        same_record(*final(run), *old(run)),
        final(run).started_at == old(run).started_at,
        final(run).finished_at == old(run).finished_at,
        final(run).status == old(run).status,
        final(run).current_actor_type == old(run).current_actor_type,
        final(run).current_actor_id == old(run).current_actor_id,
        final(run).last_error == old(run).last_error,
        final(run).pause_requested == t.pause_requested,
        final(run).kill_requested == t.kill_requested,
        final(run).lifecycle.state@ == t.state@,
        final(run).lifecycle.intervention_required == t.intervention_required,
        final(run).lifecycle.escalation_requested == t.escalation_requested,
        final(run).lifecycle.rollback_requested == t.rollback_requested,
        opt_view(final(run).lifecycle.rollback_reference) == opt_view(t.rollback_reference),
        final(run).lifecycle.decision_count == 0,
        final(run).lifecycle.last_decision_at is None,
        opt_view(final(run).current_stage) == Some(t.stage@),
        opt_view(final(run).current_note) == Some(t.note@),
        final(run).updated_at@ == now@,
{
    run.pause_requested = t.pause_requested;
    run.kill_requested = t.kill_requested;
    run.lifecycle = SupervisionLifecycleSummary {
        state: t.state.clone(),
        intervention_required: t.intervention_required,
        escalation_requested: t.escalation_requested,
        rollback_requested: t.rollback_requested,
        rollback_reference: clone_opt(&t.rollback_reference),
        decision_count: 0,
        last_decision_at: None,
    };
    run.current_stage = Some(t.stage.clone());
    run.current_note = Some(t.note.clone());
    run.updated_at = owned(now);
}

/// The event an intervention appends to the run's log.
pub fn lifecycle_event(
    action: &LifecycleAction,
    t: &LifecycleTransition,
    event_id: String,
    created_at: String,
) -> (r: ActiveRunEvent)
    ensures
        r.event_id == event_id,
        r.created_at == created_at,
        r.stage@ == t.stage@,
        r.actor_type@ == "operator"@,
        r.actor_id@ == action.requested_by@,
        r.status@ == t.status@,
        r.note@ == t.note@,
{
    ActiveRunEvent {
        event_id,
        created_at,
        stage: t.stage.clone(),
        actor_type: owned("operator"),
        actor_id: action.requested_by.clone(),
        status: t.status.clone(),
        note: t.note.clone(),
    }
}

/// The decision record an intervention appends to the run's log.
pub fn lifecycle_decision(
    action: &LifecycleAction,
    t: &LifecycleTransition,
    decision_id: String,
    created_at: String,
) -> (r: ActiveRunDecisionRecord)
    ensures
        r.decision_id == decision_id,
        r.created_at == created_at,
        r.action@ == action.action@,
        r.requested_by@ == action.requested_by@,
        opt_view(r.reason) == opt_view(action.reason),
        opt_view(r.rollback_reference) == opt_view(action.rollback_reference),
        r.resulting_state@ == t.resulting_state@,
{
    ActiveRunDecisionRecord {
        decision_id,
        created_at,
        action: action.action.clone(),
        requested_by: action.requested_by.clone(),
        reason: clone_opt(&action.reason),
        rollback_reference: clone_opt(&action.rollback_reference),
        resulting_state: t.resulting_state.clone(),
    }
}

/// A fresh decision record for an intervention, stamped now.
pub fn new_lifecycle_decision(action: &LifecycleAction, t: &LifecycleTransition) -> (r: ActiveRunDecisionRecord)
    ensures
        crate::ids::hyphenated_uuid_shape(r.decision_id@),
        r.action@ == action.action@,
        r.requested_by@ == action.requested_by@,
        opt_view(r.reason) == opt_view(action.reason),
        opt_view(r.rollback_reference) == opt_view(action.rollback_reference),
        r.resulting_state@ == t.resulting_state@,
{
    let id = crate::ids::new_uuid();
    let at = crate::clock::now_rfc3339();
    lifecycle_decision(action, t, id, at)
}

/// A fresh event for an intervention, stamped now.
pub fn new_lifecycle_event(action: &LifecycleAction, t: &LifecycleTransition) -> (r: ActiveRunEvent)
    ensures
        crate::ids::hyphenated_uuid_shape(r.event_id@),
        r.stage@ == t.stage@,
        r.actor_type@ == "operator"@,
        r.actor_id@ == action.requested_by@,
        r.status@ == t.status@,
        r.note@ == t.note@,
{
    let id = crate::ids::new_uuid();
    let at = crate::clock::now_rfc3339();
    lifecycle_event(action, t, id, at)
}

/// A checkpoint of a run, with a fresh id, stamped now.
pub fn make_checkpoint(
    stage: &str,
    status: &str,
    note: &str,
    claw_id: Option<&str>,
    model_profile_id: Option<&str>,
    provider: Option<&str>,
    model: Option<&str>,
    input_excerpt: Option<String>,
    output_excerpt: Option<String>,
) -> (r: OrchestrationCheckpoint)
    ensures
        crate::ids::hyphenated_uuid_shape(r.checkpoint_id@),
        r.stage@ == stage@,
        r.status@ == status@,
        r.note@ == note@,
        opt_view(r.claw_id) == crate::text::opt_str_view(claw_id),
        opt_view(r.model_profile_id) == crate::text::opt_str_view(model_profile_id),
        opt_view(r.provider) == crate::text::opt_str_view(provider),
        opt_view(r.model) == crate::text::opt_str_view(model),
        r.input_excerpt == input_excerpt,
        r.output_excerpt == output_excerpt,
{
    OrchestrationCheckpoint {
        checkpoint_id: crate::ids::new_uuid(),
        created_at: crate::clock::now_rfc3339(),
        stage: owned(stage),
        status: owned(status),
        claw_id: crate::text::opt_owned(claw_id),
        model_profile_id: crate::text::opt_owned(model_profile_id),
        provider: crate::text::opt_owned(provider),
        model: crate::text::opt_owned(model),
        note: owned(note),
        input_excerpt,
        output_excerpt,
    }
}

/// A trace entry of a run, with a fresh id, stamped now.
pub fn make_trace_entry(
    stage: &str,
    actor_type: &str,
    actor_id: &str,
    parent_trace_id: Option<&str>,
    status: &str,
    claw_id: Option<&str>,
    model_profile_id: Option<&str>,
    provider: Option<&str>,
    model: Option<&str>,
    note: &str,
    input_excerpt: Option<String>,
    output_excerpt: Option<String>,
    estimated_input_tokens: Option<usize>,
    estimated_output_tokens: Option<usize>,
    duration_ms: Option<u64>,
) -> (r: OrchestrationTraceEntry)
    ensures
        crate::ids::hyphenated_uuid_shape(r.trace_id@),
        r.stage@ == stage@,
        r.actor_type@ == actor_type@,
        r.actor_id@ == actor_id@,
        opt_view(r.parent_trace_id) == crate::text::opt_str_view(parent_trace_id),
        r.status@ == status@,
        opt_view(r.claw_id) == crate::text::opt_str_view(claw_id),
        opt_view(r.model_profile_id) == crate::text::opt_str_view(model_profile_id),
        opt_view(r.provider) == crate::text::opt_str_view(provider),
        opt_view(r.model) == crate::text::opt_str_view(model),
        r.note@ == note@,
        r.input_excerpt == input_excerpt,
        r.output_excerpt == output_excerpt,
        r.estimated_input_tokens == estimated_input_tokens,
        r.estimated_output_tokens == estimated_output_tokens,
        r.duration_ms == duration_ms,
{
    OrchestrationTraceEntry {
        trace_id: crate::ids::new_uuid(),
        created_at: crate::clock::now_rfc3339(),
        stage: owned(stage),
        actor_type: owned(actor_type),
        actor_id: owned(actor_id),
        parent_trace_id: crate::text::opt_owned(parent_trace_id),
        status: owned(status),
        claw_id: crate::text::opt_owned(claw_id),
        model_profile_id: crate::text::opt_owned(model_profile_id),
        provider: crate::text::opt_owned(provider),
        model: crate::text::opt_owned(model),
        note: owned(note),
        input_excerpt,
        output_excerpt,
        estimated_input_tokens,
        estimated_output_tokens,
        duration_ms,
    }
}

/// A link from a run to what it spawned, with a fresh id.
pub fn make_relationship(
    parent_run_id: &str,
    child_id: &str,
    child_kind: &str,
    delegation_id: Option<&str>,
    claw_id: Option<&str>,
    model_profile_id: Option<&str>,
    stage: &str,
) -> (r: OrchestrationRelationship)
    ensures
        crate::ids::hyphenated_uuid_shape(r.relationship_id@),
        r.parent_run_id@ == parent_run_id@,
        r.child_id@ == child_id@,
        r.child_kind@ == child_kind@,
        opt_view(r.delegation_id) == crate::text::opt_str_view(delegation_id),
        opt_view(r.claw_id) == crate::text::opt_str_view(claw_id),
        opt_view(r.model_profile_id) == crate::text::opt_str_view(model_profile_id),
        r.stage@ == stage@,
{
    OrchestrationRelationship {
        relationship_id: crate::ids::new_uuid(),
        parent_run_id: owned(parent_run_id),
        child_id: owned(child_id),
        child_kind: owned(child_kind),
        delegation_id: crate::text::opt_owned(delegation_id),
        claw_id: crate::text::opt_owned(claw_id),
        model_profile_id: crate::text::opt_owned(model_profile_id),
        stage: owned(stage),
    }
}

/// A transcript message of a run, with a fresh id, stamped now.
pub fn make_transcript_entry(
    stage: &str,
    actor_type: &str,
    actor_id: &str,
    role: &str,
    content: &str,
    parent_trace_id: Option<&str>,
    delegation_id: Option<&str>,
) -> (r: OrchestrationTranscriptEntry)
    ensures
        crate::ids::hyphenated_uuid_shape(r.transcript_id@),
        r.stage@ == stage@,
        r.actor_type@ == actor_type@,
        r.actor_id@ == actor_id@,
        r.role@ == role@,
        r.content@ == content@,
        opt_view(r.parent_trace_id) == crate::text::opt_str_view(parent_trace_id),
        opt_view(r.delegation_id) == crate::text::opt_str_view(delegation_id),
{
    OrchestrationTranscriptEntry {
        transcript_id: crate::ids::new_uuid(),
        created_at: crate::clock::now_rfc3339(),
        stage: owned(stage),
        actor_type: owned(actor_type),
        actor_id: owned(actor_id),
        role: owned(role),
        parent_trace_id: crate::text::opt_owned(parent_trace_id),
        delegation_id: crate::text::opt_owned(delegation_id),
        content: owned(content),
    }
}

/// Counts a recorded decision in the run's lifecycle.
pub fn record_lifecycle_decision(run: &mut ActiveOrchestrationRun, decision: &ActiveRunDecisionRecord, now: &str)
    requires
        old(run).lifecycle.decision_count < usize::MAX,
    ensures
        same_record(*final(run), *old(run)),
        final(run).status == old(run).status,
        final(run).started_at == old(run).started_at,
        final(run).finished_at == old(run).finished_at,
        final(run).current_stage == old(run).current_stage,
        final(run).current_actor_type == old(run).current_actor_type,
        final(run).current_actor_id == old(run).current_actor_id,
        final(run).current_note == old(run).current_note,
        final(run).pause_requested == old(run).pause_requested,
        final(run).kill_requested == old(run).kill_requested,
        final(run).last_error == old(run).last_error,
        final(run).lifecycle.state == old(run).lifecycle.state,
        final(run).lifecycle.intervention_required == old(run).lifecycle.intervention_required,
        final(run).lifecycle.escalation_requested == old(run).lifecycle.escalation_requested,
        final(run).lifecycle.rollback_requested == old(run).lifecycle.rollback_requested,
        final(run).lifecycle.rollback_reference == old(run).lifecycle.rollback_reference,
        final(run).lifecycle.decision_count == old(run).lifecycle.decision_count + 1,
        opt_view(final(run).lifecycle.last_decision_at) == Some(decision.created_at@),
        final(run).updated_at@ == now@,
{
    run.lifecycle.decision_count = run.lifecycle.decision_count + 1;
    run.lifecycle.last_decision_at = Some(decision.created_at.clone());
    run.updated_at = owned(now);
}

/// Records a stage change of a running run. The lifecycle follows the
/// status unless an intervention holds it; the start time is set when the
/// run first reports `running`.
pub fn apply_stage_update(
    run: &mut ActiveOrchestrationRun,
    status: &str,
    stage: &str,
    actor_type: &str,
    actor_id: &str,
    note: &str,
    now: &str,
)
    ensures
        same_record(*final(run), *old(run)),
        final(run).finished_at == old(run).finished_at,
        final(run).pause_requested == old(run).pause_requested,
        final(run).kill_requested == old(run).kill_requested,
        final(run).last_error == old(run).last_error,
        final(run).status@ == status@,
        opt_view(final(run).current_stage) == Some(stage@),
        opt_view(final(run).current_actor_type) == Some(actor_type@),
        opt_view(final(run).current_actor_id) == Some(actor_id@),
        opt_view(final(run).current_note) == Some(note@),
        (old(run).started_at is None && status@ == "running"@) ==> opt_view(final(run).started_at) == Some(now@),
        !(old(run).started_at is None && status@ == "running"@) ==> final(run).started_at == old(run).started_at,
        old(run).lifecycle.intervention_required ==> final(run).lifecycle == old(run).lifecycle,
        !old(run).lifecycle.intervention_required ==> (final(run).lifecycle.state@ == status@
            && final(run).lifecycle.intervention_required == old(run).lifecycle.intervention_required
            && final(run).lifecycle.escalation_requested == old(run).lifecycle.escalation_requested
            && final(run).lifecycle.rollback_requested == old(run).lifecycle.rollback_requested
            && final(run).lifecycle.rollback_reference == old(run).lifecycle.rollback_reference
            && final(run).lifecycle.decision_count == old(run).lifecycle.decision_count
            && final(run).lifecycle.last_decision_at == old(run).lifecycle.last_decision_at),
        final(run).updated_at@ == now@,
{
    run.status = owned(status);
    run.current_stage = Some(owned(stage));
    run.current_actor_type = Some(owned(actor_type));
    run.current_actor_id = Some(owned(actor_id));
    run.current_note = Some(owned(note));
    if run.started_at.is_none() && crate::text::str_eq(status, "running") {
        run.started_at = Some(owned(now));
    }
    if !run.lifecycle.intervention_required {
        run.lifecycle.state = owned(status);
    }
    run.updated_at = owned(now);
}

/// Records what a finished receipt says of the run: its counts, resource
/// totals and where the receipt was written.
pub fn apply_record_summary(
    run: &mut ActiveOrchestrationRun,
    checkpoint_count: usize,
    trace_count: usize,
    worker_count: usize,
    relationship_count: usize,
    totals: OrchestrationResourceTotals,
    receipt_id: Option<String>,
    receipt_path: &str,
    now: &str,
)
    ensures
        final(run).run_id == old(run).run_id,
        final(run).created_at == old(run).created_at,
        final(run).request == old(run).request,
        final(run).routing == old(run).routing,
        final(run).status == old(run).status,
        final(run).started_at == old(run).started_at,
        final(run).finished_at == old(run).finished_at,
        final(run).current_stage == old(run).current_stage,
        final(run).current_actor_type == old(run).current_actor_type,
        final(run).current_actor_id == old(run).current_actor_id,
        final(run).current_note == old(run).current_note,
        final(run).lifecycle == old(run).lifecycle,
        final(run).pause_requested == old(run).pause_requested,
        final(run).kill_requested == old(run).kill_requested,
        final(run).last_error == old(run).last_error,
        final(run).checkpoint_count == checkpoint_count,
        final(run).trace_count == trace_count,
        final(run).worker_count == worker_count,
        final(run).relationship_count == relationship_count,
        final(run).resource_totals == Some(totals),
        final(run).receipt_id == receipt_id,
        opt_view(final(run).receipt_path) == Some(receipt_path@),
        final(run).updated_at@ == now@,
{
    run.checkpoint_count = checkpoint_count;
    run.trace_count = trace_count;
    run.worker_count = worker_count;
    run.relationship_count = relationship_count;
    run.resource_totals = Some(totals);
    run.receipt_id = receipt_id;
    run.receipt_path = Some(owned(receipt_path));
    run.updated_at = owned(now);
}

/// Marks a run completed by the claw that produced its final answer.
pub fn finalize_success(run: &mut ActiveOrchestrationRun, final_claw_id: &str, now: &str)
    ensures
        same_record(*final(run), *old(run)),
        final(run).started_at == old(run).started_at,
        final(run).pause_requested == old(run).pause_requested,
        final(run).kill_requested == old(run).kill_requested,
        final(run).status@ == "completed"@,
        opt_view(final(run).finished_at) == Some(now@),
        opt_view(final(run).current_stage) == Some("completed"@),
        opt_view(final(run).current_actor_type) == Some("orchestrator"@),
        opt_view(final(run).current_actor_id) == Some(final_claw_id@),
        opt_view(final(run).current_note) == Some("run completed"@),
        final(run).last_error is None,
        final(run).lifecycle.state@ == "completed"@,
        !final(run).lifecycle.intervention_required,
        final(run).lifecycle.escalation_requested == old(run).lifecycle.escalation_requested,
        final(run).lifecycle.rollback_requested == old(run).lifecycle.rollback_requested,
        final(run).lifecycle.rollback_reference == old(run).lifecycle.rollback_reference,
        final(run).lifecycle.decision_count == old(run).lifecycle.decision_count,
        final(run).lifecycle.last_decision_at == old(run).lifecycle.last_decision_at,
        final(run).updated_at@ == now@,
{
    run.status = owned("completed");
    run.finished_at = Some(owned(now));
    run.current_stage = Some(owned("completed"));
    run.current_actor_type = Some(owned("orchestrator"));
    run.current_actor_id = Some(owned(final_claw_id));
    run.current_note = Some(owned("run completed"));
    run.last_error = None;
    run.lifecycle.state = owned("completed");
    run.lifecycle.intervention_required = false;
    run.updated_at = owned(now);
}

/// The status a failed run ends in: rolled back or killed when the
/// operator asked for that, failed otherwise.
pub open spec fn failure_status(run: ActiveOrchestrationRun) -> Seq<char> {
    if run.lifecycle.rollback_requested {
        "rolled_back"@
    } else if run.kill_requested {
        "killed"@
    } else {
        "failed"@
    }
}

/// Marks a run ended by `error`.
pub fn finalize_failure(run: &mut ActiveOrchestrationRun, error: &str, now: &str)
    ensures
        same_record(*final(run), *old(run)),
        final(run).started_at == old(run).started_at,
        final(run).pause_requested == old(run).pause_requested,
        final(run).kill_requested == old(run).kill_requested,
        final(run).status@ == failure_status(*old(run)),
        opt_view(final(run).finished_at) == Some(now@),
        opt_view(final(run).current_stage) == Some(failure_status(*old(run))),
        opt_view(final(run).current_actor_type) == Some("orchestrator"@),
        old(run).current_actor_id is Some ==> final(run).current_actor_id == old(run).current_actor_id,
        old(run).current_actor_id is None ==> opt_view(final(run).current_actor_id) == Some("orchestrator"@),
        opt_view(final(run).current_note) == Some(error@),
        opt_view(final(run).last_error) == Some(error@),
        final(run).lifecycle.state@ == failure_status(*old(run)),
        final(run).lifecycle.intervention_required == old(run).lifecycle.intervention_required,
        final(run).lifecycle.escalation_requested == old(run).lifecycle.escalation_requested,
        final(run).lifecycle.rollback_requested == old(run).lifecycle.rollback_requested,
        final(run).lifecycle.rollback_reference == old(run).lifecycle.rollback_reference,
        final(run).lifecycle.decision_count == old(run).lifecycle.decision_count,
        final(run).lifecycle.last_decision_at == old(run).lifecycle.last_decision_at,
        final(run).updated_at@ == now@,
{
    let status = if run.lifecycle.rollback_requested {
        "rolled_back"
    } else if run.kill_requested {
        "killed"
    } else {
        "failed"
    };
    run.status = owned(status);
    run.finished_at = Some(owned(now));
    run.current_stage = Some(owned(status));
    run.current_actor_type = Some(owned("orchestrator"));
    if run.current_actor_id.is_none() {
        run.current_actor_id = Some(owned("orchestrator"));
    }
    run.current_note = Some(owned(error));
    run.last_error = Some(owned(error));
    run.lifecycle.state = owned(status);
    run.updated_at = owned(now);
}

/// What a run does at a checkpoint, given its latest snapshot.
pub enum PauseGate {
    /// The operator asked to kill the run: record `killed` and stop.
    Kill,
    /// The operator asked to pause: record `paused` if not yet paused, then
    /// wait and look again.
    Wait { announce: bool },
    /// The run was paused and no longer is: record `running`, then go on.
    Resume,
    /// Go on.
    Proceed,
}

/// The step a run takes at a checkpoint.
pub fn pause_gate(run: &ActiveOrchestrationRun) -> (r: PauseGate)
    ensures
        run.kill_requested ==> r is Kill,
        !run.kill_requested && run.pause_requested ==> r == (PauseGate::Wait { announce: run.status@ != "paused"@ }),
        !run.kill_requested && !run.pause_requested && run.status@ == "paused"@ ==> r is Resume,
        !run.kill_requested && !run.pause_requested && run.status@ != "paused"@ ==> r is Proceed,
{
    if run.kill_requested {
        PauseGate::Kill
    } else if run.pause_requested {
        PauseGate::Wait { announce: !crate::text::str_eq(run.status.as_str(), "paused") }
    } else if crate::text::str_eq(run.status.as_str(), "paused") {
        PauseGate::Resume
    } else {
        PauseGate::Proceed
    }
}

/// A receipt id names a file directly under the receipt directory: it
/// holds no path separator.
pub fn validate_receipt_id(receipt_id: &str) -> (r: Result<(), String>)
    ensures
        r is Ok <==> (!receipt_id@.contains('/') && !receipt_id@.contains('\\')),
        r matches Err(e) ==> e@ == "invalid receipt id"@,
{
    let v = chars_of(receipt_id);
    let mut i: usize = 0;
    while i < v.len()
        invariant
            i <= v.len(),
            v@ == receipt_id@,
            forall|k: int| 0 <= k < i ==> v@[k] != '/' && v@[k] != '\\',
        decreases v.len() - i,
    {
        if v[i] == '/' || v[i] == '\\' {
            assert(receipt_id@[i as int] == v@[i as int]);
            return Err(owned("invalid receipt id"));
        }
        i = i + 1;
    }
    Ok(())
}


// ---------------------------------------------------------------------
// Steering and lessons

/// The policy line that opens the steering notes.
pub open spec fn policy_note(a: AutonomyPolicy) -> Seq<char> {
    "autonomy="@ + a.autonomy_level@ + " approval_policy="@ + a.approval_policy@ + " max_delegations="@
        + decimal(a.max_delegations as nat) + " max_iterations="@ + decimal(a.max_iterations as nat)
        + " max_runtime_secs="@ + decimal(a.max_runtime_secs as nat)
}

/// The note a lesson contributes.
pub open spec fn lesson_note(l: DecisionLessonSpec) -> Seq<char> {
    "lesson "@ + l.id@ + ": "@ + l.recommendation@
}

/// The steering notes of a policy and the lessons applied under it.
pub open spec fn steering_notes(a: AutonomyPolicy, lessons: Seq<DecisionLessonSpec>) -> Seq<Seq<char>> {
    seq![policy_note(a)] + (if a.yolo_mode {
        seq![
            "yolo mode is enabled; keep actions bounded by explicit budgets, approvals, and kill switches"@,
        ]
    } else {
        seq![]
    }) + (if !a.steering_enabled {
        seq!["steering is disabled; use lessons as soft guidance only"@]
    } else {
        seq![]
    }) + (if !a.decision_learning_enabled {
        seq!["decision learning is disabled for this run"@]
    } else {
        seq![]
    }) + (if !a.critic_enabled {
        seq!["critic loop is disabled; favor conservative execution"@]
    } else {
        seq![]
    }) + lessons.map_values(|l: DecisionLessonSpec| lesson_note(l))
}

fn push_owned(v: &mut Vec<String>, s: String)
    ensures
        crate::text::strs(final(v)@) == crate::text::strs(old(v)@).push(s@),
{
    let ghost before = old(v)@;
    v.push(s);
    assert(crate::text::strs(v@) =~= crate::text::strs(before).push(s@));
}

fn policy_note_of(a: &AutonomyPolicy) -> (r: String)
    ensures
        r@ == policy_note(*a),
{
    let d = usize_text(a.max_delegations);
    let i = usize_text(a.max_iterations);
    let t = u64_text(a.max_runtime_secs);
    let s1 = concat3("autonomy=", a.autonomy_level.as_str(), " approval_policy=");
    let s2 = concat3(s1.as_str(), a.approval_policy.as_str(), " max_delegations=");
    let s3 = concat3(s2.as_str(), d.as_str(), " max_iterations=");
    let s4 = concat3(s3.as_str(), i.as_str(), " max_runtime_secs=");
    concat2(s4.as_str(), t.as_str())
}

/// The steering notes a run starts with: its policy, the caveats of the
/// switches that are off (or of yolo mode when on), and each applied
/// lesson's recommendation.
pub fn build_steering_notes(autonomy: &AutonomyPolicy, lessons: &Vec<DecisionLessonSpec>) -> (r: Vec<String>)
    ensures
        crate::text::strs(r@) == steering_notes(*autonomy, lessons@),
{
    let mut notes: Vec<String> = Vec::new();
    push_owned(&mut notes, policy_note_of(autonomy));
    if autonomy.yolo_mode {
        push_owned(
            &mut notes,
            owned("yolo mode is enabled; keep actions bounded by explicit budgets, approvals, and kill switches"),
        );
    }
    if !autonomy.steering_enabled {
        push_owned(&mut notes, owned("steering is disabled; use lessons as soft guidance only"));
    }
    if !autonomy.decision_learning_enabled {
        push_owned(&mut notes, owned("decision learning is disabled for this run"));
    }
    if !autonomy.critic_enabled {
        push_owned(&mut notes, owned("critic loop is disabled; favor conservative execution"));
    }
    let ghost head = crate::text::strs(notes@);
    let mut i: usize = 0;
    while i < lessons.len()
        invariant
            i <= lessons.len(),
            crate::text::strs(notes@) == head + lessons@.take(i as int).map_values(
                |l: DecisionLessonSpec| lesson_note(l),
            ),
        decreases lessons.len() - i,
    {
        let l = &lessons[i];
        let a = concat3("lesson ", l.id.as_str(), ": ");
        let note = concat2(a.as_str(), l.recommendation.as_str());
        push_owned(&mut notes, note);
        assert(lessons@.take(i + 1).map_values(|l: DecisionLessonSpec| lesson_note(l)) =~= lessons@.take(
            i as int,
        ).map_values(|l: DecisionLessonSpec| lesson_note(l)).push(lesson_note(lessons@[i as int])));
        i = i + 1;
    }
    assert(lessons@.take(lessons.len() as int) =~= lessons@);
    assert(crate::text::strs(notes@) =~= steering_notes(*autonomy, lessons@));
    notes
}

/// An expected scope value matches when it is unset or equal to the actual
/// one.
pub open spec fn scope_fits(expected: Option<Seq<char>>, actual: Option<Seq<char>>) -> bool {
    match expected {
        Some(e) => actual == Some(e),
        None => true,
    }
}

/// Whether an expected scope value admits the actual one.
pub fn scope_matches(expected: Option<&str>, actual: Option<&str>) -> (r: bool)
    ensures
        r == scope_fits(crate::text::opt_str_view(expected), crate::text::opt_str_view(actual)),
{
    match expected {
        Some(e) => match actual {
            Some(a) => crate::text::str_eq(a, e),
            None => false,
        },
        None => true,
    }
}

// ---------------------------------------------------------------------
// Worker outcomes

/// What the run loop reads of a worker's result. The two confidence flags
/// say whether the worker reported a confidence below 0.6 and below 0.7.
pub struct WorkerOutcome {
    pub status: String,
    pub question_count: usize,
    pub confidence_below_follow_up: bool,
    pub confidence_below_critic: bool,
}

/// Whether a worker's result earns a follow-up round.
pub open spec fn follow_up_due(a: AutonomyPolicy, w: WorkerOutcome, follow_up_count: nat) -> bool {
    &&& a.steering_enabled
    &&& follow_up_count + 1 < a.max_iterations
    &&& (w.status@ == "failed"@ || w.status@ == "needs_input"@ || w.question_count > 0
        || w.confidence_below_follow_up)
}

/// Whether to ask for a follow-up after a worker's result: only with
/// steering on and iterations left, and only for a failed or blocked
/// worker, one with questions, or one with low confidence.
pub fn should_follow_up(autonomy: &AutonomyPolicy, worker: &WorkerOutcome, follow_up_count: usize) -> (r: bool)
    ensures
        r == follow_up_due(*autonomy, *worker, follow_up_count as nat),
{
    if !autonomy.steering_enabled {
        return false;
    }
    let next = if follow_up_count < usize::MAX {
        follow_up_count + 1
    } else {
        usize::MAX
    };
    if next >= autonomy.max_iterations {
        return false;
    }
    if crate::text::str_eq(worker.status.as_str(), "failed") || crate::text::str_eq(
        worker.status.as_str(),
        "needs_input",
    ) {
        return true;
    }
    if worker.question_count > 0 {
        return true;
    }
    worker.confidence_below_follow_up
}

/// Whether a worker's result calls for the critic.
pub open spec fn needs_critic(w: WorkerOutcome) -> bool {
    w.status@ != "completed"@ || w.question_count > 0 || w.confidence_below_critic
}

/// Whether to run the critic: only with the critic on, and only when some
/// worker did not complete, asked questions or had low confidence.
pub fn should_run_selective_critic(autonomy: &AutonomyPolicy, workers: &Vec<WorkerOutcome>) -> (r: bool)
    ensures
        r == (autonomy.critic_enabled && exists|i: int| 0 <= i < workers@.len() && needs_critic(#[trigger] workers@[i])),
{
    if !autonomy.critic_enabled {
        return false;
    }
    let mut i: usize = 0;
    while i < workers.len()
        invariant
            i <= workers.len(),
            autonomy.critic_enabled,
            forall|k: int| 0 <= k < i ==> !needs_critic(#[trigger] workers@[k]),
        decreases workers.len() - i,
    {
        let w = &workers[i];
        if !crate::text::str_eq(w.status.as_str(), "completed") || w.question_count > 0
            || w.confidence_below_critic {
            assert(needs_critic(workers@[i as int]));
            return true;
        }
        i = i + 1;
    }
    false
}


// ---------------------------------------------------------------------
// JSON payloads in model replies

/// Three backticks.
pub open spec fn fence() -> Seq<char> {
    seq!['`', '`', '`']
}

/// Three backticks and `json`.
pub open spec fn json_fence() -> Seq<char> {
    seq!['`', '`', '`', 'j', 's', 'o', 'n']
}

/// The body of a fenced block (opened by ```json or ```, closed by ```),
/// trimmed, if `t` is one.
pub open spec fn fenced_body(t: Seq<char>) -> Option<Seq<char>> {
    let body: Option<Seq<char>> = if has_prefix(t, json_fence()) {
        Some(t.skip(7))
    } else if has_prefix(t, fence()) {
        Some(t.skip(3))
    } else {
        None
    };
    match body {
        Some(b) => if has_suffix(b, fence()) {
            Some(trim_seq(b.take(b.len() - 3)))
        } else {
            None
        },
        None => None,
    }
}

/// `i` is the first index of `c` in `t`.
pub open spec fn first_index_of(t: Seq<char>, c: char, i: int) -> bool {
    0 <= i < t.len() && t[i] == c && forall|k: int| 0 <= k < i ==> t[k] != c
}

/// `j` is the last index of `c` in `t`.
pub open spec fn last_index_of(t: Seq<char>, c: char, j: int) -> bool {
    0 <= j < t.len() && t[j] == c && forall|k: int| j < k < t.len() ==> t[k] != c
}

/// The texts a reply is read as JSON from, in the order they are tried:
/// the reply itself, the body of a fenced block, and the span from the
/// first `{` to the last `}` of the trimmed reply. When the last `}` comes
/// before the first `{` there is no span and `braces_inverted` is set.
pub struct JsonPayloadCandidates {
    pub raw: String,
    pub fenced: Option<String>,
    pub braced: Option<String>,
    pub braces_inverted: bool,
}

fn first_index(v: &Vec<char>, c: char) -> (r: Option<usize>)
    ensures
        r matches Some(i) ==> first_index_of(v@, c, i as int),
        r is None ==> forall|k: int| 0 <= k < v@.len() ==> v@[k] != c,
{
    let mut i: usize = 0;
    while i < v.len()
        invariant
            i <= v.len(),
            forall|k: int| 0 <= k < i ==> v@[k] != c,
        decreases v.len() - i,
    {
        if v[i] == c {
            return Some(i);
        }
        i = i + 1;
    }
    None
}

fn last_index(v: &Vec<char>, c: char) -> (r: Option<usize>)
    ensures
        r matches Some(j) ==> last_index_of(v@, c, j as int),
        r is None ==> forall|k: int| 0 <= k < v@.len() ==> v@[k] != c,
{
    let mut j: usize = v.len();
    while j > 0
        invariant
            j <= v.len(),
            forall|k: int| j <= k < v@.len() ==> v@[k] != c,
        decreases j,
    {
        if v[j - 1] == c {
            return Some(j - 1);
        }
        j = j - 1;
    }
    None
}

fn chars_slice(v: &Vec<char>, a: usize, b: usize) -> (r: String)
    requires
        a <= b <= v.len(),
    ensures
        r@ == v@.subrange(a as int, b as int),
{
    let mut out: Vec<char> = Vec::new();
    let mut k: usize = a;
    while k < b
        invariant
            a <= k <= b <= v.len(),
            out@ == v@.subrange(a as int, k as int),
        decreases b - k,
    {
        out.push(v[k]);
        assert(v@.subrange(a as int, k + 1) =~= v@.subrange(a as int, k as int).push(v@[k as int]));
        k = k + 1;
    }
    string_from_chars(&out)
}

fn fenced_body_of(t: &str) -> (r: Option<String>)
    ensures
        opt_view(r) == fenced_body(t@),
{
    proof {
        reveal_strlit("```json");
        reveal_strlit("```");
        assert("```json"@ =~= json_fence());
        assert("```"@ =~= fence());
    }
    let v = chars_of(t);
    let start: usize = if starts_with(t, "```json") {
        7
    } else if starts_with(t, "```") {
        3
    } else {
        return None;
    };
    let body = chars_slice(&v, start, v.len());
    assert(body@ =~= t@.skip(start as int));
    if ends_with(body.as_str(), "```") {
        let bv = chars_of(body.as_str());
        let inner = chars_slice(&bv, 0, bv.len() - 3);
        assert(inner@ =~= body@.take(body@.len() - 3));
        Some(trim(inner.as_str()))
    } else {
        None
    }
}

/// The candidate texts of a model reply that is expected to carry JSON.
pub fn json_payload_candidates(raw: &str) -> (r: JsonPayloadCandidates)
    ensures
        r.raw@ == raw@,
        opt_view(r.fenced) == fenced_body(trim_seq(raw@)),
        r.braced is Some ==> exists|i: int, j: int|
            first_index_of(trim_seq(raw@), '{', i) && last_index_of(trim_seq(raw@), '}', j) && i <= j
                && r.braced->0@ == trim_seq(raw@).subrange(i, j + 1),
        r.braced is None ==> !(exists|i: int, j: int|
            first_index_of(trim_seq(raw@), '{', i) && last_index_of(trim_seq(raw@), '}', j) && i <= j),
        r.braces_inverted <==> exists|i: int, j: int|
            first_index_of(trim_seq(raw@), '{', i) && last_index_of(trim_seq(raw@), '}', j) && j < i,
{
    let trimmed = trim(raw);
    let fenced = fenced_body_of(trimmed.as_str());
    let v = chars_of(trimmed.as_str());
    let open = first_index(&v, '{');
    let close = last_index(&v, '}');
    let (braced, braces_inverted) = match (open, close) {
        (Some(i), Some(j)) => {
            if i <= j {
                let n = v.len();
                assert(j < n);
                (Some(chars_slice(&v, i, j + 1)), false)
            } else {
                (None, true)
            }
        },
        _ => (None, false),
    };
    proof {
        assert forall|i: int, j: int|
            first_index_of(v@, '{', i) && last_index_of(v@, '}', j) implies open == Some(
            i as usize,
        ) && close == Some(j as usize) by {
            if open is Some {
                let o = open->0 as int;
                if o < i {
                    assert(v@[o] != '{');
                }
                if i < o {
                    assert(v@[i] != '{');
                }
            }
            if close is Some {
                let c = close->0 as int;
                if c < j {
                    assert(v@[j] != '}');
                }
                if j < c {
                    assert(v@[c] != '}');
                }
            }
        }
    }
    JsonPayloadCandidates { raw: owned(raw), fenced, braced, braces_inverted }
}


// ---------------------------------------------------------------------
// Matching lessons

/// Whether a lesson applies to a run: it is active and each scope it sets
/// matches the run.
pub open spec fn lesson_applies(
    l: DecisionLessonSpec,
    task_id: Option<Seq<char>>,
    category: Option<Seq<char>>,
    claw_id: Seq<char>,
    model_profile_id: Seq<char>,
    provider: Seq<char>,
    autonomy_level: Seq<char>,
    execution_mode: Seq<char>,
) -> bool {
    &&& l.active
    &&& scope_fits(opt_view(l.scope.task_id), task_id)
    &&& scope_fits(opt_view(l.scope.category), category)
    &&& scope_fits(opt_view(l.scope.claw_id), Some(claw_id))
    &&& scope_fits(opt_view(l.scope.model_profile_id), Some(model_profile_id))
    &&& scope_fits(opt_view(l.scope.provider), Some(provider))
    &&& scope_fits(opt_view(l.scope.autonomy_level), Some(autonomy_level))
    &&& scope_fits(opt_view(l.scope.execution_mode), Some(execution_mode))
}

/// The lessons that apply to a run, as a filter.
pub open spec fn applies_to(
    task_id: Option<Seq<char>>,
    category: Option<Seq<char>>,
    claw_id: Seq<char>,
    model_profile_id: Seq<char>,
    provider: Seq<char>,
    autonomy_level: Seq<char>,
    execution_mode: Seq<char>,
) -> spec_fn(DecisionLessonSpec) -> bool {
    |l: DecisionLessonSpec|
        lesson_applies(l, task_id, category, claw_id, model_profile_id, provider, autonomy_level, execution_mode)
}

/// `a` comes no later than `b`: higher confidence first, then by id.
pub open spec fn lesson_before(a: DecisionLessonSpec, b: DecisionLessonSpec) -> bool {
    a.confidence_rank > b.confidence_rank || (a.confidence_rank == b.confidence_rank && crate::order::lex_le(
        a.id@,
        b.id@,
    ))
}

/// Lessons in the order they are offered.
pub open spec fn lessons_ordered(s: Seq<DecisionLessonSpec>) -> bool {
    forall|i: int, j: int| 0 <= i < j < s.len() ==> lesson_before(#[trigger] s[i], #[trigger] s[j])
}

proof fn lemma_lesson_before_trans(a: DecisionLessonSpec, b: DecisionLessonSpec, c: DecisionLessonSpec)
    requires
        lesson_before(a, b),
        lesson_before(b, c),
    ensures
        lesson_before(a, c),
{
    if a.confidence_rank == b.confidence_rank && b.confidence_rank == c.confidence_rank {
        crate::order::lemma_lex_trans(a.id@, b.id@, c.id@);
    }
}

fn strictly_before(a: &DecisionLessonSpec, b: &DecisionLessonSpec) -> (r: bool)
    ensures
        r == (a.confidence_rank > b.confidence_rank || (a.confidence_rank == b.confidence_rank
            && crate::order::lex_lt(a.id@, b.id@))),
{
    a.confidence_rank > b.confidence_rank || (a.confidence_rank == b.confidence_rank && crate::order::str_lt(
        a.id.as_str(),
        b.id.as_str(),
    ))
}

fn lesson_position(sorted: &Vec<DecisionLessonSpec>, e: &DecisionLessonSpec) -> (r: usize)
    requires
        lessons_ordered(sorted@),
    ensures
        r <= sorted@.len(),
        forall|j: int| 0 <= j < r ==> lesson_before(#[trigger] sorted@[j], *e),
        forall|j: int| r <= j < sorted@.len() ==> lesson_before(*e, #[trigger] sorted@[j]),
{
    let mut i: usize = 0;
    while i < sorted.len() && strictly_before(&sorted[i], e)
        invariant
            i <= sorted@.len(),
            forall|j: int| 0 <= j < i ==> lesson_before(#[trigger] sorted@[j], *e),
        decreases sorted@.len() - i,
    {
        proof {
            crate::order::lemma_lex_refl(sorted@[i as int].id@);
        }
        i = i + 1;
    }
    proof {
        if i < sorted@.len() {
            crate::order::lemma_lex_total(e.id@, sorted@[i as int].id@);
            if e.confidence_rank == sorted@[i as int].confidence_rank && crate::order::lex_le(
                sorted@[i as int].id@,
                e.id@,
            ) && !crate::order::lex_lt(sorted@[i as int].id@, e.id@) {
                crate::order::lemma_lex_refl(e.id@);
            }
            assert(lesson_before(*e, sorted@[i as int]));
            assert forall|j: int| i <= j < sorted@.len() implies lesson_before(*e, #[trigger] sorted@[j]) by {
                if j > i {
                    lemma_lesson_before_trans(*e, sorted@[i as int], sorted@[j]);
                }
            }
        }
    }
    i
}

fn lesson_applies_exec(
    l: &DecisionLessonSpec,
    request: &OrchestrationRequest,
    claw_id: &str,
    model_profile_id: &str,
    provider: &str,
    autonomy_level: &str,
    execution_mode: &str,
) -> (r: bool)
    ensures
        r == lesson_applies(
            *l,
            opt_view(request.task_id),
            opt_view(request.category),
            claw_id@,
            model_profile_id@,
            provider@,
            autonomy_level@,
            execution_mode@,
        ),
{
    let sc = &l.scope;
    l.active && scope_matches(crate::text::opt_as_str(&sc.task_id), crate::text::opt_as_str(&request.task_id))
        && scope_matches(crate::text::opt_as_str(&sc.category), crate::text::opt_as_str(&request.category))
        && scope_matches(crate::text::opt_as_str(&sc.claw_id), Some(claw_id)) && scope_matches(
        crate::text::opt_as_str(&sc.model_profile_id),
        Some(model_profile_id),
    ) && scope_matches(crate::text::opt_as_str(&sc.provider), Some(provider)) && scope_matches(
        crate::text::opt_as_str(&sc.autonomy_level),
        Some(autonomy_level),
    ) && scope_matches(crate::text::opt_as_str(&sc.execution_mode), Some(execution_mode))
}

/// The lessons a run is steered by: the active lessons whose scope admits
/// the run, highest confidence first (then by id), at most
/// `max_lesson_hints` of them.
pub fn matching_lessons(
    lessons: Vec<DecisionLessonSpec>,
    request: &OrchestrationRequest,
    claw_id: &str,
    model_profile_id: &str,
    provider: &str,
    autonomy_level: &str,
    execution_mode: &str,
    max_lesson_hints: usize,
) -> (r: Vec<DecisionLessonSpec>)
    ensures
        exists|sorted: Seq<DecisionLessonSpec>|
            sorted.to_multiset() == lessons@.filter(
                applies_to(
                    opt_view(request.task_id),
                    opt_view(request.category),
                    claw_id@,
                    model_profile_id@,
                    provider@,
                    autonomy_level@,
                    execution_mode@,
                ),
            ).to_multiset() && lessons_ordered(sorted) && r@ == sorted.take(
                if sorted.len() < max_lesson_hints { sorted.len() as int } else { max_lesson_hints as int },
            ),
{
    broadcast use vstd::seq_lib::group_to_multiset_ensures;

    let ghost p = applies_to(
        opt_view(request.task_id),
        opt_view(request.category),
        claw_id@,
        model_profile_id@,
        provider@,
        autonomy_level@,
        execution_mode@,
    );
    let ghost original = lessons@;
    let mut rest = lessons;
    let mut sorted: Vec<DecisionLessonSpec> = Vec::new();
    while rest.len() > 0
        invariant
            sorted@.to_multiset().add(rest@.filter(p).to_multiset()) == original.filter(p).to_multiset(),
            lessons_ordered(sorted@),
            p == applies_to(
                opt_view(request.task_id),
                opt_view(request.category),
                claw_id@,
                model_profile_id@,
                provider@,
                autonomy_level@,
                execution_mode@,
            ),
        decreases rest@.len(),
    {
        let ghost before_rest = rest@;
        let ghost before_sorted = sorted@;
        let e = rest.pop().unwrap();
        assert(before_rest =~= rest@.push(e));
        proof {
            rest@.lemma_filter_push(e, p);
        }
        if lesson_applies_exec(&e, request, claw_id, model_profile_id, provider, autonomy_level, execution_mode) {
            let pos = lesson_position(&sorted, &e);
            sorted.insert(pos, e);
            proof {
                broadcast use vstd::multiset::group_multiset_axioms;

                vstd::seq_lib::to_multiset_insert(before_sorted, pos as int, e);
                vstd::seq_lib::to_multiset_build(rest@.filter(p), e);
                assert(sorted@ =~= before_sorted.insert(pos as int, e));
                assert(sorted@.to_multiset().add(rest@.filter(p).to_multiset()) =~= before_sorted.to_multiset().add(
                    before_rest.filter(p).to_multiset(),
                ));
                assert forall|a: int, b: int| 0 <= a < b < sorted@.len() implies lesson_before(
                    #[trigger] sorted@[a],
                    #[trigger] sorted@[b],
                ) by {
                    if a < pos && b < pos {
                        assert(sorted@[a] == before_sorted[a] && sorted@[b] == before_sorted[b]);
                    } else if a < pos && b == pos {
                        assert(sorted@[a] == before_sorted[a]);
                    } else if a < pos && b > pos {
                        assert(sorted@[a] == before_sorted[a] && sorted@[b] == before_sorted[b - 1]);
                    } else if a == pos {
                        assert(sorted@[b] == before_sorted[b - 1]);
                    } else {
                        assert(sorted@[a] == before_sorted[a - 1] && sorted@[b] == before_sorted[b - 1]);
                    }
                }
            }
        }
    }
    proof {
        assert(rest@.filter(p) =~= Seq::<DecisionLessonSpec>::empty()) by {
            reveal(Seq::filter);
        }
        assert(sorted@.to_multiset() =~= original.filter(p).to_multiset()) by {
            broadcast use vstd::multiset::group_multiset_axioms;
        }
    }
    let ghost full = sorted@;
    sorted.truncate(max_lesson_hints);
    assert(sorted@ =~= full.take(if full.len() < max_lesson_hints { full.len() as int } else { max_lesson_hints as int }));
    sorted
}


// ---------------------------------------------------------------------
// The system prompt of a claw

/// How one applied lesson is quoted, with its confidence as text.
pub open spec fn lesson_hint(l: DecisionLessonSpec, confidence: Seq<char>) -> Seq<char> {
    l.signal@ + " => "@ + l.recommendation@ + " (confidence "@ + confidence + ")"@
}

/// The hints of all applied lessons.
pub open spec fn lesson_hints(lessons: Seq<DecisionLessonSpec>, confidences: Seq<Seq<char>>) -> Seq<Seq<char>> {
    Seq::new(lessons.len(), |i: int| lesson_hint(lessons[i], confidences[i]))
}

/// `value` or `-` when unset.
pub open spec fn or_dash(value: Option<Seq<char>>) -> Seq<char> {
    match value {
        Some(v) => v,
        None => "-"@,
    }
}

/// The lines of a claw's system prompt.
pub open spec fn system_prompt_lines(
    claw_id: Seq<char>,
    role: Seq<char>,
    memory_scope: Seq<char>,
    agent_profile_id: Seq<char>,
    output_policy: Seq<char>,
    routing: RoutingDecision,
    workspace: Seq<char>,
    mode: Seq<char>,
    confidences: Seq<Seq<char>>,
) -> Seq<Seq<char>> {
    let a = routing.autonomy;
    let notes = if routing.steering_notes@.len() == 0 {
        "-"@
    } else {
        crate::runtime::joined(crate::text::strs(routing.steering_notes@), " | "@)
    };
    let hints = if routing.applied_lessons@.len() == 0 {
        "Decision lessons: none"@
    } else {
        "Decision lessons: "@ + crate::runtime::joined(lesson_hints(routing.applied_lessons@, confidences), "; "@)
    };
    seq![
        "You are Claw '"@ + claw_id + "' operating in OpenRustClaw."@,
        "Role: "@ + role,
        "Agent profile: "@ + agent_profile_id,
        "Memory scope: "@ + memory_scope,
        "Output policy: "@ + output_policy,
        "Execution mode: "@ + routing.execution_mode@,
        "Isolation mode: "@ + routing.isolation_mode@,
        "Shared context allowed: "@ + crate::text::bool_text(routing.allow_shared_context),
        "Autonomy level: "@ + a.autonomy_level@,
        "Yolo mode: "@ + crate::text::bool_text(a.yolo_mode),
        "Approval policy: "@ + a.approval_policy@,
        "Steering enabled: "@ + crate::text::bool_text(a.steering_enabled),
        "Decision learning enabled: "@ + crate::text::bool_text(a.decision_learning_enabled),
        "Critic enabled: "@ + crate::text::bool_text(a.critic_enabled),
        "Max delegations: "@ + decimal(a.max_delegations as nat),
        "Max iterations: "@ + decimal(a.max_iterations as nat),
        "Max runtime secs: "@ + decimal(a.max_runtime_secs as nat),
        "Workspace: "@ + workspace,
        "Task category: "@ + or_dash(opt_view(routing.category)),
        "Task id: "@ + or_dash(opt_view(routing.task_id)),
        "Run mode: "@ + mode,
        "Steering notes: "@ + notes,
        hints,
        "Stay within your assigned responsibility. Cross-task contamination is disallowed unless shared context is explicitly enabled. Respect the autonomy policy as risk limits, not as a replacement for sound model judgment."@,
    ]
}

fn or_dash_of(value: &Option<String>) -> (r: String)
    ensures
        r@ == or_dash(opt_view(*value)),
{
    match value {
        Some(v) => v.clone(),
        None => owned("-"),
    }
}

fn lesson_hint_lines(lessons: &Vec<DecisionLessonSpec>, confidences: &Vec<String>) -> (r: Vec<String>)
    requires
        confidences@.len() == lessons@.len(),
    ensures
        crate::text::strs(r@) == lesson_hints(lessons@, crate::text::strs(confidences@)),
{
    let mut out: Vec<String> = Vec::new();
    let mut i: usize = 0;
    while i < lessons.len()
        invariant
            i <= lessons@.len(),
            confidences@.len() == lessons@.len(),
            crate::text::strs(out@) == lesson_hints(lessons@, crate::text::strs(confidences@)).take(i as int),
        decreases lessons@.len() - i,
    {
        let l = &lessons[i];
        let a = concat3(l.signal.as_str(), " => ", l.recommendation.as_str());
        let b = concat3(a.as_str(), " (confidence ", confidences[i].as_str());
        let line = concat2(b.as_str(), ")");
        push_owned(&mut out, line);
        assert(lesson_hints(lessons@, crate::text::strs(confidences@)).take(i + 1) =~= lesson_hints(
            lessons@,
            crate::text::strs(confidences@),
        ).take(i as int).push(line@));
        i = i + 1;
    }
    assert(lesson_hints(lessons@, crate::text::strs(confidences@)).take(lessons@.len() as int) =~= lesson_hints(
        lessons@,
        crate::text::strs(confidences@),
    ));
    out
}

fn labelled(label: &str, value: &str) -> (r: String)
    ensures
        r@ == label@ + value@,
{
    concat2(label, value)
}

/// The system prompt a claw runs under: who it is, the route and the
/// autonomy policy of the run, the workspace, the steering notes and the
/// applied lessons, whose confidences are given already rendered with two
/// decimals.
#[verifier::rlimit(40)]
pub fn build_claw_system_prompt(
    claw_id: &str,
    role: &str,
    memory_scope: &str,
    agent_profile_id: &str,
    output_policy: &str,
    routing: &RoutingDecision,
    workspace: &str,
    mode: &str,
    lesson_confidences: &Vec<String>,
) -> (r: String)
    requires
        lesson_confidences@.len() == routing.applied_lessons@.len(),
    ensures
        r@ == crate::runtime::joined(
            system_prompt_lines(
                claw_id@,
                role@,
                memory_scope@,
                agent_profile_id@,
                output_policy@,
                *routing,
                workspace@,
                mode@,
                crate::text::strs(lesson_confidences@),
            ),
            seq!['\n'],
        ),
{
    let a = &routing.autonomy;
    let notes = if routing.steering_notes.len() == 0 {
        owned("-")
    } else {
        crate::runtime::join_strings(&routing.steering_notes, " | ")
    };
    let hints = if routing.applied_lessons.len() == 0 {
        owned("Decision lessons: none")
    } else {
        let lines = lesson_hint_lines(&routing.applied_lessons, lesson_confidences);
        let joined_hints = crate::runtime::join_strings(&lines, "; ");
        concat2("Decision lessons: ", joined_hints.as_str())
    };
    let mut lines: Vec<String> = Vec::new();
    push_owned(&mut lines, concat3("You are Claw '", claw_id, "' operating in OpenRustClaw."));
    push_owned(&mut lines, labelled("Role: ", role));
    push_owned(&mut lines, labelled("Agent profile: ", agent_profile_id));
    push_owned(&mut lines, labelled("Memory scope: ", memory_scope));
    push_owned(&mut lines, labelled("Output policy: ", output_policy));
    push_owned(&mut lines, labelled("Execution mode: ", routing.execution_mode.as_str()));
    push_owned(&mut lines, labelled("Isolation mode: ", routing.isolation_mode.as_str()));
    push_owned(&mut lines, labelled("Shared context allowed: ", crate::text::bool_string(routing.allow_shared_context).as_str()));
    push_owned(&mut lines, labelled("Autonomy level: ", a.autonomy_level.as_str()));
    push_owned(&mut lines, labelled("Yolo mode: ", crate::text::bool_string(a.yolo_mode).as_str()));
    push_owned(&mut lines, labelled("Approval policy: ", a.approval_policy.as_str()));
    push_owned(&mut lines, labelled("Steering enabled: ", crate::text::bool_string(a.steering_enabled).as_str()));
    push_owned(
        &mut lines,
        labelled("Decision learning enabled: ", crate::text::bool_string(a.decision_learning_enabled).as_str()),
    );
    push_owned(&mut lines, labelled("Critic enabled: ", crate::text::bool_string(a.critic_enabled).as_str()));
    push_owned(&mut lines, labelled("Max delegations: ", usize_text(a.max_delegations).as_str()));
    push_owned(&mut lines, labelled("Max iterations: ", usize_text(a.max_iterations).as_str()));
    push_owned(&mut lines, labelled("Max runtime secs: ", u64_text(a.max_runtime_secs).as_str()));
    push_owned(&mut lines, labelled("Workspace: ", workspace));
    push_owned(&mut lines, labelled("Task category: ", or_dash_of(&routing.category).as_str()));
    push_owned(&mut lines, labelled("Task id: ", or_dash_of(&routing.task_id).as_str()));
    push_owned(&mut lines, labelled("Run mode: ", mode));
    push_owned(&mut lines, labelled("Steering notes: ", notes.as_str()));
    push_owned(&mut lines, hints);
    push_owned(
        &mut lines,
        owned("Stay within your assigned responsibility. Cross-task contamination is disallowed unless shared context is explicitly enabled. Respect the autonomy policy as risk limits, not as a replacement for sound model judgment."),
    );
    assert(crate::text::strs(lines@) =~= system_prompt_lines(
        claw_id@,
        role@,
        memory_scope@,
        agent_profile_id@,
        output_policy@,
        *routing,
        workspace@,
        mode@,
        crate::text::strs(lesson_confidences@),
    ));
    let r = crate::runtime::join_strings(&lines, "\n");
    proof {
        reveal_strlit("\n");
        assert("\n"@ =~= seq!['\n']);
    }
    r
}


} // verus!
