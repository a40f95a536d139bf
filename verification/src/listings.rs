//! Listings of orchestration runs and their logs: which runs an operator
//! sees, in which order, and the entries of a run's logs.

use vstd::prelude::*;

use crate::orchestrate::{validate_receipt_id, ActiveOrchestrationRun, OrchestrationRunSummary};
use crate::text::{owned, trim_seq};

verus! {

// ---------------------------------------------------------------------
// Listings

impl crate::order::Stamped for ActiveOrchestrationRun {
    open spec fn stamp(&self) -> Seq<char> {
        self.updated_at@
    }

    fn stamp_str(&self) -> (r: &str) {
        self.updated_at.as_str()
    }
}

impl crate::order::Stamped for OrchestrationRunSummary {
    open spec fn stamp(&self) -> Seq<char> {
        self.created_at@
    }

    fn stamp_str(&self) -> (r: &str) {
        self.created_at.as_str()
    }
}

/// The statuses of runs that have ended.
pub open spec fn run_ended(status: Seq<char>) -> bool {
    status == "completed"@ || status == "failed"@ || status == "killed"@ || status == "rolled_back"@
}

/// The number of items a listing of `limit` shows out of `n`.
pub open spec fn listed_count(n: nat, limit: nat) -> nat {
    if n < limit {
        n
    } else {
        limit
    }
}

/// The active-run listing: the runs, without the ended ones when
/// `active_only`, most recently updated first, cut to `limit`.
pub fn select_active_runs(runs: Vec<ActiveOrchestrationRun>, active_only: bool, limit: usize) -> (r: Vec<
    ActiveOrchestrationRun,
>)
    ensures
        exists|sorted: Seq<ActiveOrchestrationRun>|
            sorted.to_multiset() == runs@.filter(|a: ActiveOrchestrationRun| !(active_only && run_ended(a.status@))).to_multiset()
                && crate::order::newest_first_by(sorted) && crate::order::equal_stamps_keep_order(
                sorted,
                runs@.filter(|a: ActiveOrchestrationRun| !(active_only && run_ended(a.status@))),
            ) && r@ == sorted.take(
                listed_count(sorted.len(), limit as nat) as int,
            ),
{
    let ghost keep = |a: ActiveOrchestrationRun| !(active_only && run_ended(a.status@));
    let ghost original = runs@;
    let mut kept: Vec<ActiveOrchestrationRun> = Vec::new();
    let mut rest = runs;
    let mut taken: usize = 0;
    let ghost n = original.len();
    while rest.len() > 0
        invariant
            rest@ =~= original.skip(original.len() - rest@.len()),
            rest@.len() <= original.len(),
            kept@ == original.take(original.len() - rest@.len()).filter(keep),
            keep == (|a: ActiveOrchestrationRun| !(active_only && run_ended(a.status@))),
        decreases rest@.len(),
    {
        let ghost done = original.len() - rest@.len();
        let a = rest.remove(0);
        assert(a == original[done]);
        assert(original.take(done + 1) =~= original.take(done).push(a));
        let s = a.status.as_str();
        let ended = crate::text::str_eq(s, "completed") || crate::text::str_eq(s, "failed")
            || crate::text::str_eq(s, "killed") || crate::text::str_eq(s, "rolled_back");
        proof {
            original.take(done).lemma_filter_push(a, keep);
        }
        if !(active_only && ended) {
            kept.push(a);
        }
        assert(rest@ =~= original.skip(original.len() - rest@.len()));
    }
    assert(original.take(original.len() as int) =~= original);
    let mut sorted = crate::order::sort_newest_first(kept);
    let ghost full = sorted@;
    sorted.truncate(limit);
    assert(sorted@ =~= full.take(listed_count(full.len(), limit as nat) as int));
    sorted
}

/// How many of the workers' statuses are `status`.
pub open spec fn status_count(statuses: Seq<Seq<char>>, status: Seq<char>) -> nat
    decreases statuses.len(),
{
    if statuses.len() == 0 {
        0
    } else {
        status_count(statuses.drop_last(), status) + (if statuses.last() == status { 1nat } else { 0nat })
    }
}

fn count_status(statuses: &Vec<String>, status: &str) -> (r: usize)
    ensures
        r == status_count(crate::text::strs(statuses@), status@),
{
    let mut n: usize = 0;
    let mut i: usize = 0;
    while i < statuses.len()
        invariant
            i <= statuses@.len(),
            n == status_count(crate::text::strs(statuses@.take(i as int)), status@),
            n <= i,
        decreases statuses@.len() - i,
    {
        assert(crate::text::strs(statuses@.take(i + 1)).drop_last() =~= crate::text::strs(statuses@.take(i as int)));
        if crate::text::str_eq(statuses[i].as_str(), status) {
            n = n + 1;
        }
        i = i + 1;
    }
    assert(statuses@.take(statuses@.len() as int) =~= statuses@);
    n
}

/// What a receipt holds that its listing line shows.
pub struct RunReceiptFacts {
    pub run_id: String,
    pub created_at: String,
    pub mode: String,
    pub route_source: String,
    pub approval_policy: String,
    pub final_claw_id: String,
    pub final_provider: String,
    pub final_model: String,
    pub worker_statuses: Vec<String>,
    pub escalation_recommended: Option<bool>,
    pub lifecycle_state: String,
    pub decision_count: usize,
    pub receipt_path: String,
}

/// The listing line of the receipt stored as `receipt_id`: its workers
/// counted in all, failed and waiting for input; no escalation unless
/// its supervision recommends one.
pub fn run_summary(receipt_id: String, facts: RunReceiptFacts) -> (r: OrchestrationRunSummary)
    ensures
        r.receipt_id == receipt_id,
        r.run_id == facts.run_id,
        r.created_at == facts.created_at,
        r.mode == facts.mode,
        r.route_source == facts.route_source,
        r.approval_policy == facts.approval_policy,
        r.final_claw_id == facts.final_claw_id,
        r.final_provider == facts.final_provider,
        r.final_model == facts.final_model,
        r.worker_count == facts.worker_statuses@.len(),
        r.failed_count == status_count(crate::text::strs(facts.worker_statuses@), "failed"@),
        r.needs_input_count == status_count(crate::text::strs(facts.worker_statuses@), "needs_input"@),
        r.escalation_recommended == (facts.escalation_recommended == Some(true)),
        r.lifecycle_state == facts.lifecycle_state,
        r.decision_count == facts.decision_count,
        r.receipt_path == facts.receipt_path,
{
    let failed_count = count_status(&facts.worker_statuses, "failed");
    let needs_input_count = count_status(&facts.worker_statuses, "needs_input");
    let escalation_recommended = match facts.escalation_recommended {
        Some(b) => b,
        None => false,
    };
    OrchestrationRunSummary {
        receipt_id,
        run_id: facts.run_id,
        created_at: facts.created_at,
        mode: facts.mode,
        route_source: facts.route_source,
        approval_policy: facts.approval_policy,
        final_claw_id: facts.final_claw_id,
        final_provider: facts.final_provider,
        final_model: facts.final_model,
        worker_count: facts.worker_statuses.len(),
        failed_count,
        needs_input_count,
        escalation_recommended,
        lifecycle_state: facts.lifecycle_state,
        decision_count: facts.decision_count,
        receipt_path: facts.receipt_path,
    }
}

/// The receipt listing: newest first, cut to `limit`.
pub fn newest_run_summaries(runs: Vec<OrchestrationRunSummary>, limit: usize) -> (r: Vec<OrchestrationRunSummary>)
    ensures
        exists|sorted: Seq<OrchestrationRunSummary>|
            sorted.to_multiset() == runs@.to_multiset() && crate::order::newest_first_by(sorted)
                && crate::order::equal_stamps_keep_order(sorted, runs@) && r@ == sorted.take(
                listed_count(sorted.len(), limit as nat) as int,
            ),
{
    let mut sorted = crate::order::sort_newest_first(runs);
    let ghost full = sorted@;
    sorted.truncate(limit);
    assert(sorted@ =~= full.take(listed_count(full.len(), limit as nat) as int));
    sorted
}

/// The last `limit` entries of a log (all of them when it is shorter).
pub fn last_entries<T>(v: Vec<T>, limit: usize) -> (r: Vec<T>)
    ensures
        r@ == v@.skip(v@.len() - listed_count(v@.len(), limit as nat)),
{
    let mut v = v;
    if v.len() > limit {
        let ghost whole = v@;
        let cut = v.len() - limit;
        let tail = v.split_off(cut);
        assert(tail@ =~= whole.skip(whole.len() - limit));
        tail
    } else {
        assert(v@.skip(0) =~= v@);
        v
    }
}

/// An active run id names a file directly under the active-run
/// directory: it holds no path separator.
pub fn validate_active_run_id(run_id: &str) -> (r: Result<(), String>)
    ensures
        r is Ok <==> (!run_id@.contains('/') && !run_id@.contains('\\')),
        r matches Err(e) ==> e@ == "invalid active run id"@,
{
    match validate_receipt_id(run_id) {
        Ok(()) => Ok(()),
        Err(_) => Err(owned("invalid active run id")),
    }
}

/// The entries of a log of one JSON document per line: its lines, the
/// blank ones left out.
pub open spec fn log_entries(lines: Seq<Seq<char>>) -> Seq<Seq<char>>
    decreases lines.len(),
{
    if lines.len() == 0 {
        seq![]
    } else {
        log_entries(lines.drop_last()) + if trim_seq(lines.last()).len() == 0 {
            Seq::<Seq<char>>::empty()
        } else {
            seq![lines.last()]
        }
    }
}

/// The entries of an event or decision log.
pub fn log_entry_lines(content: &str) -> (r: Vec<String>)
    ensures
        crate::text::strs(r@) == log_entries(crate::env_file::std_lines(content@)),
{
    let lines = crate::env_file::lines_of(content);
    let ghost ls = crate::text::strs(lines@);
    let mut out: Vec<String> = Vec::new();
    let mut i: usize = 0;
    while i < lines.len()
        invariant
            i <= lines@.len(),
            ls == crate::text::strs(lines@),
            crate::text::strs(out@) == log_entries(ls.take(i as int)),
        decreases lines@.len() - i,
    {
        assert(ls.take(i + 1).drop_last() =~= ls.take(i as int));
        assert(ls.take(i + 1).last() == lines@[i as int]@);
        let ghost before = crate::text::strs(out@);
        if !crate::text::is_blank(lines[i].as_str()) {
            out.push(lines[i].clone());
            assert(crate::text::strs(out@) =~= before + seq![lines@[i as int]@]);
        } else {
            assert(crate::text::strs(out@) =~= before + Seq::<Seq<char>>::empty());
        }
        i = i + 1;
    }
    assert(ls.take(ls.len() as int) =~= ls);
    out
}

} // verus!
