//! Scheduled-task manifests: where a task keeps its notes.

use vstd::prelude::*;

use crate::paths::{join, join_path};
use crate::text::{concat2, concat3, opt_str_view, opt_string_view, owned, str_eq, strs, vec_contains_str};

verus! {

/// The parent of a path as `std::path::Path::parent` gives it: the path
/// without its final component, `None` for a root or an empty path.
pub uninterp spec fn std_path_parent(path: Seq<char>) -> Option<Seq<char>>;

/// The stem of a path's file name as `std::path::Path::file_stem` gives it:
/// the name before its final `.` (the whole name when it has none or only
/// a leading one), `None` without a file name.
pub uninterp spec fn std_path_file_stem(path: Seq<char>) -> Option<Seq<char>>;

/// `Path::parent` of a UTF-8 path.
#[verifier::external_body]
fn path_parent(path: &str) -> (r: Option<String>)
    ensures
        opt_string_view(r) == std_path_parent(path@),
{
    match std::path::Path::new(path).parent() {
        Some(p) => Some(p.to_string_lossy().into_owned()),
        None => None,
    }
}

/// `Path::file_stem` of a UTF-8 path.
#[verifier::external_body]
fn path_file_stem(path: &str) -> (r: Option<String>)
    ensures
        opt_string_view(r) == std_path_file_stem(path@),
{
    match std::path::Path::new(path).file_stem() {
        Some(s) => Some(s.to_string_lossy().into_owned()),
        None => None,
    }
}

/// Where the notes of the task whose manifest is at `manifest`, with the
/// given parent directory and file stem, are kept.
pub open spec fn notes_path(parent: Option<Seq<char>>, stem: Option<Seq<char>>) -> Seq<char> {
    let dir = match parent {
        Some(p) => p,
        None => "."@,
    };
    let name = match stem {
        Some(s) => s,
        None => "task"@,
    };
    join_path(join_path(join_path(dir, "_artifacts"@), name), "notes.md"@)
}

/// The notes file of the task whose manifest is at `manifest_path`: under
/// `_artifacts/<stem>/` beside the manifest.
pub fn notes_path_for_manifest_path(manifest_path: &str) -> (r: String)
    ensures
        r@ == notes_path(std_path_parent(manifest_path@), std_path_file_stem(manifest_path@)),
{
    let stem = match path_file_stem(manifest_path) {
        Some(s) => s,
        None => owned("task"),
    };
    let parent = match path_parent(manifest_path) {
        Some(p) => p,
        None => owned("."),
    };
    let artifacts = join(parent.as_str(), "_artifacts");
    let dir = join(artifacts.as_str(), stem.as_str());
    join(dir.as_str(), "notes.md")
}

// ---------------------------------------------------------------------
// Triggers

/// What starts a task.
pub enum TaskTrigger {
    Interval { every_seconds: u64 },
    Absolute { at: String },
    Event { event_name: String },
    Dependency { depends_on: Vec<String> },
}

/// A field of a stored trigger configuration: absent, present with the
/// expected kind of value, or present with another kind.
pub enum StoredField<T> {
    Absent,
    Value(T),
    OtherKind,
}

/// The fields of a stored trigger configuration that exports read.
pub struct StoredTriggerConfig {
    pub interval_secs: StoredField<u64>,
    pub interval_seconds: StoredField<u64>,
    pub run_at: StoredField<String>,
    pub event_name: StoredField<String>,
    /// The strings of `depends_on` when it is an array.
    pub depends_on: Option<Vec<String>>,
}

/// A trigger as plain values.
pub enum TriggerView {
    Interval(u64),
    Absolute(Seq<char>),
    Event(Seq<char>),
    Dependency(Seq<Seq<char>>),
}

impl View for TaskTrigger {
    type V = TriggerView;

    open spec fn view(&self) -> TriggerView {
        match self {
            TaskTrigger::Interval { every_seconds } => TriggerView::Interval(*every_seconds),
            TaskTrigger::Absolute { at } => TriggerView::Absolute(at@),
            TaskTrigger::Event { event_name } => TriggerView::Event(event_name@),
            TaskTrigger::Dependency { depends_on } => TriggerView::Dependency(strs(depends_on@)),
        }
    }
}

pub open spec fn text_or_empty(f: StoredField<String>) -> Seq<char> {
    match f {
        StoredField::Value(s) => s@,
        _ => seq![],
    }
}

/// The interval of a stored trigger: `interval_secs`, or when that key is
/// absent `interval_seconds`; an hour when neither holds a number.
pub open spec fn stored_interval(c: StoredTriggerConfig) -> u64 {
    let chosen = match c.interval_secs {
        StoredField::Absent => c.interval_seconds,
        other => other,
    };
    match chosen {
        StoredField::Value(n) => n,
        _ => 3600,
    }
}

/// The trigger a stored job exports: by its `trigger_type`, with the
/// configuration's fields; an unknown type is refused.
pub open spec fn stored_trigger_spec(trigger_type: Seq<char>, c: StoredTriggerConfig) -> Result<TriggerView, Seq<char>> {
    if trigger_type == "interval"@ {
        Ok(TriggerView::Interval(stored_interval(c)))
    } else if trigger_type == "absolute"@ {
        Ok(TriggerView::Absolute(text_or_empty(c.run_at)))
    } else if trigger_type == "event"@ {
        Ok(TriggerView::Event(text_or_empty(c.event_name)))
    } else if trigger_type == "dependency"@ {
        Ok(
            TriggerView::Dependency(
                match c.depends_on {
                    Some(v) => strs(v@),
                    None => seq![],
                },
            ),
        )
    } else {
        Err("Unsupported trigger_type for export: "@ + trigger_type)
    }
}

fn text_field(f: StoredField<String>) -> (r: String)
    ensures
        r@ == text_or_empty(f),
{
    match f {
        StoredField::Value(s) => s,
        _ => String::new(),
    }
}

/// The trigger of a stored job, for export.
pub fn trigger_from_stored(trigger_type: &str, c: StoredTriggerConfig) -> (r: Result<TaskTrigger, String>)
    ensures
        match stored_trigger_spec(trigger_type@, c) {
            Ok(t) => r matches Ok(x) && x@ == t,
            Err(e) => r matches Err(m) && m@ == e,
        },
{
    let ghost c0 = c;
    if str_eq(trigger_type, "interval") {
        let chosen = match c.interval_secs {
            StoredField::Absent => c.interval_seconds,
            other => other,
        };
        let every_seconds = match chosen {
            StoredField::Value(n) => n,
            _ => 3600,
        };
        Ok(TaskTrigger::Interval { every_seconds })
    } else if str_eq(trigger_type, "absolute") {
        Ok(TaskTrigger::Absolute { at: text_field(c.run_at) })
    } else if str_eq(trigger_type, "event") {
        Ok(TaskTrigger::Event { event_name: text_field(c.event_name) })
    } else if str_eq(trigger_type, "dependency") {
        let depends_on = match c.depends_on {
            Some(v) => v,
            None => {
                let v: Vec<String> = Vec::new();
                assert(strs(v@) =~= Seq::<Seq<char>>::empty());
                v
            },
        };
        Ok(TaskTrigger::Dependency { depends_on })
    } else {
        Err(concat2("Unsupported trigger_type for export: ", trigger_type))
    }
}

// ---------------------------------------------------------------------
// Syncing manifests

/// What syncing a manifest does: nothing when the stored hash matches,
/// an update when an older one is stored, a creation otherwise.
pub fn manifest_sync_action(existing_hash: Option<&str>, hash: &str) -> (r: &'static str)
    ensures
        opt_str_view(existing_hash) == Some(hash@) ==> r@ == "unchanged"@,
        existing_hash is Some && opt_str_view(existing_hash) != Some(hash@) ==> r@ == "updated"@,
        existing_hash is None ==> r@ == "created"@,
{
    match existing_hash {
        Some(h) => if str_eq(h, hash) {
            "unchanged"
        } else {
            "updated"
        },
        None => "created",
    }
}

/// How many syncs created, updated, or left a job unchanged; any action
/// other than a creation or an update counts as unchanged.
pub open spec fn sync_tally(actions: Seq<Seq<char>>) -> (nat, nat, nat)
    decreases actions.len(),
{
    if actions.len() == 0 {
        (0, 0, 0)
    } else {
        let (c, u, n) = sync_tally(actions.drop_last());
        if actions.last() == "created"@ {
            (c + 1, u, n)
        } else if actions.last() == "updated"@ {
            (c, u + 1, n)
        } else {
            (c, u, n + 1)
        }
    }
}

/// The tally of a sync's actions.
pub fn tally_sync_actions(actions: &Vec<String>) -> (r: (usize, usize, usize))
    ensures
        (r.0 as nat, r.1 as nat, r.2 as nat) == sync_tally(strs(actions@)),
{
    let mut created: usize = 0;
    let mut updated: usize = 0;
    let mut unchanged: usize = 0;
    let mut i: usize = 0;
    while i < actions.len()
        invariant
            i <= actions@.len(),
            (created as nat, updated as nat, unchanged as nat) == sync_tally(strs(actions@.take(i as int))),
            created + updated + unchanged == i,
        decreases actions@.len() - i,
    {
        assert(strs(actions@.take(i + 1)).drop_last() =~= strs(actions@.take(i as int)));
        assert(strs(actions@.take(i + 1)).last() == actions@[i as int]@);
        let a = actions[i].as_str();
        if str_eq(a, "created") {
            created = created + 1;
        } else if str_eq(a, "updated") {
            updated = updated + 1;
        } else {
            unchanged = unchanged + 1;
        }
        i = i + 1;
    }
    assert(actions@.take(actions@.len() as int) =~= actions@);
    (created, updated, unchanged)
}

/// The jobs of stored manifests that a sync no longer saw, in order.
pub open spec fn missing_jobs(rows: Seq<(Seq<char>, Seq<char>)>, seen: Seq<Seq<char>>) -> Seq<Seq<char>>
    decreases rows.len(),
{
    if rows.len() == 0 {
        seq![]
    } else {
        missing_jobs(rows.drop_last(), seen) + if seen.contains(rows.last().1) {
            Seq::<Seq<char>>::empty()
        } else {
            seq![rows.last().0]
        }
    }
}

pub open spec fn rows_view(rows: Seq<(String, String)>) -> Seq<(Seq<char>, Seq<char>)> {
    rows.map_values(|r: (String, String)| (r.0@, r.1@))
}

/// The jobs whose manifests (`(job_id, manifest_path)` rows under the
/// synced root) were not among the `seen` paths: a sync pauses them.
pub fn missing_manifest_jobs(rows: &Vec<(String, String)>, seen: &Vec<String>) -> (r: Vec<String>)
    ensures
        strs(r@) == missing_jobs(rows_view(rows@), strs(seen@)),
{
    let mut out: Vec<String> = Vec::new();
    let mut i: usize = 0;
    while i < rows.len()
        invariant
            i <= rows@.len(),
            strs(out@) == missing_jobs(rows_view(rows@.take(i as int)), strs(seen@)),
        decreases rows@.len() - i,
    {
        assert(rows_view(rows@.take(i + 1)).drop_last() =~= rows_view(rows@.take(i as int)));
        let ghost before = strs(out@);
        if !vec_contains_str(seen, rows[i].1.as_str()) {
            out.push(rows[i].0.clone());
            assert(strs(out@) =~= before + seq![rows@[i as int].0@]);
        } else {
            assert(strs(out@) =~= before + Seq::<Seq<char>>::empty());
        }
        i = i + 1;
    }
    assert(rows@.take(rows@.len() as int) =~= rows@);
    out
}

// ---------------------------------------------------------------------
// Job fields

/// The name, workflow and description of a job created from the command
/// line: name and workflow are required when no manifest file is given;
/// the description defaults to one naming the workflow.
pub fn inline_job_fields(name: Option<&str>, workflow: Option<&str>, description: Option<&str>) -> (r: Result<
    (String, String, String),
    String,
>)
    ensures
        name is None ==> (r matches Err(e) && e@ == "--name is required when --file is not used"@),
        name is Some && workflow is None ==> (r matches Err(e) && e@
            == "--workflow is required when --file is not used"@),
        name matches Some(n) ==> (workflow matches Some(w) ==> (r matches Ok(f) && f.0@ == n@ && f.1@ == w@
            && f.2@ == match description {
            Some(d) => d@,
            None => "Auto-created job for workflow "@ + w@,
        })),
{
    let n = match name {
        Some(n) => n,
        None => {
            return Err(owned("--name is required when --file is not used"));
        },
    };
    let w = match workflow {
        Some(w) => w,
        None => {
            return Err(owned("--workflow is required when --file is not used"));
        },
    };
    let d = match description {
        Some(d) => owned(d),
        None => concat2("Auto-created job for workflow ", w),
    };
    Ok((owned(n), owned(w), d))
}

/// The stored fields of a job synced from a manifest: its description
/// (one naming the workflow by default), its state (active when enabled,
/// else paused) and its retry budget (3 by default).
pub fn manifest_job_fields(
    description: Option<&str>,
    workflow: &str,
    enabled: bool,
    max_retries: Option<u32>,
) -> (r: (String, &'static str, i64))
    ensures
        r.0@ == match description {
            Some(d) => d@,
            None => "Task manifest for workflow "@ + workflow@,
        },
        r.1@ == (if enabled { "active"@ } else { "paused"@ }),
        r.2 == match max_retries {
            Some(n) => n as i64,
            None => 3,
        },
{
    let d = match description {
        Some(d) => owned(d),
        None => concat2("Task manifest for workflow ", workflow),
    };
    let state = if enabled {
        "active"
    } else {
        "paused"
    };
    let retries: i64 = match max_retries {
        Some(n) => n as i64,
        None => 3,
    };
    (d, state, retries)
}

/// How the next run of a job is shown: its time, or that an event starts it.
pub fn next_run_text(next_run: Option<&str>) -> (r: String)
    ensures
        r@ == match next_run {
            Some(t) => t@,
            None => "Event-triggered"@,
        },
{
    match next_run {
        Some(t) => owned(t),
        None => owned("Event-triggered"),
    }
}

} // verus!
