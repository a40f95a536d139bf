//! The control-plane records that routing reads: autonomy policies and
//! decision lessons.

use vstd::prelude::*;

verus! {

/// The risk limits a run operates under.
pub struct AutonomyPolicy {
    pub autonomy_level: String,
    pub yolo_mode: bool,
    pub steering_enabled: bool,
    pub decision_learning_enabled: bool,
    pub critic_enabled: bool,
    pub max_delegations: usize,
    pub max_iterations: usize,
    pub max_runtime_secs: u64,
    pub max_lesson_hints: usize,
    pub approval_policy: String,
}

/// Where a lesson applies; a field left `None` matches anything.
pub struct LessonScope {
    pub task_id: Option<String>,
    pub category: Option<String>,
    pub claw_id: Option<String>,
    pub model_profile_id: Option<String>,
    pub provider: Option<String>,
    pub autonomy_level: Option<String>,
    pub execution_mode: Option<String>,
}

/// A lesson learned from earlier decisions. `confidence_rank` orders
/// lessons as their confidence does: a higher rank is a higher confidence.
pub struct DecisionLessonSpec {
    pub id: String,
    pub active: bool,
    pub scope: LessonScope,
    pub signal: String,
    pub recommendation: String,
    pub confidence_rank: u32,
}

} // verus!
