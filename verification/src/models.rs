//! Model profiles and the fallback walk that picks the profile a run
//! executes on.

use vstd::prelude::*;

use crate::orchestrate::ResolvedModelDecision;
use crate::text::{
    clone_strings, concat2, concat3, opt_string_view, owned, str_eq, strs, to_lowercase, unicode_lowercase,
    vec_contains_str,
};

verus! {

/// A model profile of the control registry: the provider and model it
/// runs on, and the profiles to try, in order, when it cannot run.
pub struct ModelProfileSpec {
    pub id: String,
    pub provider: String,
    pub model: String,
    pub fallback_order: Vec<String>,
}

/// No two profiles share an id (the registry is keyed by it).
pub open spec fn distinct_profile_ids(profiles: Seq<ModelProfileSpec>) -> bool {
    forall|i: int, j: int| 0 <= i < j < profiles.len() ==> profiles[i].id@ != profiles[j].id@
}

/// Whether some profile has the id `id`.
pub open spec fn has_profile(profiles: Seq<ModelProfileSpec>, id: Seq<char>) -> bool {
    exists|i: int| 0 <= i < profiles.len() && profiles[i].id@ == id
}

/// The position of the profile with the id `id`.
pub open spec fn profile_position(profiles: Seq<ModelProfileSpec>, id: Seq<char>) -> int {
    choose|i: int| 0 <= i < profiles.len() && profiles[i].id@ == id
}

/// The ids of all profiles.
pub open spec fn profile_ids(profiles: Seq<ModelProfileSpec>) -> Set<Seq<char>> {
    profiles.map_values(|p: ModelProfileSpec| p.id@).to_set()
}

/// How many profiles the walk has not tried yet.
pub open spec fn untried(profiles: Seq<ModelProfileSpec>, visited: Set<Seq<char>>) -> nat {
    profile_ids(profiles).difference(visited).len()
}

/// The failures of a vector of outcomes, as character sequences.
pub open spec fn failure_views(v: Seq<Option<String>>) -> Seq<Option<Seq<char>>> {
    v.map_values(|o: Option<String>| opt_string_view(o))
}

/// Where a fallback walk ends.
pub enum WalkEnd {
    /// The profile at this position runs; the profiles tried, and the
    /// warnings of those that could not run.
    Selected(int, Seq<Seq<char>>, Seq<Seq<char>>),
    /// A profile of this id was asked for and does not exist.
    Unknown(Seq<char>),
    /// No profile could run; the warnings of all that were tried.
    Exhausted(Seq<Seq<char>>),
}

pub proof fn lemma_untried_shrinks(profiles: Seq<ModelProfileSpec>, visited: Set<Seq<char>>, id: Seq<char>)
    requires
        has_profile(profiles, id),
        !visited.contains(id),
    ensures
        untried(profiles, visited.insert(id)) < untried(profiles, visited),
{
    let ids = profile_ids(profiles);
    let i = choose|i: int| 0 <= i < profiles.len() && profiles[i].id@ == id;
    assert(profiles.map_values(|p: ModelProfileSpec| p.id@)[i] == id);
    vstd::seq_lib::seq_to_set_is_finite(profiles.map_values(|p: ModelProfileSpec| p.id@));
    assert(ids.contains(id));
    let d = ids.difference(visited);
    assert(d.finite());
    assert(d.contains(id));
    assert(ids.difference(visited.insert(id)) =~= d.remove(id));
    vstd::set::axiom_set_remove_len(d, id);
}

/// The walk over the profiles, breadth first: the head of `queue` is taken;
/// one tried already is passed over; an unknown id ends the walk; a profile
/// that runs (no entry in `failures`) ends it selected; one that fails is
/// noted with its error and its fallbacks join the end of the queue.
pub open spec fn fallback_walk(
    profiles: Seq<ModelProfileSpec>,
    failures: Seq<Option<Seq<char>>>,
    queue: Seq<Seq<char>>,
    visited: Set<Seq<char>>,
    attempted: Seq<Seq<char>>,
    warnings: Seq<Seq<char>>,
) -> WalkEnd
    decreases untried(profiles, visited), queue.len(),
{
    if queue.len() == 0 {
        WalkEnd::Exhausted(warnings)
    } else {
        let id = queue[0];
        if visited.contains(id) {
            fallback_walk(profiles, failures, queue.drop_first(), visited, attempted, warnings)
        } else if !has_profile(profiles, id) {
            WalkEnd::Unknown(id)
        } else {
            let i = profile_position(profiles, id);
            let p = profiles[i];
            match failures[i] {
                None => WalkEnd::Selected(i, attempted.push(p.id@), warnings),
                Some(e) => {
                    proof {
                        lemma_untried_shrinks(profiles, visited, id);
                    }
                    fallback_walk(
                        profiles,
                        failures,
                        queue.drop_first() + strs(p.fallback_order@),
                        visited.insert(id),
                        attempted.push(p.id@),
                        warnings.push(p.id@ + ": "@ + e),
                    )
                },
            }
        }
    }
}

proof fn lemma_walk_tries_each_once(
    profiles: Seq<ModelProfileSpec>,
    failures: Seq<Option<Seq<char>>>,
    queue: Seq<Seq<char>>,
    visited: Set<Seq<char>>,
    attempted: Seq<Seq<char>>,
    warnings: Seq<Seq<char>>,
)
    requires
        !crate::runtime::has_duplicates(attempted),
        attempted.to_set() == visited,
    ensures
        fallback_walk(profiles, failures, queue, visited, attempted, warnings) matches WalkEnd::Selected(i, tried, _)
            ==> !crate::runtime::has_duplicates(tried) && tried.len() > 0 && tried.last() == profiles[i].id@,
    decreases untried(profiles, visited), queue.len(),
{
    if queue.len() > 0 {
        let id = queue[0];
        if visited.contains(id) {
            lemma_walk_tries_each_once(profiles, failures, queue.drop_first(), visited, attempted, warnings);
        } else if has_profile(profiles, id) {
            let i = profile_position(profiles, id);
            let p = profiles[i];
            let next = attempted.push(p.id@);
            assert(!attempted.contains(id)) by {
                if attempted.contains(id) {
                    assert(attempted.to_set().contains(id));
                }
            }
            assert(!crate::runtime::has_duplicates(next)) by {
                if crate::runtime::has_duplicates(next) {
                    let (a, b) = choose|a: int, b: int| 0 <= a < b < next.len() && next[a] == next[b];
                    if b == attempted.len() {
                        assert(attempted[a] == id);
                        assert(attempted.contains(id));
                    } else {
                        assert(next[a] == attempted[a] && next[b] == attempted[b]);
                    }
                }
            }
            if failures[i] is Some {
                lemma_untried_shrinks(profiles, visited, id);
                assert(next.to_set() =~= visited.insert(id)) by {
                    broadcast use vstd::seq_lib::group_seq_properties;
                }
                let e = failures[i]->0;
                lemma_walk_tries_each_once(
                    profiles,
                    failures,
                    queue.drop_first() + strs(p.fallback_order@),
                    visited.insert(id),
                    next,
                    warnings.push(p.id@ + ": "@ + e),
                );
            }
        }
    }
}

/// The fallback walk tries each profile at most once, and the profile it
/// selects is the last one it tried.
pub proof fn law_fallback_tries_each_profile_once(
    profiles: Seq<ModelProfileSpec>,
    failures: Seq<Option<Seq<char>>>,
    requested: Seq<char>,
)
    ensures
        fallback_walk(profiles, failures, seq![requested], Set::empty(), seq![], seq![]) matches WalkEnd::Selected(
            i,
            tried,
            _,
        ) ==> !crate::runtime::has_duplicates(tried) && tried.len() > 0 && tried.last() == profiles[i].id@,
{
    assert(Seq::<Seq<char>>::empty().to_set() =~= Set::<Seq<char>>::empty());
    lemma_walk_tries_each_once(profiles, failures, seq![requested], Set::empty(), seq![], seq![]);
}

/// The position of the profile with the id `id`, if any.
fn find_profile(profiles: &Vec<ModelProfileSpec>, id: &str) -> (r: Option<usize>)
    ensures
        r matches Some(i) ==> i < profiles@.len() && profiles@[i as int].id@ == id@,
        r is None ==> !has_profile(profiles@, id@),
{
    let mut i: usize = 0;
    while i < profiles.len()
        invariant
            i <= profiles@.len(),
            forall|k: int| 0 <= k < i ==> profiles@[k].id@ != id@,
        decreases profiles@.len() - i,
    {
        if str_eq(profiles[i].id.as_str(), id) {
            return Some(i);
        }
        i = i + 1;
    }
    None
}

/// The message of a walk that found no profile to run.
pub open spec fn exhausted_message(requested: Seq<char>, warnings: Seq<Seq<char>>) -> Seq<char> {
    "Failed to resolve executable model profile '"@ + requested + "': "@ + crate::runtime::joined(warnings, "; "@)
}

/// Resolves the profile a run executes on, starting from `requested` and
/// walking fallbacks breadth first. `failures` holds, for each profile,
/// why its provider cannot be set up here (`None` when it can).
pub fn resolve_model_with_fallback(
    requested: &str,
    profiles: &Vec<ModelProfileSpec>,
    failures: &Vec<Option<String>>,
) -> (r: Result<ResolvedModelDecision, String>)
    requires
        failures@.len() == profiles@.len(),
        distinct_profile_ids(profiles@),
    ensures
        match fallback_walk(profiles@, failure_views(failures@), seq![requested@], Set::empty(), seq![], seq![]) {
            WalkEnd::Selected(i, attempted, warnings) => r matches Ok(d) && {
                let p = profiles@[i];
                &&& d.requested_profile_id@ == requested@
                &&& d.selected_profile_id@ == p.id@
                &&& d.provider@ == p.provider@
                &&& d.model@ == p.model@
                &&& strs(d.fallback_path@) == attempted
                &&& strs(d.warnings@) == warnings
            },
            WalkEnd::Unknown(id) => r matches Err(e) && e@ == "Unknown model profile '"@ + id + "'"@,
            WalkEnd::Exhausted(warnings) => r matches Err(e) && e@ == exhausted_message(requested@, warnings),
        },
{
    let ghost fv = failure_views(failures@);
    let ghost start = fallback_walk(profiles@, fv, seq![requested@], Set::empty(), seq![], seq![]);
    let mut queue: Vec<String> = Vec::new();
    queue.push(owned(requested));
    let mut head: usize = 0;
    let mut visited: Vec<String> = Vec::new();
    let mut attempted: Vec<String> = Vec::new();
    let mut warnings: Vec<String> = Vec::new();
    assert(strs(queue@).skip(0) =~= seq![requested@]);
    assert(strs(visited@).to_set() =~= Set::<Seq<char>>::empty());
    assert(strs(attempted@) =~= Seq::<Seq<char>>::empty());
    assert(strs(warnings@) =~= Seq::<Seq<char>>::empty());
    while head < queue.len()
        invariant
            head <= queue@.len(),
            failures@.len() == profiles@.len(),
            distinct_profile_ids(profiles@),
            fv == failure_views(failures@),
            start == fallback_walk(profiles@, fv, seq![requested@], Set::empty(), seq![], seq![]),
            start == fallback_walk(
                profiles@,
                fv,
                strs(queue@).skip(head as int),
                strs(visited@).to_set(),
                strs(attempted@),
                strs(warnings@),
            ),
        decreases untried(profiles@, strs(visited@).to_set()), queue@.len() - head,
    {
        let id = queue[head].clone();
        let ghost q = strs(queue@).skip(head as int);
        let ghost vs = strs(visited@).to_set();
        let ghost at = strs(attempted@);
        let ghost ws = strs(warnings@);
        assert(q[0] == id@);
        assert(q.drop_first() =~= strs(queue@).skip(head + 1));
        head = head + 1;
        if vec_contains_str(&visited, id.as_str()) {
            assert(strs(visited@).to_set().contains(id@));
            continue;
        }
        assert(!strs(visited@).to_set().contains(id@));
        match find_profile(profiles, id.as_str()) {
            None => {
                assert(fallback_walk(profiles@, fv, q, vs, at, ws) == WalkEnd::Unknown(id@));
                return Err(concat3("Unknown model profile '", id.as_str(), "'"));
            },
            Some(i) => {
                let ghost pos = profile_position(profiles@, id@);
                assert(pos == i as int);
                let p = &profiles[i];
                let ghost before_attempted = strs(attempted@);
                attempted.push(p.id.clone());
                assert(strs(attempted@) =~= before_attempted.push(p.id@));
                match &failures[i] {
                    None => {
                        assert(fv[i as int] is None);
                        assert(fallback_walk(profiles@, fv, q, vs, at, ws) == WalkEnd::Selected(
                            i as int,
                            at.push(p.id@),
                            ws,
                        ));
                        return Ok(
                            ResolvedModelDecision {
                                requested_profile_id: owned(requested),
                                selected_profile_id: p.id.clone(),
                                provider: p.provider.clone(),
                                model: p.model.clone(),
                                fallback_path: attempted,
                                warnings,
                            },
                        );
                    },
                    Some(e) => {
                        assert(fv[i as int] == Some(e@));
                        let ghost before_warnings = strs(warnings@);
                        warnings.push(concat3(p.id.as_str(), ": ", e.as_str()));
                        assert(strs(warnings@) =~= before_warnings.push(p.id@ + ": "@ + e@));
                        proof {
                            lemma_untried_shrinks(profiles@, strs(visited@).to_set(), id@);
                        }
                        let ghost before_visited = strs(visited@);
                        visited.push(id);
                        assert(strs(visited@) =~= before_visited.push(id@));
                        assert(strs(visited@).to_set() =~= before_visited.to_set().insert(id@)) by {
                            broadcast use vstd::seq_lib::group_seq_properties;
                        }
                        let ghost before_queue = queue@;
                        let mut more = clone_strings(&p.fallback_order);
                        queue.append(&mut more);
                        assert(strs(queue@).skip(head as int) =~= strs(before_queue).skip(head as int) + strs(
                            p.fallback_order@,
                        ));
                    },
                }
            },
        }
    }
    assert(strs(queue@).skip(head as int) =~= Seq::<Seq<char>>::empty());
    let joined = crate::runtime::join_strings(&warnings, "; ");
    let msg = concat3("Failed to resolve executable model profile '", requested, "': ");
    Err(crate::text::concat2(msg.as_str(), joined.as_str()))
}

// ---------------------------------------------------------------------
// Setting up the provider of a profile

/// Where the provider of a profile takes its API key from.
pub enum ProviderKeySource {
    /// This environment variable.
    EnvVar(String),
    /// `GEMINI_API_KEY`, else `GOOGLE_API_KEY`.
    GeminiOrGoogle,
    /// A local runtime that needs no key.
    NoKey,
    /// No provider of this (lower-cased) name is known.
    Unsupported(String),
}

/// A key source as values.
pub enum KeySourceView {
    EnvVar(Seq<char>),
    GeminiOrGoogle,
    NoKey,
    Unsupported(Seq<char>),
}

impl View for ProviderKeySource {
    type V = KeySourceView;

    open spec fn view(&self) -> KeySourceView {
        match self {
            ProviderKeySource::EnvVar(name) => KeySourceView::EnvVar(name@),
            ProviderKeySource::GeminiOrGoogle => KeySourceView::GeminiOrGoogle,
            ProviderKeySource::NoKey => KeySourceView::NoKey,
            ProviderKeySource::Unsupported(name) => KeySourceView::Unsupported(name@),
        }
    }
}

/// The key source of a provider named `provider_lower` (already lower
/// case); the `*_key_env` overrides come from the providers' settings.
pub open spec fn key_source_spec(
    provider_lower: Seq<char>,
    anthropic_key_env: Option<Seq<char>>,
    openai_key_env: Option<Seq<char>>,
    openrouter_key_env: Option<Seq<char>>,
) -> KeySourceView {
    if provider_lower == "anthropic"@ {
        KeySourceView::EnvVar(env_name_or(anthropic_key_env, "ANTHROPIC_API_KEY"@))
    } else if provider_lower == "openai"@ {
        KeySourceView::EnvVar(env_name_or(openai_key_env, "OPENAI_API_KEY"@))
    } else if provider_lower == "openrouter"@ {
        KeySourceView::EnvVar(env_name_or(openrouter_key_env, "OPENROUTER_API_KEY"@))
    } else if provider_lower == "ollama"@ {
        KeySourceView::NoKey
    } else if provider_lower == "gemini"@ || provider_lower == "google"@ {
        KeySourceView::GeminiOrGoogle
    } else {
        KeySourceView::Unsupported(provider_lower)
    }
}

/// A configured variable name, or the default one.
pub open spec fn env_name_or(configured: Option<Seq<char>>, default: Seq<char>) -> Seq<char> {
    match configured {
        Some(name) => name,
        None => default,
    }
}

fn name_or(configured: Option<&str>, default: &str) -> (r: String)
    ensures
        r@ == env_name_or(crate::text::opt_str_view(configured), default@),
{
    match configured {
        Some(name) => owned(name),
        None => owned(default),
    }
}

/// Where the provider named `provider` takes its key from; the name is
/// compared in lower case.
pub fn provider_key_source(
    provider: &str,
    anthropic_key_env: Option<&str>,
    openai_key_env: Option<&str>,
    openrouter_key_env: Option<&str>,
) -> (r: ProviderKeySource)
    ensures
        r@ == key_source_spec(
            unicode_lowercase(provider@),
            crate::text::opt_str_view(anthropic_key_env),
            crate::text::opt_str_view(openai_key_env),
            crate::text::opt_str_view(openrouter_key_env),
        ),
{
    let lowered = to_lowercase(provider);
    let p = lowered.as_str();
    if str_eq(p, "anthropic") {
        ProviderKeySource::EnvVar(name_or(anthropic_key_env, "ANTHROPIC_API_KEY"))
    } else if str_eq(p, "openai") {
        ProviderKeySource::EnvVar(name_or(openai_key_env, "OPENAI_API_KEY"))
    } else if str_eq(p, "openrouter") {
        ProviderKeySource::EnvVar(name_or(openrouter_key_env, "OPENROUTER_API_KEY"))
    } else if str_eq(p, "ollama") {
        ProviderKeySource::NoKey
    } else if str_eq(p, "gemini") || str_eq(p, "google") {
        ProviderKeySource::GeminiOrGoogle
    } else {
        ProviderKeySource::Unsupported(lowered)
    }
}

/// Why a provider cannot be set up, given whether its key was found.
pub open spec fn setup_error_spec(source: KeySourceView, key_present: bool) -> Option<Seq<char>> {
    match source {
        KeySourceView::EnvVar(name) => if key_present {
            None
        } else {
            Some(name + " environment variable not set"@)
        },
        KeySourceView::GeminiOrGoogle => if key_present {
            None
        } else {
            Some("GEMINI_API_KEY or GOOGLE_API_KEY environment variable not set"@)
        },
        KeySourceView::NoKey => None,
        KeySourceView::Unsupported(name) => Some("unsupported provider '"@ + name + "'"@),
    }
}

/// Why the provider cannot be set up (`None` when it can): a missing key,
/// or an unknown provider. `key_present` says whether the key source
/// held a value.
pub fn provider_setup_error(source: &ProviderKeySource, key_present: bool) -> (r: Option<String>)
    ensures
        opt_string_view(r) == setup_error_spec(source@, key_present),
{
    match source {
        ProviderKeySource::EnvVar(name) => if key_present {
            None
        } else {
            Some(concat2(name.as_str(), " environment variable not set"))
        },
        ProviderKeySource::GeminiOrGoogle => if key_present {
            None
        } else {
            Some(owned("GEMINI_API_KEY or GOOGLE_API_KEY environment variable not set"))
        },
        ProviderKeySource::NoKey => None,
        ProviderKeySource::Unsupported(name) => Some(concat3("unsupported provider '", name.as_str(), "'")),
    }
}

/// How OpenRouter picks among the models that serve a request.
#[derive(PartialEq, Eq, Structural, Clone, Copy, Debug)]
pub enum RouteStrategy {
    Quality,
    Price,
    Throughput,
    WebSearch,
}

/// The route strategy named `name`: `price`, `throughput`, `web_search`
/// or `online`; anything else is `Quality`.
pub open spec fn route_strategy_spec(name: Seq<char>) -> RouteStrategy {
    if name == "price"@ {
        RouteStrategy::Price
    } else if name == "throughput"@ {
        RouteStrategy::Throughput
    } else if name == "web_search"@ || name == "online"@ {
        RouteStrategy::WebSearch
    } else {
        RouteStrategy::Quality
    }
}

/// The route strategy named in the settings.
pub fn openrouter_route_strategy(name: &str) -> (r: RouteStrategy)
    ensures
        r == route_strategy_spec(name@),
{
    if str_eq(name, "price") {
        RouteStrategy::Price
    } else if str_eq(name, "throughput") {
        RouteStrategy::Throughput
    } else if str_eq(name, "web_search") || str_eq(name, "online") {
        RouteStrategy::WebSearch
    } else {
        RouteStrategy::Quality
    }
}

} // verus!
