//! Provider probes: which endpoint a health probe or a model discovery
//! calls and with which key, and what the answer means.

use vstd::prelude::*;

use crate::runtime::ProviderHealthProbe;
use crate::services::without_trailing_slashes;
use crate::text::{
    chars_of, concat2, concat3, contains, has_sub, lower_seq, owned, str_eq, string_from_chars, strs,
    to_ascii_lowercase, trim, trim_seq, vec_contains_str,
};

verus! {

/// The settings of the providers that the probes read.
pub struct ProbeSettings {
    pub anthropic_key_env: Option<String>,
    pub anthropic_api_version: String,
    pub openai_key_env: Option<String>,
    pub openrouter_key_env: Option<String>,
    pub gemini_key_env: Option<String>,
    pub gemini_base_url: Option<String>,
    pub ollama_base_url: String,
}

/// Where a probe takes its API key from.
pub enum ProbeKey {
    /// This environment variable.
    EnvVar(String),
    /// This environment variable, else `GOOGLE_API_KEY`.
    EnvVarOrGoogle(String),
}

/// How a probe presents its key.
pub enum ProbeAuth {
    Bearer,
    Header(String),
}

/// The request of a remote health probe.
pub struct RemoteProbeRequest {
    pub url: String,
    pub key: ProbeKey,
    pub auth: ProbeAuth,
    pub extra_headers: Vec<(String, String)>,
}

/// A key source as plain values: the variable, and whether
/// `GOOGLE_API_KEY` stands in for it.
pub open spec fn key_view(k: ProbeKey) -> (Seq<char>, bool) {
    match k {
        ProbeKey::EnvVar(n) => (n@, false),
        ProbeKey::EnvVarOrGoogle(n) => (n@, true),
    }
}

/// The header name a key goes in, or `None` for a bearer token.
pub open spec fn auth_view(a: ProbeAuth) -> Option<Seq<char>> {
    match a {
        ProbeAuth::Bearer => None,
        ProbeAuth::Header(h) => Some(h@),
    }
}

pub open spec fn env_or(configured: Option<String>, default: Seq<char>) -> Seq<char> {
    match configured {
        Some(n) => n@,
        None => default,
    }
}

/// The Gemini API root without its trailing slashes.
pub open spec fn gemini_root(s: ProbeSettings) -> Seq<char> {
    without_trailing_slashes(
        match s.gemini_base_url {
            Some(u) => u@,
            None => "https://generativelanguage.googleapis.com/v1beta"@,
        },
    )
}

/// The request of the health probe of `provider`: the model catalog of the
/// four hosted providers; `None` for others, which are only validated.
pub open spec fn probe_request_spec(provider: Seq<char>, s: ProbeSettings) -> Option<
    (Seq<char>, (Seq<char>, bool), Option<Seq<char>>, Seq<(Seq<char>, Seq<char>)>),
> {
    if provider == "anthropic"@ {
        Some(
            (
                "https://api.anthropic.com/v1/models"@,
                (env_or(s.anthropic_key_env, "ANTHROPIC_API_KEY"@), false),
                None,
                seq![("anthropic-version"@, s.anthropic_api_version@)],
            ),
        )
    } else if provider == "openai"@ {
        Some(
            (
                "https://api.openai.com/v1/models"@,
                (env_or(s.openai_key_env, "OPENAI_API_KEY"@), false),
                None,
                seq![],
            ),
        )
    } else if provider == "openrouter"@ {
        Some(
            (
                "https://openrouter.ai/api/v1/models"@,
                (env_or(s.openrouter_key_env, "OPENROUTER_API_KEY"@), false),
                None,
                seq![],
            ),
        )
    } else if provider == "gemini"@ {
        Some(
            (
                gemini_root(s) + "/models"@,
                (env_or(s.gemini_key_env, "GEMINI_API_KEY"@), true),
                Some("x-goog-api-key"@),
                seq![],
            ),
        )
    } else {
        None
    }
}

pub open spec fn headers_view(v: Seq<(String, String)>) -> Seq<(Seq<char>, Seq<char>)> {
    v.map_values(|h: (String, String)| (h.0@, h.1@))
}

/// `s` without its trailing slashes.
pub fn strip_trailing_slashes(s: &str) -> (r: String)
    ensures
        r@ == without_trailing_slashes(s@),
{
    let v = chars_of(s);
    let mut j: usize = v.len();
    assert(v@.subrange(0, j as int) =~= v@);
    while j > 0 && v[j - 1] == '/'
        invariant
            j <= v@.len(),
            without_trailing_slashes(v@) == without_trailing_slashes(v@.subrange(0, j as int)),
        decreases j,
    {
        assert(v@.subrange(0, j as int).drop_last() =~= v@.subrange(0, j - 1));
        j = j - 1;
    }
    let mut out: Vec<char> = Vec::new();
    let mut k: usize = 0;
    while k < j
        invariant
            k <= j <= v@.len(),
            out@ == v@.subrange(0, k as int),
        decreases j - k,
    {
        out.push(v[k]);
        assert(v@.subrange(0, k + 1) =~= v@.subrange(0, k as int).push(v@[k as int]));
        k = k + 1;
    }
    string_from_chars(&out)
}

fn env_name(configured: &Option<String>, default: &str) -> (r: String)
    ensures
        r@ == env_or(*configured, default@),
{
    match configured {
        Some(n) => n.clone(),
        None => owned(default),
    }
}

/// The request of the health probe of `provider`.
pub fn remote_probe_request(provider: &str, s: &ProbeSettings) -> (r: Option<RemoteProbeRequest>)
    ensures
        match probe_request_spec(provider@, *s) {
            None => r is None,
            Some((url, key, auth, headers)) => (r matches Some(q) && q.url@ == url && key_view(q.key) == key
                && auth_view(q.auth) == auth && headers_view(q.extra_headers@) == headers),
        },
{
    if str_eq(provider, "anthropic") {
        let mut headers: Vec<(String, String)> = Vec::new();
        headers.push((owned("anthropic-version"), s.anthropic_api_version.clone()));
        assert(headers_view(headers@) =~= seq![("anthropic-version"@, s.anthropic_api_version@)]);
        Some(
            RemoteProbeRequest {
                url: owned("https://api.anthropic.com/v1/models"),
                key: ProbeKey::EnvVar(env_name(&s.anthropic_key_env, "ANTHROPIC_API_KEY")),
                auth: ProbeAuth::Bearer,
                extra_headers: headers,
            },
        )
    } else if str_eq(provider, "openai") || str_eq(provider, "openrouter") {
        let (url, key) = if str_eq(provider, "openai") {
            (owned("https://api.openai.com/v1/models"), env_name(&s.openai_key_env, "OPENAI_API_KEY"))
        } else {
            (owned("https://openrouter.ai/api/v1/models"), env_name(&s.openrouter_key_env, "OPENROUTER_API_KEY"))
        };
        let headers: Vec<(String, String)> = Vec::new();
        assert(headers_view(headers@) =~= Seq::<(Seq<char>, Seq<char>)>::empty());
        Some(RemoteProbeRequest { url, key: ProbeKey::EnvVar(key), auth: ProbeAuth::Bearer, extra_headers: headers })
    } else if str_eq(provider, "gemini") {
        let base = match &s.gemini_base_url {
            Some(u) => strip_trailing_slashes(u.as_str()),
            None => strip_trailing_slashes("https://generativelanguage.googleapis.com/v1beta"),
        };
        let headers: Vec<(String, String)> = Vec::new();
        assert(headers_view(headers@) =~= Seq::<(Seq<char>, Seq<char>)>::empty());
        Some(
            RemoteProbeRequest {
                url: concat2(base.as_str(), "/models"),
                key: ProbeKey::EnvVarOrGoogle(env_name(&s.gemini_key_env, "GEMINI_API_KEY")),
                auth: ProbeAuth::Header(owned("x-goog-api-key")),
                extra_headers: headers,
            },
        )
    } else {
        None
    }
}

/// Why a probe found no key: the variable (or variables) it read were unset.
pub fn missing_key_error(key: &ProbeKey) -> (r: String)
    ensures
        r@ == (match key_view(*key) {
            (name, false) => name + " environment variable not set"@,
            (name, true) => name + " or GOOGLE_API_KEY environment variable not set"@,
        }),
{
    match key {
        ProbeKey::EnvVar(n) => concat2(n.as_str(), " environment variable not set"),
        ProbeKey::EnvVarOrGoogle(n) => concat2(n.as_str(), " or GOOGLE_API_KEY environment variable not set"),
    }
}

/// The probe of a provider that answered with an error status, shown as
/// `status` (code and reason), with the body of the answer.
pub fn failed_status_probe(provider: &str, code: u16, status: &str, body: &str, limit_snapshot: Option<String>) -> (r:
    ProviderHealthProbe)
    ensures
        !r.healthy,
        crate::text::opt_string_view(r.issue_kind) == Some(crate::runtime::status_issue(code)),
        crate::text::opt_string_view(r.issue) == Some(
            "Provider `"@ + provider@ + "` health probe returned "@ + status@ + ": "@ + trim_seq(body@),
        ),
        r.model_available is None,
        r.limit_snapshot == limit_snapshot,
{
    let head = concat3("Provider `", provider, "` health probe returned ");
    let mid = concat3(head.as_str(), status, ": ");
    let t = trim(body);
    ProviderHealthProbe {
        healthy: false,
        issue_kind: Some(owned(crate::runtime::classify_provider_status(code))),
        issue: Some(concat2(mid.as_str(), t.as_str())),
        model_available: None,
        limit_snapshot,
    }
}

/// The probe of a provider whose model catalog lists `ids`: healthy when
/// it lists the configured `model`.
pub fn catalog_probe(provider: &str, model: &str, ids: &Vec<String>, limit_snapshot: Option<String>) -> (r:
    ProviderHealthProbe)
    ensures
        r.healthy == strs(ids@).contains(model@),
        r.model_available == Some(strs(ids@).contains(model@)),
        strs(ids@).contains(model@) ==> r.issue_kind is None && r.issue is None,
        !strs(ids@).contains(model@) ==> (crate::text::opt_string_view(r.issue_kind) == Some("model_unavailable"@)
            && crate::text::opt_string_view(r.issue) == Some(
            "Configured model '"@ + model@ + "' is not listed by provider `"@ + provider@ + "`"@,
        )),
        r.limit_snapshot == limit_snapshot,
{
    let available = vec_contains_str(ids, model);
    if available {
        ProviderHealthProbe {
            healthy: true,
            issue_kind: None,
            issue: None,
            model_available: Some(true),
            limit_snapshot,
        }
    } else {
        let head = concat3("Configured model '", model, "' is not listed by provider `");
        ProviderHealthProbe {
            healthy: false,
            issue_kind: Some(owned("model_unavailable")),
            issue: Some(concat3(head.as_str(), provider, "`")),
            model_available: Some(false),
            limit_snapshot,
        }
    }
}

/// The probe of the local Ollama runtime whose catalog lists `names`:
/// healthy when it lists the configured `model`.
pub fn ollama_catalog_probe(model: &str, names: &Vec<String>, limit_snapshot: Option<String>) -> (r:
    ProviderHealthProbe)
    ensures
        r.healthy == strs(names@).contains(model@),
        r.model_available == Some(strs(names@).contains(model@)),
        strs(names@).contains(model@) ==> r.issue_kind is None && r.issue is None,
        !strs(names@).contains(model@) ==> (crate::text::opt_string_view(r.issue_kind) == Some("model_unavailable"@)
            && crate::text::opt_string_view(r.issue) == Some(
            "Configured model '"@ + model@ + "' is not listed by the local Ollama catalog"@,
        )),
        r.limit_snapshot == limit_snapshot,
{
    let available = vec_contains_str(names, model);
    if available {
        ProviderHealthProbe {
            healthy: true,
            issue_kind: None,
            issue: None,
            model_available: Some(true),
            limit_snapshot,
        }
    } else {
        ProviderHealthProbe {
            healthy: false,
            issue_kind: Some(owned("model_unavailable")),
            issue: Some(concat3("Configured model '", model, "' is not listed by the local Ollama catalog")),
            model_available: Some(false),
            limit_snapshot,
        }
    }
}

/// The Ollama catalog endpoint under a base URL.
pub fn ollama_tags_url(base_url: &str) -> (r: String)
    ensures
        r@ == without_trailing_slashes(base_url@) + "/api/tags"@,
{
    let base = strip_trailing_slashes(base_url);
    concat2(base.as_str(), "/api/tags")
}

// ---------------------------------------------------------------------
// Model catalogs

/// One entry of a model catalog: its `id` and its `name`, when they are
/// strings.
pub struct CatalogEntry {
    pub id: Option<String>,
    pub name: Option<String>,
}

/// `s` without every leading `models/`.
pub open spec fn strip_models_prefix(s: Seq<char>) -> Seq<char>
    decreases s.len(),
{
    if s.len() >= 7 && s.take(7) == "models/"@ {
        strip_models_prefix(s.skip(7))
    } else {
        s
    }
}

fn strip_models(s: &str) -> (r: String)
    ensures
        r@ == strip_models_prefix(s@),
{
    let v = chars_of(s);
    let p = chars_of("models/");
    proof {
        reveal_strlit("models/");
    }
    let mut i: usize = 0;
    let n = v.len();
    assert(v@.skip(0) =~= v@);
    while crate::text::vec_occurs_at(&v, &p, i)
        invariant
            i <= v@.len(),
            n == v@.len(),
            p@ == "models/"@,
            p@.len() == 7,
            strip_models_prefix(v@) == strip_models_prefix(v@.skip(i as int)),
        decreases v@.len() - i,
    {
        assert(v@.skip(i as int).take(7) =~= v@.subrange(i as int, i + 7));
        assert(v@.skip(i as int).skip(7) =~= v@.skip(i + 7));
        i = i + 7;
    }
    proof {
        if i + 7 <= v@.len() {
            assert(v@.skip(i as int).take(7) =~= v@.subrange(i as int, i + 7));
        }
    }
    let mut out: Vec<char> = Vec::new();
    let mut k: usize = i;
    while k < v.len()
        invariant
            i <= k <= v@.len(),
            out@ == v@.subrange(i as int, k as int),
        decreases v@.len() - k,
    {
        out.push(v[k]);
        assert(v@.subrange(i as int, k + 1) =~= v@.subrange(i as int, k as int).push(v@[k as int]));
        k = k + 1;
    }
    assert(v@.subrange(i as int, v@.len() as int) =~= v@.skip(i as int));
    string_from_chars(&out)
}

/// The model a catalog entry names for `provider`: the `id` of the hosted
/// OpenAI-style catalogs, the `name` without `models/` for Gemini.
pub open spec fn entry_model(provider: Seq<char>, e: CatalogEntry) -> Option<Seq<char>> {
    if provider == "anthropic"@ || provider == "openai"@ || provider == "openrouter"@ {
        crate::text::opt_string_view(e.id)
    } else if provider == "gemini"@ {
        match e.name {
            Some(n) => Some(strip_models_prefix(n@)),
            None => None,
        }
    } else {
        None
    }
}

/// The models of catalog entries, in order, skipping entries that name none.
pub open spec fn catalog_models(provider: Seq<char>, entries: Seq<CatalogEntry>) -> Seq<Seq<char>>
    decreases entries.len(),
{
    if entries.len() == 0 {
        seq![]
    } else {
        catalog_models(provider, entries.drop_last()) + match entry_model(provider, entries.last()) {
            Some(m) => seq![m],
            None => Seq::<Seq<char>>::empty(),
        }
    }
}

/// The models a health probe reads from a catalog: the entries under
/// `data`, then those under `models`, given in that order.
pub fn extract_provider_model_ids(provider: &str, entries: &Vec<CatalogEntry>) -> (r: Vec<String>)
    ensures
        strs(r@) == catalog_models(provider@, entries@),
{
    let hosted = str_eq(provider, "anthropic") || str_eq(provider, "openai") || str_eq(provider, "openrouter");
    let gemini = str_eq(provider, "gemini");
    let mut out: Vec<String> = Vec::new();
    let mut i: usize = 0;
    while i < entries.len()
        invariant
            i <= entries@.len(),
            hosted == (provider@ == "anthropic"@ || provider@ == "openai"@ || provider@ == "openrouter"@),
            gemini == (provider@ == "gemini"@),
            strs(out@) == catalog_models(provider@, entries@.take(i as int)),
        decreases entries@.len() - i,
    {
        let e = &entries[i];
        assert(entries@.take(i + 1).drop_last() =~= entries@.take(i as int));
        let ghost before = strs(out@);
        let found: Option<String> = if hosted {
            match &e.id {
                Some(id) => Some(id.clone()),
                None => None,
            }
        } else if gemini {
            match &e.name {
                Some(n) => Some(strip_models(n.as_str())),
                None => None,
            }
        } else {
            None
        };
        match found {
            Some(m) => {
                out.push(m);
                assert(strs(out@) =~= before + seq![entry_model(provider@, *e).unwrap()]);
            },
            None => {
                assert(strs(out@) =~= before + Seq::<Seq<char>>::empty());
            },
        }
        i = i + 1;
    }
    assert(entries@.take(entries@.len() as int) =~= entries@);
    out
}


/// The `name`s of catalog entries, in order.
pub open spec fn catalog_names(entries: Seq<CatalogEntry>) -> Seq<Seq<char>>
    decreases entries.len(),
{
    if entries.len() == 0 {
        seq![]
    } else {
        catalog_names(entries.drop_last()) + match entries.last().name {
            Some(n) => seq![n@],
            None => Seq::<Seq<char>>::empty(),
        }
    }
}

fn names_of(entries: &Vec<CatalogEntry>) -> (r: Vec<String>)
    ensures
        strs(r@) == catalog_names(entries@),
{
    let mut out: Vec<String> = Vec::new();
    let mut i: usize = 0;
    while i < entries.len()
        invariant
            i <= entries@.len(),
            strs(out@) == catalog_names(entries@.take(i as int)),
        decreases entries@.len() - i,
    {
        assert(entries@.take(i + 1).drop_last() =~= entries@.take(i as int));
        let ghost before = strs(out@);
        match &entries[i].name {
            Some(n) => {
                out.push(n.clone());
                assert(strs(out@) =~= before + seq![n@]);
            },
            None => {
                assert(strs(out@) =~= before + Seq::<Seq<char>>::empty());
            },
        }
        i = i + 1;
    }
    assert(entries@.take(entries@.len() as int) =~= entries@);
    out
}

/// The models a live discovery finds for `provider` before sorting: the
/// `id`s under `data` for the hosted OpenAI-style providers, the `name`s
/// under `models` for Gemini (without `models/`) and Ollama, the models
/// the Cursor backend reports for it, and none for other providers.
pub open spec fn discovery_candidates(
    provider: Seq<char>,
    data: Seq<CatalogEntry>,
    models: Seq<CatalogEntry>,
    cursor_models: Seq<Seq<char>>,
) -> Seq<Seq<char>> {
    if provider == "anthropic"@ || provider == "openai"@ || provider == "openrouter"@ {
        catalog_models(provider, data)
    } else if provider == "gemini"@ {
        catalog_models(provider, models)
    } else if provider == "ollama"@ {
        catalog_names(models)
    } else if provider == "cursor"@ {
        cursor_models
    } else {
        seq![]
    }
}

/// The models a live discovery offers, sorted, each once.
pub fn discovered_models(
    provider: &str,
    data: &Vec<CatalogEntry>,
    models: &Vec<CatalogEntry>,
    cursor_models: Vec<String>,
) -> (r: Vec<String>)
    ensures
        crate::order::sorted_strict(strs(r@)),
        strs(r@).to_set() == discovery_candidates(provider@, data@, models@, strs(cursor_models@)).to_set(),
{
    let found = if str_eq(provider, "anthropic") || str_eq(provider, "openai") || str_eq(provider, "openrouter") {
        extract_provider_model_ids(provider, data)
    } else if str_eq(provider, "gemini") {
        extract_provider_model_ids(provider, models)
    } else if str_eq(provider, "ollama") {
        names_of(models)
    } else if str_eq(provider, "cursor") {
        cursor_models
    } else {
        Vec::new()
    };
    assert(strs(found@) =~= discovery_candidates(provider@, data@, models@, strs(cursor_models@)));
    crate::order::sort_dedup(found)
}

// ---------------------------------------------------------------------
// Rate-limit headers

/// Whether a lower-cased header name speaks of limits.
pub open spec fn is_limit_header(name: Seq<char>) -> bool {
    has_sub(name, "ratelimit"@) || has_sub(name, "rate-limit"@) || has_sub(name, "quota"@)
}

/// The `name=value` items of the limit headers, in the order given; a
/// header whose value is not text is left out.
pub open spec fn limit_items(headers: Seq<(Seq<char>, Option<Seq<char>>)>) -> Seq<Seq<char>>
    decreases headers.len(),
{
    if headers.len() == 0 {
        seq![]
    } else {
        let (name, value) = headers.last();
        let key = lower_seq(name);
        limit_items(headers.drop_last()) + if is_limit_header(key) && value is Some {
            seq![key + "="@ + value->0]
        } else {
            Seq::<Seq<char>>::empty()
        }
    }
}

pub open spec fn header_pairs(v: Seq<(String, Option<String>)>) -> Seq<(Seq<char>, Option<Seq<char>>)> {
    v.map_values(|h: (String, Option<String>)| (h.0@, crate::text::opt_string_view(h.1)))
}

/// The rate-limit and quota headers of an answer as `name=value` items,
/// sorted and joined with `, `; `None` when there are none. Each header
/// comes with its value when that value is text.
pub fn summarize_limit_headers(headers: &Vec<(String, Option<String>)>) -> (r: Option<String>)
    ensures
        limit_items(header_pairs(headers@)).len() == 0 ==> r is None,
        limit_items(header_pairs(headers@)).len() > 0 ==> exists|sorted: Seq<Seq<char>>|
            crate::order::sorted_le(sorted) && sorted.to_multiset() == limit_items(header_pairs(headers@)).to_multiset()
                && (r matches Some(text) && text@ == crate::runtime::joined(sorted, ", "@)),
{
    let mut items: Vec<String> = Vec::new();
    let mut i: usize = 0;
    while i < headers.len()
        invariant
            i <= headers@.len(),
            strs(items@) == limit_items(header_pairs(headers@.take(i as int))),
        decreases headers@.len() - i,
    {
        assert(header_pairs(headers@.take(i + 1)).drop_last() =~= header_pairs(headers@.take(i as int)));
        let (name, value) = (&headers[i].0, &headers[i].1);
        let key = to_ascii_lowercase(name.as_str());
        let k = key.as_str();
        let ghost before = strs(items@);
        let limit = contains(k, "ratelimit") || contains(k, "rate-limit") || contains(k, "quota");
        match value {
            Some(v) => {
                if limit {
                    items.push(concat3(k, "=", v.as_str()));
                    assert(strs(items@) =~= before + seq![key@ + "="@ + v@]);
                } else {
                    assert(strs(items@) =~= before + Seq::<Seq<char>>::empty());
                }
            },
            None => {
                assert(strs(items@) =~= before + Seq::<Seq<char>>::empty());
            },
        }
        i = i + 1;
    }
    assert(headers@.take(headers@.len() as int) =~= headers@);
    if items.len() == 0 {
        return None;
    }
    let sorted = crate::order::sort_strings(items);
    let text = crate::runtime::join_strings(&sorted, ", ");
    assert(crate::order::sorted_le(strs(sorted@)));
    Some(text)
}

} // verus!
