//! The security audit: what it reports of API keys, skill signatures, the
//! sandbox, origin validation and authentication, and its counts.

use vstd::prelude::*;

use crate::config_migration::{setting, setting_of, ConfigDocument, ConfigValue, ValueView};
use crate::text::{clone_strings, concat2, concat3, decimal, owned, strs, trim_seq, usize_text};

verus! {

/// How a line of the audit is marked.
#[derive(PartialEq, Eq, Structural, Clone, Copy, Debug)]
pub enum AuditMark {
    Pass,
    Warn,
    Fail,
    Info,
    Plain,
}

/// One line of the audit.
pub struct AuditLine {
    pub mark: AuditMark,
    pub text: String,
}

/// A skill installed from outside, as the audit reads it.
pub struct AuditSkill {
    pub name: String,
    pub source: String,
    pub verified: i64,
}

/// What the audit found, section by section, with its counts.
pub struct SecurityAuditReport {
    pub api_keys: Vec<AuditLine>,
    pub skills: Vec<AuditLine>,
    pub sandbox: Vec<AuditLine>,
    pub origins: Vec<AuditLine>,
    pub authentication: Vec<AuditLine>,
    pub issues_found: usize,
    pub warnings: usize,
    pub summary: Vec<AuditLine>,
    pub severity_is_error: bool,
    pub details: String,
}

/// A line as a mark and its text.
pub type LineView = (AuditMark, Seq<char>);

pub open spec fn lines_view(v: Seq<AuditLine>) -> Seq<LineView> {
    v.map_values(|l: AuditLine| (l.mark, l.text@))
}

/// The providers whose keys the audit looks at, by display name.
pub open spec fn audit_provider_names() -> Seq<Seq<char>> {
    seq!["Anthropic"@, "OpenAI"@, "OpenRouter"@]
}

/// The environment variables of those keys, in the same order.
pub open spec fn audit_key_vars() -> Seq<Seq<char>> {
    seq!["ANTHROPIC_API_KEY"@, "OPENAI_API_KEY"@, "OPENROUTER_API_KEY"@]
}

/// The environment variables the audit reads API keys from, each with the
/// display name of its provider.
pub fn audit_api_key_vars() -> (r: Vec<(String, String)>)
    ensures
        r@.len() == 3,
        forall|i: int| 0 <= i < 3 ==> r@[i].0@ == audit_key_vars()[i] && r@[i].1@ == audit_provider_names()[i],
{
    let mut v: Vec<(String, String)> = Vec::new();
    v.push((owned("ANTHROPIC_API_KEY"), owned("Anthropic")));
    v.push((owned("OPENAI_API_KEY"), owned("OpenAI")));
    v.push((owned("OPENROUTER_API_KEY"), owned("OpenRouter")));
    v
}

/// The line of one key: absent, shorter than 20 bytes, or configured.
pub open spec fn key_line(name: Seq<char>, length: Option<usize>) -> LineView {
    match length {
        None => (AuditMark::Info, name + ": Not configured"@),
        Some(n) => if n < 20 {
            (AuditMark::Warn, name + ": Key seems too short ("@ + decimal(n as nat) + " chars)"@)
        } else {
            (AuditMark::Pass, name + ": Configured"@)
        },
    }
}

/// The line of one installed skill.
pub open spec fn skill_line(s: AuditSkill) -> LineView {
    if s.verified == 1 {
        (AuditMark::Pass, s.name@ + " ("@ + s.source@ + "): Verified"@)
    } else {
        (AuditMark::Fail, s.name@ + " ("@ + s.source@ + "): Not verified"@)
    }
}

/// The skill lines: none when the skill store could not be opened.
pub open spec fn skill_lines(skills: Option<Seq<AuditSkill>>) -> Seq<LineView> {
    match skills {
        None => seq![],
        Some(s) => if s.len() == 0 {
            seq![(AuditMark::Pass, "No external skills installed"@)]
        } else {
            s.map_values(|k: AuditSkill| skill_line(k))
        },
    }
}

/// The sandbox lines; the sandbox itself is always a warning.
pub open spec fn sandbox_lines(verifying_key: Option<Seq<char>>) -> Seq<LineView> {
    seq![
        (AuditMark::Warn, "WASM sandbox: Planned, executor not yet implemented"@),
        (AuditMark::Info, "Capability model: Defined in skill metadata"@),
        match verifying_key {
            Some(k) if trim_seq(k).len() > 0 => (AuditMark::Pass, "Skill verifying key configured"@),
            _ => (AuditMark::Warn, "Skill verifying key not configured"@),
        },
    ]
}

/// The origin lines, listing the allowed origins when validation is on.
pub open spec fn origin_lines(origin_validation: bool, allowed: Seq<Seq<char>>) -> Seq<LineView> {
    if origin_validation {
        seq![(AuditMark::Pass, "Origin validation enabled"@), (AuditMark::Plain, "Allowed origins:"@)]
            + allowed.map_values(|o: Seq<char>| (AuditMark::Plain, "  - "@ + o))
    } else {
        seq![(AuditMark::Warn, "Origin validation disabled"@)]
    }
}

/// The authentication line.
pub open spec fn auth_lines(require_auth: bool) -> Seq<LineView> {
    if require_auth {
        seq![(AuditMark::Pass, "Authentication required"@)]
    } else {
        seq![(AuditMark::Warn, "Authentication disabled"@)]
    }
}

/// How many lines carry `mark`.
pub open spec fn count_mark(v: Seq<LineView>, mark: AuditMark) -> nat
    decreases v.len(),
{
    if v.len() == 0 {
        0
    } else {
        count_mark(v.drop_last(), mark) + (if v.last().0 == mark { 1nat } else { 0nat })
    }
}

/// The closing lines of the audit.
pub open spec fn summary_lines(issues: nat, warnings: nat) -> Seq<LineView> {
    if issues == 0 && warnings == 0 {
        seq![(AuditMark::Pass, "All security checks passed!"@)]
    } else {
        (if issues > 0 {
            seq![(AuditMark::Fail, decimal(issues) + " issue(s) found"@)]
        } else {
            Seq::<LineView>::empty()
        }) + (if warnings > 0 {
            seq![(AuditMark::Warn, decimal(warnings) + " warning(s)"@)]
        } else {
            Seq::<LineView>::empty()
        })
    }
}

proof fn lemma_count_mark_push(v: Seq<LineView>, l: LineView, mark: AuditMark)
    ensures
        count_mark(v.push(l), mark) == count_mark(v, mark) + (if l.0 == mark { 1nat } else { 0nat }),
{
    assert(v.push(l).drop_last() =~= v);
}

proof fn lemma_count_mark_concat(a: Seq<LineView>, b: Seq<LineView>, mark: AuditMark)
    ensures
        count_mark(a + b, mark) == count_mark(a, mark) + count_mark(b, mark),
    decreases b.len(),
{
    if b.len() == 0 {
        assert(a + b =~= a);
    } else {
        lemma_count_mark_concat(a, b.drop_last(), mark);
        assert((a + b).drop_last() =~= a + b.drop_last());
    }
}

/// Appends a line and counts it when it carries `mark`.
fn push_line(v: &mut Vec<AuditLine>, mark: AuditMark, text: String)
    ensures
        lines_view(final(v)@) == lines_view(old(v)@).push((mark, text@)),
{
    let ghost before = old(v)@;
    v.push(AuditLine { mark, text });
    assert(lines_view(v@) =~= lines_view(before).push((mark, text@)));
}

/// Counts the lines of `v` that carry `mark`.
fn count_lines(v: &Vec<AuditLine>, mark: AuditMark) -> (r: usize)
    ensures
        r == count_mark(lines_view(v@), mark),
{
    let ghost lv = lines_view(v@);
    let mut n: usize = 0;
    let mut k: usize = 0;
    while k < v.len()
        invariant
            k <= v@.len(),
            lv == lines_view(v@),
            n == count_mark(lv.take(k as int), mark),
            n <= k,
        decreases v@.len() - k,
    {
        proof {
            lemma_count_mark_push(lv.take(k as int), lv[k as int], mark);
            assert(lv.take(k as int).push(lv[k as int]) =~= lv.take(k + 1));
        }
        if v[k].mark == mark {
            n = n + 1;
        }
        k = k + 1;
    }
    assert(lv.take(v@.len() as int) =~= lv);
    n
}

fn key_lines_of(key_lengths: &Vec<Option<usize>>) -> (r: Vec<AuditLine>)
    requires
        key_lengths@.len() == 3,
    ensures
        lines_view(r@) == Seq::new(3, |i: int| key_line(audit_provider_names()[i], key_lengths@[i])),
{
    let names = audit_api_key_vars();
    let mut out: Vec<AuditLine> = Vec::new();
    let mut i: usize = 0;
    while i < 3
        invariant
            i <= 3,
            key_lengths@.len() == 3,
            names@.len() == 3,
            forall|j: int| 0 <= j < 3 ==> names@[j].1@ == audit_provider_names()[j],
            lines_view(out@) == Seq::new(i as nat, |j: int| key_line(audit_provider_names()[j], key_lengths@[j])),
        decreases 3 - i,
    {
        let name = names[i].1.as_str();
        match key_lengths[i] {
            None => push_line(&mut out, AuditMark::Info, concat2(name, ": Not configured")),
            Some(n) => {
                if n < 20 {
                    let count = usize_text(n);
                    let head = concat3(name, ": Key seems too short (", count.as_str());
                    push_line(&mut out, AuditMark::Warn, concat2(head.as_str(), " chars)"));
                } else {
                    push_line(&mut out, AuditMark::Pass, concat2(name, ": Configured"));
                }
            },
        }
        assert(lines_view(out@) =~= Seq::new(
            (i + 1) as nat,
            |j: int| key_line(audit_provider_names()[j], key_lengths@[j]),
        ));
        i = i + 1;
    }
    out
}

fn skill_lines_of(skills: &Option<Vec<AuditSkill>>) -> (r: Vec<AuditLine>)
    ensures
        lines_view(r@) == skill_lines(
            match skills {
                Some(s) => Some(s@),
                None => None,
            },
        ),
{
    let mut out: Vec<AuditLine> = Vec::new();
    match skills {
        None => {
            assert(lines_view(out@) =~= Seq::<LineView>::empty());
        },
        Some(s) => {
            if s.len() == 0 {
                push_line(&mut out, AuditMark::Pass, owned("No external skills installed"));
                assert(lines_view(out@) =~= seq![(AuditMark::Pass, "No external skills installed"@)]);
            } else {
                let mut i: usize = 0;
                while i < s.len()
                    invariant
                        i <= s@.len(),
                        lines_view(out@) == s@.take(i as int).map_values(|k: AuditSkill| skill_line(k)),
                    decreases s@.len() - i,
                {
                    let k = &s[i];
                    let head = concat3(k.name.as_str(), " (", k.source.as_str());
                    if k.verified == 1 {
                        push_line(&mut out, AuditMark::Pass, concat2(head.as_str(), "): Verified"));
                    } else {
                        push_line(&mut out, AuditMark::Fail, concat2(head.as_str(), "): Not verified"));
                    }
                    assert(s@.take(i + 1).map_values(|k: AuditSkill| skill_line(k)) =~= s@.take(
                        i as int,
                    ).map_values(|k: AuditSkill| skill_line(k)).push(skill_line(s@[i as int])));
                    i = i + 1;
                }
                assert(s@.take(s@.len() as int) =~= s@);
            }
        },
    }
    out
}

fn sandbox_lines_of(verifying_key: &Option<String>) -> (r: Vec<AuditLine>)
    ensures
        lines_view(r@) == sandbox_lines(crate::text::opt_string_view(*verifying_key)),
{
    let mut out: Vec<AuditLine> = Vec::new();
    push_line(&mut out, AuditMark::Warn, owned("WASM sandbox: Planned, executor not yet implemented"));
    push_line(&mut out, AuditMark::Info, owned("Capability model: Defined in skill metadata"));
    let configured = match verifying_key {
        Some(k) => !crate::text::is_blank(k.as_str()),
        None => false,
    };
    if configured {
        push_line(&mut out, AuditMark::Pass, owned("Skill verifying key configured"));
    } else {
        push_line(&mut out, AuditMark::Warn, owned("Skill verifying key not configured"));
    }
    assert(lines_view(out@) =~= sandbox_lines(crate::text::opt_string_view(*verifying_key)));
    out
}

fn origin_lines_of(origin_validation: bool, allowed: &Vec<String>) -> (r: Vec<AuditLine>)
    ensures
        lines_view(r@) == origin_lines(origin_validation, strs(allowed@)),
{
    let mut out: Vec<AuditLine> = Vec::new();
    if origin_validation {
        push_line(&mut out, AuditMark::Pass, owned("Origin validation enabled"));
        push_line(&mut out, AuditMark::Plain, owned("Allowed origins:"));
        let ghost head = lines_view(out@);
        let mut i: usize = 0;
        while i < allowed.len()
            invariant
                i <= allowed@.len(),
                lines_view(out@) == head + strs(allowed@).take(i as int).map_values(
                    |o: Seq<char>| (AuditMark::Plain, "  - "@ + o),
                ),
            decreases allowed@.len() - i,
        {
            push_line(&mut out, AuditMark::Plain, concat2("  - ", allowed[i].as_str()));
            assert(strs(allowed@).take(i + 1).map_values(|o: Seq<char>| (AuditMark::Plain, "  - "@ + o)) =~= strs(
                allowed@,
            ).take(i as int).map_values(|o: Seq<char>| (AuditMark::Plain, "  - "@ + o)).push(
                (AuditMark::Plain, "  - "@ + allowed@[i as int]@),
            ));
            i = i + 1;
        }
        assert(strs(allowed@).take(allowed@.len() as int) =~= strs(allowed@));
    } else {
        push_line(&mut out, AuditMark::Warn, owned("Origin validation disabled"));
    }
    out
}

fn summary_lines_of(issues: usize, warnings: usize) -> (r: Vec<AuditLine>)
    ensures
        lines_view(r@) == summary_lines(issues as nat, warnings as nat),
{
    let mut out: Vec<AuditLine> = Vec::new();
    if issues == 0 && warnings == 0 {
        push_line(&mut out, AuditMark::Pass, owned("All security checks passed!"));
    } else {
        if issues > 0 {
            push_line(&mut out, AuditMark::Fail, concat2(usize_text(issues).as_str(), " issue(s) found"));
        }
        if warnings > 0 {
            push_line(&mut out, AuditMark::Warn, concat2(usize_text(warnings).as_str(), " warning(s)"));
        }
    }
    assert(lines_view(out@) =~= summary_lines(issues as nat, warnings as nat));
    out
}

/// All lines of the checks, in the order the audit prints them.
pub open spec fn check_lines(r: SecurityAuditReport) -> Seq<LineView> {
    lines_view(r.api_keys@) + lines_view(r.skills@) + lines_view(r.sandbox@) + lines_view(r.origins@)
        + lines_view(r.authentication@)
}

/// Runs the audit over what was read: the byte length of each key of
/// `audit_api_key_vars` (`None` when unset), the installed outside skills
/// (`None` when the skill store could not be opened), the skill verifying
/// key, origin validation with its allowed origins, and whether
/// authentication is required. Every issue is a failed line and every
/// warning a warned line.
pub fn security_audit(
    key_lengths: &Vec<Option<usize>>,
    skills: &Option<Vec<AuditSkill>>,
    verifying_key: &Option<String>,
    origin_validation: bool,
    allowed_origins: &Vec<String>,
    require_auth: bool,
) -> (r: SecurityAuditReport)
    requires
        key_lengths@.len() == 3,
    ensures
        lines_view(r.api_keys@) == Seq::new(3, |i: int| key_line(audit_provider_names()[i], key_lengths@[i])),
        lines_view(r.skills@) == skill_lines(
            match skills {
                Some(s) => Some(s@),
                None => None,
            },
        ),
        lines_view(r.sandbox@) == sandbox_lines(crate::text::opt_string_view(*verifying_key)),
        lines_view(r.origins@) == origin_lines(origin_validation, strs(allowed_origins@)),
        lines_view(r.authentication@) == auth_lines(require_auth),
        r.issues_found == count_mark(check_lines(r), AuditMark::Fail),
        r.warnings == count_mark(check_lines(r), AuditMark::Warn),
        lines_view(r.summary@) == summary_lines(r.issues_found as nat, r.warnings as nat),
        r.severity_is_error == (r.issues_found > 0),
        r.details@ == "Found "@ + decimal(r.issues_found as nat) + " issues, "@ + decimal(r.warnings as nat)
            + " warnings"@,
{
    let api_keys = key_lines_of(key_lengths);
    let skill_section = skill_lines_of(skills);
    let sandbox = sandbox_lines_of(verifying_key);
    let origins = origin_lines_of(origin_validation, allowed_origins);
    let mut authentication: Vec<AuditLine> = Vec::new();
    if require_auth {
        push_line(&mut authentication, AuditMark::Pass, owned("Authentication required"));
    } else {
        push_line(&mut authentication, AuditMark::Warn, owned("Authentication disabled"));
    }
    assert(lines_view(authentication@) =~= auth_lines(require_auth));
    let ghost a = lines_view(api_keys@);
    let ghost b = lines_view(skill_section@);
    let ghost c = lines_view(sandbox@);
    let ghost d = lines_view(origins@);
    let ghost e = lines_view(authentication@);
    proof {
        lemma_count_mark_concat(a, b, AuditMark::Fail);
        lemma_count_mark_concat(a + b, c, AuditMark::Fail);
        lemma_count_mark_concat(a + b + c, d, AuditMark::Fail);
        lemma_count_mark_concat(a + b + c + d, e, AuditMark::Fail);
        lemma_count_mark_concat(a, b, AuditMark::Warn);
        lemma_count_mark_concat(a + b, c, AuditMark::Warn);
        lemma_count_mark_concat(a + b + c, d, AuditMark::Warn);
        lemma_count_mark_concat(a + b + c + d, e, AuditMark::Warn);
        // Only skills fail; skills never warn.
        lemma_count_absent(a, AuditMark::Fail);
        lemma_count_absent(c, AuditMark::Fail);
        lemma_count_absent(d, AuditMark::Fail);
        lemma_count_absent(e, AuditMark::Fail);
        lemma_count_absent(b, AuditMark::Warn);
        lemma_count_le_len(a, AuditMark::Warn);
        lemma_count_le_len(c, AuditMark::Warn);
        lemma_count_le_len(e, AuditMark::Warn);
        if origin_validation {
            lemma_count_absent(d, AuditMark::Warn);
        } else {
            lemma_count_le_len(d, AuditMark::Warn);
        }
    }
    let issues_found = count_lines(&skill_section, AuditMark::Fail);
    let w1 = count_lines(&api_keys, AuditMark::Warn);
    let w3 = count_lines(&sandbox, AuditMark::Warn);
    let w4 = count_lines(&origins, AuditMark::Warn);
    let w5 = count_lines(&authentication, AuditMark::Warn);
    let warnings = w1 + w3 + w4 + w5;
    let summary = summary_lines_of(issues_found, warnings);
    let head = concat3("Found ", usize_text(issues_found).as_str(), " issues, ");
    let details = concat3(head.as_str(), usize_text(warnings).as_str(), " warnings");
    SecurityAuditReport {
        api_keys,
        skills: skill_section,
        sandbox,
        origins,
        authentication,
        issues_found,
        warnings,
        summary,
        severity_is_error: issues_found > 0,
        details,
    }
}

proof fn lemma_count_absent(v: Seq<LineView>, mark: AuditMark)
    requires
        forall|i: int| 0 <= i < v.len() ==> v[i].0 != mark,
    ensures
        count_mark(v, mark) == 0,
    decreases v.len(),
{
    if v.len() > 0 {
        lemma_count_absent(v.drop_last(), mark);
    }
}

proof fn lemma_count_le_len(v: Seq<LineView>, mark: AuditMark)
    ensures
        count_mark(v, mark) <= v.len(),
    decreases v.len(),
{
    if v.len() > 0 {
        lemma_count_le_len(v.drop_last(), mark);
    }
}

/// The audit always warns at least once, for the sandbox, so it never
/// closes with "All security checks passed!".
pub proof fn law_audit_always_warns(r: SecurityAuditReport, verifying_key: Option<Seq<char>>)
    requires
        lines_view(r.sandbox@) == sandbox_lines(verifying_key),
    ensures
        count_mark(check_lines(r), AuditMark::Warn) >= 1,
{
    let a = lines_view(r.api_keys@) + lines_view(r.skills@);
    let c = lines_view(r.sandbox@);
    let rest = lines_view(r.origins@) + lines_view(r.authentication@);
    lemma_count_mark_concat(a, c, AuditMark::Warn);
    lemma_count_mark_concat(a + c, lines_view(r.origins@), AuditMark::Warn);
    lemma_count_mark_concat(a + c + lines_view(r.origins@), lines_view(r.authentication@), AuditMark::Warn);
    assert(c.take(1) =~= seq![c[0]]);
    lemma_count_mark_concat(c.take(1), c.skip(1), AuditMark::Warn);
    assert(c.take(1) + c.skip(1) =~= c);
    assert(seq![c[0]].drop_last() =~= Seq::<LineView>::empty());
}

/// The settings of the runtime configuration that the audit reads.
pub struct AuditSettings {
    pub require_auth: bool,
    pub origin_validation: bool,
    pub skill_verifying_key: Option<String>,
    pub allowed_origins: Vec<String>,
}

/// A boolean setting, or its default where the document holds no boolean.
pub open spec fn bool_setting(v: Option<ValueView>, default: bool) -> bool {
    match v {
        Some(ValueView::Boolean(b)) => b,
        _ => default,
    }
}

/// A string setting, where the document holds one.
pub open spec fn text_setting(v: Option<ValueView>) -> Option<Seq<char>> {
    match v {
        Some(ValueView::Text(s)) => Some(s),
        _ => None,
    }
}

/// A list of strings, or none where the document holds no such list.
pub open spec fn list_setting(v: Option<ValueView>) -> Seq<Seq<char>> {
    match v {
        Some(ValueView::TextList(l)) => l,
        _ => Seq::empty(),
    }
}

/// The audit's settings from a configuration document: authentication and
/// origin validation are required unless the `security` section turns them
/// off, the skill verifying key is `security.skill_verifying_key`, and the
/// allowed origins are `gateway.allowed_origins`.
pub fn audit_settings(doc: &ConfigDocument) -> (r: AuditSettings)
    requires
        doc.wf(),
    ensures
        r.require_auth == bool_setting(setting_of(doc@, "security"@, "require_auth"@), true),
        r.origin_validation == bool_setting(setting_of(doc@, "security"@, "origin_validation"@), true),
        crate::text::opt_string_view(r.skill_verifying_key) == text_setting(
            setting_of(doc@, "security"@, "skill_verifying_key"@),
        ),
        strs(r.allowed_origins@) == list_setting(setting_of(doc@, "gateway"@, "allowed_origins"@)),
{
    let require_auth = match setting(doc, "security", "require_auth") {
        Some(ConfigValue::Boolean(b)) => *b,
        _ => true,
    };
    let origin_validation = match setting(doc, "security", "origin_validation") {
        Some(ConfigValue::Boolean(b)) => *b,
        _ => true,
    };
    let skill_verifying_key = match setting(doc, "security", "skill_verifying_key") {
        Some(ConfigValue::Text(s)) => Some(s.clone()),
        _ => None,
    };
    let allowed_origins = match setting(doc, "gateway", "allowed_origins") {
        Some(ConfigValue::TextList(l)) => clone_strings(l),
        _ => Vec::new(),
    };
    AuditSettings { require_auth, origin_validation, skill_verifying_key, allowed_origins }
}

} // verus!
