//! Security posture: the checks and recommendations derived from the
//! security settings of a workspace, and lowercase hex encoding.

use vstd::prelude::*;

use crate::audit::{bool_setting, list_setting, text_setting};
use crate::clock::now_rfc3339;
use crate::config_migration::{setting, setting_of, ConfigDocument, ConfigValue};
use crate::text::{decimal, owned, strs, trim_seq, push_char, usize_text, concat3};

verus! {

/// One posture check: the area it covers, `pass`, `warn` or `fail`, and a
/// sentence for the operator.
pub struct SecurityPostureCheck {
    pub area: String,
    pub status: String,
    pub detail: String,
}

/// The posture of a workspace as `security posture` reports it.
pub struct SecurityPostureSummary {
    pub generated_at: String,
    pub require_auth: bool,
    pub origin_validation: bool,
    pub allowed_origins: Vec<String>,
    pub control_api_token_configured: bool,
    pub trusted_proxy_token_configured: bool,
    pub skill_signature_required: bool,
    pub skill_verifying_key_configured: bool,
    pub vault_present: bool,
    pub secure_by_default: bool,
    pub issues_found: usize,
    pub warnings_found: usize,
    pub checks: Vec<SecurityPostureCheck>,
    pub recommended_actions: Vec<String>,
}

/// The settings of the effective configuration that the posture reads.
pub struct PostureSettings {
    pub require_auth: bool,
    pub origin_validation: bool,
    pub allowed_origins: Vec<String>,
    pub control_api_token_env: Option<String>,
    pub trusted_proxy_token_env: Option<String>,
    pub skill_signature_required: bool,
    pub skill_verifying_key: Option<String>,
}

/// A check as plain character sequences: (area, status, detail).
pub type CheckView = (Seq<char>, Seq<char>, Seq<char>);

pub open spec fn check_view(c: SecurityPostureCheck) -> CheckView {
    (c.area@, c.status@, c.detail@)
}

pub open spec fn checks_view(v: Seq<SecurityPostureCheck>) -> Seq<CheckView> {
    v.map_values(|c: SecurityPostureCheck| check_view(c))
}

/// A verifying key counts as configured when it is set and not blank.
pub open spec fn verifying_key_configured(s: PostureSettings) -> bool {
    match s.skill_verifying_key {
        Some(k) => trim_seq(k@).len() > 0,
        None => false,
    }
}

pub open spec fn origins_ok(s: PostureSettings) -> bool {
    s.origin_validation && s.allowed_origins@.len() > 0
}

pub open spec fn control_ok(s: PostureSettings) -> bool {
    s.control_api_token_env is Some || s.trusted_proxy_token_env is Some
}

/// The check of gateway authentication.
pub open spec fn auth_check(s: PostureSettings) -> CheckView {
    if s.require_auth {
        ("gateway_auth"@, "pass"@, "Gateway authentication is required."@)
    } else {
        ("gateway_auth"@, "warn"@, "Gateway authentication is disabled."@)
    }
}

/// The check of origin validation.
pub open spec fn origin_check(s: PostureSettings) -> CheckView {
    if origins_ok(s) {
        (
            "origin_validation"@,
            "pass"@,
            "Origin validation is enabled for "@ + decimal(s.allowed_origins@.len())
                + " allowed origin(s)."@,
        )
    } else {
        (
            "origin_validation"@,
            "fail"@,
            "Origin validation is disabled or has no explicit allowed origins."@,
        )
    }
}

/// The check of control-plane access.
pub open spec fn control_check(s: PostureSettings) -> CheckView {
    let api = s.control_api_token_env is Some;
    let proxy = s.trusted_proxy_token_env is Some;
    if api || proxy {
        (
            "control_plane_access"@,
            "pass"@,
            "Control-plane protection configured via "@ + (if api {
                "control API bearer token"@
            } else {
                "trusted proxy token"@
            }) + (if api && proxy {
                " and trusted proxy token"@
            } else {
                ""@
            }) + "."@,
        )
    } else {
        (
            "control_plane_access"@,
            "warn"@,
            "Control-plane bearer-token and trusted-proxy gates are both unset."@,
        )
    }
}

/// The check of skill signature verification.
pub open spec fn skill_check(s: PostureSettings) -> CheckView {
    if s.skill_signature_required && !verifying_key_configured(s) {
        (
            "skill_verification"@,
            "fail"@,
            "Skill signature verification is required but no verifying key is configured."@,
        )
    } else if verifying_key_configured(s) {
        ("skill_verification"@, "pass"@, "Skill verifying key is configured."@)
    } else {
        (
            "skill_verification"@,
            "warn"@,
            "Skill verifying key is not configured; external skill verification remains weaker than the final release target."@,
        )
    }
}

/// The check of the runtime vault.
pub open spec fn vault_check(vault_present: bool) -> CheckView {
    if vault_present {
        ("runtime_vault"@, "pass"@, "Runtime vault artifact is present."@)
    } else {
        ("runtime_vault"@, "warn"@, "Runtime vault artifact is absent; secrets may still be env-only."@)
    }
}

/// The standing check of the sandbox boundary, always a warning.
pub open spec fn sandbox_check() -> CheckView {
    (
        "sandbox_boundary"@,
        "warn"@,
        "Bounded execution lanes are present, but the final release gate should still treat sandbox verification as an explicit operator review item."@,
    )
}

/// The checks of a posture, in the order they are reported.
pub open spec fn posture_checks(s: PostureSettings, vault_present: bool) -> Seq<CheckView> {
    seq![
        auth_check(s),
        origin_check(s),
        control_check(s),
        skill_check(s),
        vault_check(vault_present),
        sandbox_check(),
    ]
}

/// The number of checks with the given status.
pub open spec fn count_status(v: Seq<CheckView>, status: Seq<char>) -> nat
    decreases v.len(),
{
    if v.len() == 0 {
        0
    } else {
        count_status(v.drop_last(), status) + (if v.last().1 == status { 1nat } else { 0nat })
    }
}

/// The recommended actions of a posture, in order.
pub open spec fn posture_actions(s: PostureSettings, vault_present: bool) -> Seq<Seq<char>> {
    let a1: Seq<Seq<char>> = if !s.require_auth {
        seq!["Set `[security].require_auth = true` before release promotion."@]
    } else {
        seq![]
    };
    let a2: Seq<Seq<char>> = if !origins_ok(s) {
        seq!["Enable origin validation with explicit `gateway.allowed_origins` before release."@]
    } else {
        seq![]
    };
    let a3: Seq<Seq<char>> = if !control_ok(s) {
        seq![
            "Configure `security.control_api_token_env` or `security.trusted_proxy_token_env` for the control plane."@,
        ]
    } else {
        seq![]
    };
    let a4: Seq<Seq<char>> = if !verifying_key_configured(s) {
        seq![
            "Generate and configure a skill verifying key with `openrustclaw security generate-keys`."@,
        ]
    } else {
        seq![]
    };
    let a5: Seq<Seq<char>> = if !vault_present {
        seq!["Initialize and populate the runtime vault before final release candidate testing."@]
    } else {
        seq![]
    };
    a1 + a2 + a3 + a4 + a5 + seq![
        "Run `openrustclaw security audit` and review `/control/security/posture` before release sign-off."@,
    ]
}

/// What a summary states of the settings it was computed from.
pub open spec fn summary_fits(
    r: SecurityPostureSummary,
    s: PostureSettings,
    vault_present: bool,
    generated_at: Seq<char>,
) -> bool {
    let checks = posture_checks(s, vault_present);
    &&& r.generated_at@ == generated_at
    &&& r.require_auth == s.require_auth
    &&& r.origin_validation == s.origin_validation
    &&& strs(r.allowed_origins@) == strs(s.allowed_origins@)
    &&& r.control_api_token_configured == (s.control_api_token_env is Some)
    &&& r.trusted_proxy_token_configured == (s.trusted_proxy_token_env is Some)
    &&& r.skill_signature_required == s.skill_signature_required
    &&& r.skill_verifying_key_configured == verifying_key_configured(s)
    &&& r.vault_present == vault_present
    &&& checks_view(r.checks@) == checks
    &&& r.issues_found == count_status(checks, "fail"@)
    &&& r.warnings_found == count_status(checks, "warn"@)
    &&& r.secure_by_default == (r.issues_found == 0 && r.warnings_found == 0)
    &&& strs(r.recommended_actions@) == posture_actions(s, vault_present)
}

fn make_check(area: &str, status: &str, detail: String) -> (r: SecurityPostureCheck)
    ensures
        check_view(r) == (area@, status@, detail@),
{
    SecurityPostureCheck { area: owned(area), status: owned(status), detail }
}

proof fn lemma_count_push(v: Seq<CheckView>, c: CheckView, status: Seq<char>)
    ensures
        count_status(v.push(c), status) == count_status(v, status) + (if c.1 == status {
            1nat
        } else {
            0nat
        }),
{
    assert(v.push(c).drop_last() =~= v);
}

fn push_check(checks: &mut Vec<SecurityPostureCheck>, c: SecurityPostureCheck)
    ensures
        checks_view(final(checks)@) == checks_view(old(checks)@).push(check_view(c)),
{
    let ghost before = old(checks)@;
    checks.push(c);
    assert(checks_view(checks@) =~= checks_view(before).push(check_view(c)));
}

fn push_text(v: &mut Vec<String>, s: &str)
    ensures
        strs(final(v)@) == strs(old(v)@).push(s@),
{
    let ghost before = old(v)@;
    v.push(owned(s));
    assert(strs(v@) =~= strs(before).push(s@));
}

fn key_configured(s: &PostureSettings) -> (r: bool)
    ensures
        r == verifying_key_configured(*s),
{
    match &s.skill_verifying_key {
        Some(k) => !crate::text::is_blank(k.as_str()),
        None => false,
    }
}

fn auth_check_of(s: &PostureSettings) -> (r: SecurityPostureCheck)
    ensures
        check_view(r) == auth_check(*s),
{
    if s.require_auth {
        make_check("gateway_auth", "pass", owned("Gateway authentication is required."))
    } else {
        make_check("gateway_auth", "warn", owned("Gateway authentication is disabled."))
    }
}

fn origin_check_of(s: &PostureSettings) -> (r: SecurityPostureCheck)
    ensures
        check_view(r) == origin_check(*s),
{
    if s.origin_validation && s.allowed_origins.len() > 0 {
        let count = usize_text(s.allowed_origins.len());
        let detail = concat3("Origin validation is enabled for ", count.as_str(), " allowed origin(s).");
        make_check("origin_validation", "pass", detail)
    } else {
        make_check(
            "origin_validation",
            "fail",
            owned("Origin validation is disabled or has no explicit allowed origins."),
        )
    }
}

fn control_check_of(s: &PostureSettings) -> (r: SecurityPostureCheck)
    ensures
        check_view(r) == control_check(*s),
{
    let api = s.control_api_token_env.is_some();
    let proxy = s.trusted_proxy_token_env.is_some();
    if api || proxy {
        let via = if api {
            "control API bearer token"
        } else {
            "trusted proxy token"
        };
        let both = if api && proxy {
            " and trusted proxy token"
        } else {
            ""
        };
        let mut detail = concat3("Control-plane protection configured via ", via, both);
        push_char(&mut detail, '.');
        proof {
            reveal_strlit(".");
        }
        make_check("control_plane_access", "pass", detail)
    } else {
        make_check(
            "control_plane_access",
            "warn",
            owned("Control-plane bearer-token and trusted-proxy gates are both unset."),
        )
    }
}

fn skill_check_of(s: &PostureSettings) -> (r: SecurityPostureCheck)
    ensures
        check_view(r) == skill_check(*s),
{
    let configured = key_configured(s);
    if s.skill_signature_required && !configured {
        make_check(
            "skill_verification",
            "fail",
            owned("Skill signature verification is required but no verifying key is configured."),
        )
    } else if configured {
        make_check("skill_verification", "pass", owned("Skill verifying key is configured."))
    } else {
        make_check(
            "skill_verification",
            "warn",
            owned("Skill verifying key is not configured; external skill verification remains weaker than the final release target."),
        )
    }
}

fn vault_check_of(vault_present: bool) -> (r: SecurityPostureCheck)
    ensures
        check_view(r) == vault_check(vault_present),
{
    if vault_present {
        make_check("runtime_vault", "pass", owned("Runtime vault artifact is present."))
    } else {
        make_check(
            "runtime_vault",
            "warn",
            owned("Runtime vault artifact is absent; secrets may still be env-only."),
        )
    }
}

fn posture_checks_of(s: &PostureSettings, vault_present: bool) -> (r: Vec<SecurityPostureCheck>)
    ensures
        checks_view(r@) == posture_checks(*s, vault_present),
{
    let mut checks: Vec<SecurityPostureCheck> = Vec::new();
    push_check(&mut checks, auth_check_of(s));
    push_check(&mut checks, origin_check_of(s));
    push_check(&mut checks, control_check_of(s));
    push_check(&mut checks, skill_check_of(s));
    push_check(&mut checks, vault_check_of(vault_present));
    push_check(
        &mut checks,
        make_check(
            "sandbox_boundary",
            "warn",
            owned("Bounded execution lanes are present, but the final release gate should still treat sandbox verification as an explicit operator review item."),
        ),
    );
    assert(checks_view(checks@) =~= posture_checks(*s, vault_present));
    checks
}

fn count_checks(checks: &Vec<SecurityPostureCheck>, status: &str) -> (r: usize)
    ensures
        r == count_status(checks_view(checks@), status@),
{
    let ghost cv = checks_view(checks@);
    let mut n: usize = 0;
    let mut k: usize = 0;
    while k < checks.len()
        invariant
            k <= checks.len(),
            cv == checks_view(checks@),
            n == count_status(cv.take(k as int), status@),
            n <= k,
        decreases checks.len() - k,
    {
        assert(cv.take(k + 1) =~= cv.take(k as int).push(cv[k as int]));
        proof {
            lemma_count_push(cv.take(k as int), cv[k as int], status@);
        }
        if crate::text::str_eq(checks[k].status.as_str(), status) {
            n = n + 1;
        }
        k = k + 1;
    }
    assert(cv.take(checks.len() as int) =~= cv);
    n
}

fn posture_actions_of(s: &PostureSettings, vault_present: bool) -> (r: Vec<String>)
    ensures
        strs(r@) == posture_actions(*s, vault_present),
{
    let mut actions: Vec<String> = Vec::new();
    if !s.require_auth {
        push_text(&mut actions, "Set `[security].require_auth = true` before release promotion.");
    }
    if !(s.origin_validation && s.allowed_origins.len() > 0) {
        push_text(
            &mut actions,
            "Enable origin validation with explicit `gateway.allowed_origins` before release.",
        );
    }
    if !s.control_api_token_env.is_some() && !s.trusted_proxy_token_env.is_some() {
        push_text(
            &mut actions,
            "Configure `security.control_api_token_env` or `security.trusted_proxy_token_env` for the control plane.",
        );
    }
    if !key_configured(s) {
        push_text(
            &mut actions,
            "Generate and configure a skill verifying key with `openrustclaw security generate-keys`.",
        );
    }
    if !vault_present {
        push_text(
            &mut actions,
            "Initialize and populate the runtime vault before final release candidate testing.",
        );
    }
    push_text(
        &mut actions,
        "Run `openrustclaw security audit` and review `/control/security/posture` before release sign-off.",
    );
    assert(strs(actions@) =~= posture_actions(*s, vault_present));
    actions
}

/// The posture of the given settings, stamped with `generated_at`.
pub fn posture_summary_at(
    settings: PostureSettings,
    vault_present: bool,
    generated_at: String,
) -> (r: SecurityPostureSummary)
    ensures
        summary_fits(r, settings, vault_present, generated_at@),
{
    let checks = posture_checks_of(&settings, vault_present);
    let issues_found = count_checks(&checks, "fail");
    let warnings_found = count_checks(&checks, "warn");
    let recommended_actions = posture_actions_of(&settings, vault_present);
    let control_api_token_configured = settings.control_api_token_env.is_some();
    let trusted_proxy_token_configured = settings.trusted_proxy_token_env.is_some();
    let skill_verifying_key_configured = key_configured(&settings);
    let PostureSettings { require_auth, origin_validation, allowed_origins, skill_signature_required, .. } =
        settings;
    SecurityPostureSummary {
        generated_at,
        require_auth,
        origin_validation,
        allowed_origins,
        control_api_token_configured,
        trusted_proxy_token_configured,
        skill_signature_required,
        skill_verifying_key_configured,
        vault_present,
        secure_by_default: issues_found == 0 && warnings_found == 0,
        issues_found,
        warnings_found,
        checks,
        recommended_actions,
    }
}

/// The posture of the given settings, stamped with the current time.
pub fn posture_summary(settings: PostureSettings, vault_present: bool) -> (r: SecurityPostureSummary)
    ensures
        summary_fits(r, settings, vault_present, r.generated_at@),
{
    let generated_at = now_rfc3339();
    posture_summary_at(settings, vault_present, generated_at)
}

/// The lowercase hex digit of `n` (for `n < 16`).
pub open spec fn hex_digit(n: nat) -> char {
    if n < 10 {
        ((n + 48) as u32) as char
    } else {
        ((n + 87) as u32) as char
    }
}

/// Two lowercase hex digits per byte, most significant first.
pub open spec fn hex_seq(b: Seq<u8>) -> Seq<char>
    decreases b.len(),
{
    if b.len() == 0 {
        seq![]
    } else {
        hex_seq(b.drop_last()).push(hex_digit((b.last() / 16) as nat)).push(
            hex_digit((b.last() % 16) as nat),
        )
    }
}

fn hex_char(n: u8) -> (r: char)
    requires
        n < 16,
    ensures
        r == hex_digit(n as nat),
{
    if n < 10 {
        let b: u8 = n + 48;
        b as char
    } else {
        let b: u8 = n + 87;
        b as char
    }
}

/// The lowercase hex rendering of `bytes`.
pub fn encode(bytes: &[u8]) -> (r: String)
    ensures
        r@ == hex_seq(bytes@),
{
    let mut out = String::new();
    let mut i: usize = 0;
    while i < bytes.len()
        invariant
            i <= bytes.len(),
            out@ == hex_seq(bytes@.take(i as int)),
        decreases bytes.len() - i,
    {
        let b = bytes[i];
        assert(bytes@.take(i + 1).drop_last() =~= bytes@.take(i as int));
        push_char(&mut out, hex_char(b / 16));
        push_char(&mut out, hex_char(b % 16));
        i = i + 1;
    }
    assert(bytes@.take(bytes.len() as int) =~= bytes@);
    out
}


/// The file text of a skill signing key given in hex.
pub fn signing_key_pem(key_hex: &str) -> (r: String)
    ensures
        r@ == "-----BEGIN OPENRUSTCLAW SIGNING KEY-----\n"@ + key_hex@ + "\n-----END OPENRUSTCLAW SIGNING KEY-----\n"@,
{
    concat3("-----BEGIN OPENRUSTCLAW SIGNING KEY-----\n", key_hex, "\n-----END OPENRUSTCLAW SIGNING KEY-----\n")
}

/// The file text of a skill verifying key given in hex.
pub fn verifying_key_pem(key_hex: &str) -> (r: String)
    ensures
        r@ == "-----BEGIN OPENRUSTCLAW VERIFYING KEY-----\n"@ + key_hex@
            + "\n-----END OPENRUSTCLAW VERIFYING KEY-----\n"@,
{
    concat3("-----BEGIN OPENRUSTCLAW VERIFYING KEY-----\n", key_hex, "\n-----END OPENRUSTCLAW VERIFYING KEY-----\n")
}

/// Whether the answer to a `[y/N]` question is yes: `y` in either case,
/// with surrounding whitespace ignored.
pub fn confirms_yes(response: &str) -> (r: bool)
    ensures
        r == (trim_seq(response@) == seq!['y'] || trim_seq(response@) == seq!['Y']),
{
    let t = crate::text::trim(response);
    let v = crate::text::chars_of(t.as_str());
    if v.len() == 1 {
        let c = v[0];
        assert(v@ =~= seq![c]);
        c == 'y' || c == 'Y'
    } else {
        assert(seq!['y'].len() == 1 && seq!['Y'].len() == 1);
        false
    }
}

proof fn lemma_count_last(v: Seq<CheckView>, status: Seq<char>)
    requires
        v.len() > 0,
        v.last().1 == status,
    ensures
        count_status(v, status) >= 1,
{
}

/// A posture always carries at least one warning, the sandbox review, so
/// no workspace is reported secure by default.
pub proof fn law_posture_never_secure_by_default(s: PostureSettings, vault_present: bool)
    ensures
        count_status(posture_checks(s, vault_present), "warn"@) >= 1,
{
    lemma_count_last(posture_checks(s, vault_present), "warn"@);
}

/// Hex doubles the length: two digits per byte, each a lowercase hex digit.
pub proof fn law_hex_shape(b: Seq<u8>)
    ensures
        hex_seq(b).len() == 2 * b.len(),
        forall|i: int| 0 <= i < hex_seq(b).len() ==> ('0' <= #[trigger] hex_seq(b)[i] <= '9' || 'a' <= hex_seq(b)[i] <= 'f'),
    decreases b.len(),
{
    if b.len() > 0 {
        law_hex_shape(b.drop_last());
        let prev = hex_seq(b.drop_last());
        let hi = hex_digit((b.last() / 16) as nat);
        let lo = hex_digit((b.last() % 16) as nat);
        assert(hex_seq(b) == prev.push(hi).push(lo));
        assert forall|i: int| 0 <= i < hex_seq(b).len() implies ('0' <= #[trigger] hex_seq(b)[i] <= '9' || 'a'
            <= hex_seq(b)[i] <= 'f') by {
            if i < prev.len() {
                assert(hex_seq(b)[i] == prev[i]);
            }
        }
    }
}

/// The posture's settings from a configuration document, under its
/// `security` section (and `gateway.allowed_origins`). Where the document
/// leaves a requirement out, the secure choice is read: authentication,
/// origin validation and skill signatures are required.
pub fn posture_settings(doc: &ConfigDocument) -> (r: PostureSettings)
    requires
        doc.wf(),
    ensures
        r.require_auth == bool_setting(setting_of(doc@, "security"@, "require_auth"@), true),
        r.origin_validation == bool_setting(setting_of(doc@, "security"@, "origin_validation"@), true),
        strs(r.allowed_origins@) == list_setting(setting_of(doc@, "gateway"@, "allowed_origins"@)),
        crate::text::opt_string_view(r.control_api_token_env) == text_setting(
            setting_of(doc@, "security"@, "control_api_token_env"@),
        ),
        crate::text::opt_string_view(r.trusted_proxy_token_env) == text_setting(
            setting_of(doc@, "security"@, "trusted_proxy_token_env"@),
        ),
        r.skill_signature_required == bool_setting(
            setting_of(doc@, "security"@, "skill_signature_required"@),
            true,
        ),
        crate::text::opt_string_view(r.skill_verifying_key) == text_setting(
            setting_of(doc@, "security"@, "skill_verifying_key"@),
        ),
{
    let flag = |v: Option<&ConfigValue>| -> (b: bool)
        ensures
            b == bool_setting(
                match v {
                    Some(x) => Some(x@),
                    None => None,
                },
                true,
            ),
        {
            match v {
                Some(ConfigValue::Boolean(b)) => *b,
                _ => true,
            }
        };
    let text = |v: Option<&ConfigValue>| -> (t: Option<String>)
        ensures
            crate::text::opt_string_view(t) == text_setting(
                match v {
                    Some(x) => Some(x@),
                    None => None,
                },
            ),
        {
            match v {
                Some(ConfigValue::Text(s)) => Some(s.clone()),
                _ => None,
            }
        };
    let allowed_origins = match setting(doc, "gateway", "allowed_origins") {
        Some(ConfigValue::TextList(l)) => crate::text::clone_strings(l),
        _ => Vec::new(),
    };
    PostureSettings {
        require_auth: flag(setting(doc, "security", "require_auth")),
        origin_validation: flag(setting(doc, "security", "origin_validation")),
        allowed_origins,
        control_api_token_env: text(setting(doc, "security", "control_api_token_env")),
        trusted_proxy_token_env: text(setting(doc, "security", "trusted_proxy_token_env")),
        skill_signature_required: flag(setting(doc, "security", "skill_signature_required")),
        skill_verifying_key: text(setting(doc, "security", "skill_verifying_key")),
    }
}


proof fn lemma_count_at(v: Seq<CheckView>, i: int, status: Seq<char>)
    requires
        0 <= i < v.len(),
        v[i].1 == status,
    ensures
        count_status(v, status) >= 1,
    decreases v.len(),
{
    if i < v.len() - 1 {
        lemma_count_at(v.drop_last(), i, status);
    }
}

/// The origin check passes only when origin validation is on and at least
/// one allowed origin is configured; otherwise it fails, and the posture
/// counts it as an issue.
pub proof fn law_origin_check_needs_an_allowed_origin(s: PostureSettings, vault_present: bool)
    ensures
        posture_checks(s, vault_present)[1].0 == "origin_validation"@,
        posture_checks(s, vault_present)[1].1 == "pass"@ <==> (s.origin_validation && s.allowed_origins@.len()
            > 0),
        !(s.origin_validation && s.allowed_origins@.len() > 0) ==> posture_checks(s, vault_present)[1].1
            == "fail"@,
        !(s.origin_validation && s.allowed_origins@.len() > 0) ==> count_status(
            posture_checks(s, vault_present),
            "fail"@,
        ) >= 1,
{
    reveal_strlit("pass");
    reveal_strlit("fail");
    assert("pass"@[0] != "fail"@[0]);
    if !(s.origin_validation && s.allowed_origins@.len() > 0) {
        lemma_count_at(posture_checks(s, vault_present), 1, "fail"@);
    }
}

} // verus!
