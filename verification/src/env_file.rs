//! Edits that onboarding makes to the workspace's `.env` file: the lines
//! it reads, the settings it replaces and the text it writes back.

use vstd::prelude::*;

use crate::runtime::{char_position, dotenv_entries_of, dotenv_line, joined, lone_quote_line, quoted, split_newlines};
use crate::text::{chars_of, concat2, concat3, has_prefix, is_ws, owned, starts_with, str_eq, string_from_chars, strs,
    trim, trim_end_seq, trim_seq, trim_start_seq, u64_text, decimal};

verus! {

/// A line without the carriage return of its `\r\n` ending.
pub open spec fn strip_cr(line: Seq<char>) -> Seq<char> {
    if line.len() > 0 && line.last() == '\r' {
        line.drop_last()
    } else {
        line
    }
}

/// The lines of `s` as `str::lines` gives them: split at `\n` or `\r\n`,
/// without the line endings; a final line ending adds no empty line.
pub open spec fn std_lines(s: Seq<char>) -> Seq<Seq<char>> {
    let pieces = split_newlines(s);
    let n = pieces.len();
    if n > 0 && pieces[n - 1].len() == 0 {
        Seq::new((n - 1) as nat, |i: int| strip_cr(pieces[i]))
    } else {
        Seq::new(n, |i: int| if i < n - 1 { strip_cr(pieces[i]) } else { pieces[i] })
    }
}

fn chars_between(v: &Vec<char>, from: usize, to: usize) -> (r: String)
    requires
        from <= to <= v@.len(),
    ensures
        r@ == v@.subrange(from as int, to as int),
{
    let mut out: Vec<char> = Vec::new();
    let mut k: usize = from;
    while k < to
        invariant
            from <= k <= to <= v@.len(),
            out@ == v@.subrange(from as int, k as int),
        decreases to - k,
    {
        out.push(v[k]);
        assert(v@.subrange(from as int, k + 1) =~= v@.subrange(from as int, k as int).push(v@[k as int]));
        k = k + 1;
    }
    string_from_chars(&out)
}

/// The lines of `s`, as `str::lines` gives them.
pub fn lines_of(s: &str) -> (r: Vec<String>)
    ensures
        strs(r@) == std_lines(s@),
{
    let v = chars_of(s);
    let pieces = crate::runtime::split_lines(&v);
    let ghost ps = pieces@.map_values(|l: Vec<char>| l@);
    proof {
        crate::runtime::lemma_split_nonempty(s@);
    }
    let n = pieces.len();
    let count = if pieces[n - 1].len() == 0 {
        n - 1
    } else {
        n
    };
    let mut out: Vec<String> = Vec::new();
    let mut i: usize = 0;
    while i < count
        invariant
            i <= count <= n,
            n == pieces@.len(),
            n >= 1,
            ps == pieces@.map_values(|l: Vec<char>| l@),
            ps == split_newlines(s@),
            count == (if ps[n - 1].len() == 0 { n - 1 } else { n as int }),
            strs(out@) == std_lines(s@).take(i as int),
        decreases count - i,
    {
        let piece = &pieces[i];
        let m = piece.len();
        let strip = i + 1 < n && m > 0 && piece[m - 1] == '\r';
        let line = if strip {
            chars_between(piece, 0, m - 1)
        } else {
            chars_between(piece, 0, m)
        };
        assert(piece@.subrange(0, m as int) =~= piece@);
        assert(piece@.subrange(0, m - 1) =~= piece@.drop_last());
        assert(line@ == std_lines(s@)[i as int]);
        let ghost before = strs(out@);
        out.push(line);
        assert(strs(out@) =~= before.push(std_lines(s@)[i as int]));
        assert(std_lines(s@).take(i + 1) =~= std_lines(s@).take(i as int).push(std_lines(s@)[i as int]));
        i = i + 1;
    }
    assert(std_lines(s@).take(count as int) =~= std_lines(s@));
    out
}

// ---------------------------------------------------------------------
// Settings written by onboarding

/// The `.env` text of the gateway settings chosen during onboarding.
pub open spec fn gateway_env_text(host: Seq<char>, port: nat, jwt_secret: Seq<char>) -> Seq<char> {
    "# OpenRustClaw Configuration - Generated by onboarding wizard\nOPENRUSTCLAW_GATEWAY__HOST="@ + host
        + "\nOPENRUSTCLAW_GATEWAY__PORT="@ + crate::text::decimal(port)
        + "\nOPENRUSTCLAW_SECURITY__JWT_SECRET="@ + jwt_secret + "\n"@
}

/// The `.env` text of the gateway settings chosen during onboarding.
pub fn gateway_env_content(host: &str, port: u16, jwt_secret: &str) -> (r: String)
    ensures
        r@ == gateway_env_text(host@, port as nat, jwt_secret@),
{
    let a = concat3(
        "# OpenRustClaw Configuration - Generated by onboarding wizard\nOPENRUSTCLAW_GATEWAY__HOST=",
        host,
        "\nOPENRUSTCLAW_GATEWAY__PORT=",
    );
    let b = concat3(a.as_str(), u64_text(port as u64).as_str(), "\nOPENRUSTCLAW_SECURITY__JWT_SECRET=");
    concat3(b.as_str(), jwt_secret, "\n")
}

/// The lines of `lines` that start with neither `p` nor `q`.
pub open spec fn lines_without(lines: Seq<Seq<char>>, p: Seq<char>, q: Seq<char>) -> Seq<Seq<char>>
    decreases lines.len(),
{
    if lines.len() == 0 {
        seq![]
    } else {
        lines_without(lines.drop_last(), p, q) + if has_prefix(lines.last(), p) || has_prefix(lines.last(), q) {
            Seq::<Seq<char>>::empty()
        } else {
            seq![lines.last()]
        }
    }
}

/// The `.env` text after an edit: the existing lines without those that
/// start with `p` or `q`, joined with newlines, then `added` right after
/// them, all trimmed.
pub open spec fn edited_env(existing: Seq<char>, p: Seq<char>, q: Seq<char>, added: Seq<char>) -> Seq<char> {
    trim_seq(joined(lines_without(std_lines(existing), p, q), "\n"@) + added)
}

fn edit_env(existing: &str, p: &str, q: &str, added: &str) -> (r: String)
    ensures
        r@ == edited_env(existing@, p@, q@, added@),
{
    let lines = lines_of(existing);
    let mut kept: Vec<String> = Vec::new();
    let mut i: usize = 0;
    while i < lines.len()
        invariant
            i <= lines@.len(),
            strs(lines@) == std_lines(existing@),
            strs(kept@) == lines_without(strs(lines@).take(i as int), p@, q@),
        decreases lines@.len() - i,
    {
        assert(strs(lines@).take(i + 1).drop_last() =~= strs(lines@).take(i as int));
        assert(strs(lines@).take(i + 1).last() == lines@[i as int]@);
        let ghost before = strs(kept@);
        let l = lines[i].as_str();
        if !(starts_with(l, p) || starts_with(l, q)) {
            kept.push(owned(l));
            assert(strs(kept@) =~= before + seq![lines@[i as int]@]);
        } else {
            assert(strs(kept@) =~= before + Seq::<Seq<char>>::empty());
        }
        i = i + 1;
    }
    assert(strs(lines@).take(lines@.len() as int) =~= strs(lines@));
    let body = crate::runtime::join_strings(&kept, "\n");
    let all = concat2(body.as_str(), added);
    proof {
        reveal_strlit("\n");
    }
    trim(all.as_str())
}

/// The variable a provider's API key is saved under.
pub open spec fn provider_key_var(provider: Seq<char>) -> Option<Seq<char>> {
    if provider == "anthropic"@ {
        Some("ANTHROPIC_API_KEY"@)
    } else if provider == "openai"@ {
        Some("OPENAI_API_KEY"@)
    } else if provider == "openrouter"@ {
        Some("OPENROUTER_API_KEY"@)
    } else if provider == "gemini"@ {
        Some("GEMINI_API_KEY"@)
    } else {
        None
    }
}

/// The `.env` text after saving a provider's API key: the key's line
/// replaces any earlier one; `None` (nothing written) for a provider that
/// takes no key.
pub fn provider_env_content(existing: &str, provider: &str, api_key: &str) -> (r: Option<String>)
    ensures
        match provider_key_var(provider@) {
            None => r is None,
            Some(var) => r matches Some(t) && t@ == edited_env(
                existing@,
                var + "="@,
                var + "="@,
                var + "="@ + api_key@ + "\n"@,
            ),
        },
{
    let var = if str_eq(provider, "anthropic") {
        "ANTHROPIC_API_KEY"
    } else if str_eq(provider, "openai") {
        "OPENAI_API_KEY"
    } else if str_eq(provider, "openrouter") {
        "OPENROUTER_API_KEY"
    } else if str_eq(provider, "gemini") {
        "GEMINI_API_KEY"
    } else {
        return None;
    };
    let prefix = concat2(var, "=");
    let line = concat3(prefix.as_str(), api_key, "\n");
    Some(edit_env(existing, prefix.as_str(), prefix.as_str(), line.as_str()))
}

/// The variables a channel's token and switch are saved under.
pub open spec fn channel_vars(channel: Seq<char>) -> Option<(Seq<char>, Seq<char>)> {
    if channel == "telegram"@ {
        Some(("OPENRUSTCLAW_CHANNELS__TELEGRAM__TOKEN"@, "OPENRUSTCLAW_CHANNELS__TELEGRAM__ENABLED"@))
    } else if channel == "discord"@ {
        Some(("OPENRUSTCLAW_CHANNELS__DISCORD__TOKEN"@, "OPENRUSTCLAW_CHANNELS__DISCORD__ENABLED"@))
    } else if channel == "slack"@ {
        Some(("OPENRUSTCLAW_CHANNELS__SLACK__TOKEN"@, "OPENRUSTCLAW_CHANNELS__SLACK__ENABLED"@))
    } else {
        None
    }
}

/// The `.env` text after saving a channel's token: the token and a switch
/// that enables the channel replace any earlier lines for them; `None`
/// (nothing written) for a channel configured elsewhere.
pub fn channel_env_content(existing: &str, channel: &str, token: &str) -> (r: Option<String>)
    ensures
        match channel_vars(channel@) {
            None => r is None,
            Some((token_var, enabled_var)) => r matches Some(t) && t@ == edited_env(
                existing@,
                token_var + "="@,
                enabled_var,
                token_var + "="@ + token@ + "\n"@ + enabled_var + "=true\n"@,
            ),
        },
{
    let (token_var, enabled_var) = if str_eq(channel, "telegram") {
        ("OPENRUSTCLAW_CHANNELS__TELEGRAM__TOKEN", "OPENRUSTCLAW_CHANNELS__TELEGRAM__ENABLED")
    } else if str_eq(channel, "discord") {
        ("OPENRUSTCLAW_CHANNELS__DISCORD__TOKEN", "OPENRUSTCLAW_CHANNELS__DISCORD__ENABLED")
    } else if str_eq(channel, "slack") {
        ("OPENRUSTCLAW_CHANNELS__SLACK__TOKEN", "OPENRUSTCLAW_CHANNELS__SLACK__ENABLED")
    } else {
        return None;
    };
    let prefix = concat2(token_var, "=");
    let token_line = concat3(prefix.as_str(), token, "\n");
    let enable_line = concat2(enabled_var, "=true\n");
    let added = concat2(token_line.as_str(), enable_line.as_str());
    assert(added@ =~= token_var@ + "="@ + token@ + "\n"@ + enabled_var@ + "=true\n"@);
    Some(edit_env(existing, prefix.as_str(), enabled_var, added.as_str()))
}

// ---------------------------------------------------------------------
// What the runtime loads back

/// A name of an environment variable as onboarding writes them: upper-case
/// ASCII letters and underscores.
pub open spec fn env_name(s: Seq<char>) -> bool {
    s.len() > 0 && forall|j: int| 0 <= j < s.len() ==> (('A' <= #[trigger] s[j] && s[j] <= 'Z') || s[j] == '_')
}

/// A value that the `.env` loader reads back as it is: one line, without
/// whitespace at either end, not wrapped in quotes.
pub open spec fn plain_value(v: Seq<char>) -> bool {
    &&& !v.contains('\n')
    &&& (v.len() > 0 ==> !is_ws(v[0]) && !is_ws(v.last()))
    &&& !quoted(v)
}

proof fn lemma_trim_noop(s: Seq<char>)
    requires
        s.len() > 0,
        !is_ws(s[0]),
        !is_ws(s.last()),
    ensures
        trim_seq(s) == s,
{
}

proof fn lemma_trim_plain(v: Seq<char>)
    requires
        plain_value(v),
    ensures
        trim_seq(v) == v,
{
    if v.len() > 0 {
        lemma_trim_noop(v);
    }
}

proof fn lemma_char_position_at(t: Seq<char>, c: char, n: int)
    requires
        0 <= n < t.len(),
        t[n] == c,
        forall|j: int| 0 <= j < n ==> t[j] != c,
    ensures
        char_position(t, c) == Some(n as nat),
    decreases n,
{
    if n > 0 {
        lemma_char_position_at(t.drop_first(), c, n - 1);
    }
}

/// A line `name=value` defines `name` as `value`, and is no line the
/// loader cannot read.
proof fn lemma_assignment_line(name: Seq<char>, value: Seq<char>)
    requires
        env_name(name),
        plain_value(value),
    ensures
        dotenv_line(name + "="@ + value) == Some((name, value)),
        !lone_quote_line(name + "="@ + value),
{
    reveal_strlit("=");
    let line = name + "="@ + value;
    let n = name.len() as int;
    assert(line[0] == name[0]);
    assert(!is_ws(name[0]) && name[0] != '#');
    assert(!is_ws(name.last()));
    if value.len() > 0 {
        assert(line.last() == value.last());
    } else {
        assert(line.last() == '=');
    }
    lemma_trim_noop(line);
    assert forall|j: int| 0 <= j < n implies line[j] != '=' by {
        assert(line[j] == name[j]);
    }
    lemma_char_position_at(line, '=', n);
    assert(line.take(n) =~= name);
    lemma_trim_noop(name);
    assert(line.skip(n + 1) =~= value);
    lemma_trim_plain(value);
}

proof fn lemma_split_no_newline(s: Seq<char>)
    requires
        !s.contains('\n'),
    ensures
        split_newlines(s) == seq![s],
    decreases s.len(),
{
    if s.len() > 0 {
        assert(!s.drop_last().contains('\n')) by {
            if s.drop_last().contains('\n') {
                let j = choose|j: int| 0 <= j < s.drop_last().len() && s.drop_last()[j] == '\n';
                assert(s[j] == '\n');
            }
        }
        lemma_split_no_newline(s.drop_last());
        assert(s.last() != '\n') by {
            assert(s[s.len() - 1] == s.last());
        }
        assert(s.drop_last().push(s.last()) =~= s);
        let prev = split_newlines(s.drop_last());
        assert(prev.update(prev.len() - 1, prev.last().push(s.last())) =~= seq![s]);
    } else {
        assert(s =~= Seq::<char>::empty());
    }
}

/// The lines of `a`, then those of `b`, make the lines of `a` and `b`
/// joined by a newline.
proof fn lemma_split_join(a: Seq<char>, b: Seq<char>)
    ensures
        split_newlines(a + "\n"@ + b) == split_newlines(a) + split_newlines(b),
    decreases b.len(),
{
    reveal_strlit("\n");
    crate::runtime::lemma_split_nonempty(a);
    if b.len() == 0 {
        assert((a + "\n"@ + b).drop_last() =~= a);
        assert(split_newlines(a) + split_newlines(b) =~= split_newlines(a).push(seq![]));
    } else {
        lemma_split_join(a, b.drop_last());
        crate::runtime::lemma_split_nonempty(b.drop_last());
        let s = a + "\n"@ + b;
        assert(s.drop_last() =~= a + "\n"@ + b.drop_last());
        assert(s.last() == b.last());
        let x = split_newlines(a);
        let y = split_newlines(b.drop_last());
        if b.last() == '\n' {
            assert((x + y).push(seq![]) =~= x + y.push(seq![]));
        } else {
            assert((x + y).update((x + y).len() - 1, (x + y).last().push(b.last())) =~= x + y.update(
                y.len() - 1,
                y.last().push(b.last()),
            ));
        }
    }
}

proof fn lemma_entries_append(a: Seq<Seq<char>>, b: Seq<Seq<char>>)
    ensures
        dotenv_entries_of(a + b) == dotenv_entries_of(a) + dotenv_entries_of(b),
    decreases b.len(),
{
    if b.len() == 0 {
        assert(a + b =~= a);
        assert(dotenv_entries_of(a) + dotenv_entries_of(b) =~= dotenv_entries_of(a));
    } else {
        lemma_entries_append(a, b.drop_last());
        assert((a + b).drop_last() =~= a + b.drop_last());
        assert((a + b).last() == b.last());
        let e = match dotenv_line(b.last()) {
            Some(e) => seq![e],
            None => Seq::<(Seq<char>, Seq<char>)>::empty(),
        };
        assert(dotenv_entries_of(a) + dotenv_entries_of(b.drop_last()) + e =~= dotenv_entries_of(a) + (
        dotenv_entries_of(b.drop_last()) + e));
    }
}

/// The text written for a variable ends with a newline that trimming
/// removes, and nothing else.
proof fn lemma_trim_written(body: Seq<char>)
    requires
        body.len() > 0,
        !is_ws(body[0]),
        !is_ws(body.last()),
    ensures
        trim_seq(body + "\n"@) == body,
{
    reveal_strlit("\n");
    let s = body + "\n"@;
    assert(s[0] == body[0]);
    assert(trim_start_seq(s) == s);
    assert(s.drop_last() =~= body);
    assert(trim_end_seq(body) == body);
}

/// An API key that onboarding saves, into a `.env` file holding no other
/// setting, is the value the runtime's `.env` loader reads for the
/// provider's variable, and the only entry it reads.
pub proof fn law_saved_provider_key_is_loaded(existing: Seq<char>, provider: Seq<char>, api_key: Seq<char>)
    requires
        provider_key_var(provider) is Some,
        lines_without(
            std_lines(existing),
            provider_key_var(provider)->0 + "="@,
            provider_key_var(provider)->0 + "="@,
        ).len() == 0,
        plain_value(api_key),
    ensures
        ({
            let var = provider_key_var(provider)->0;
            let saved = edited_env(existing, var + "="@, var + "="@, var + "="@ + api_key + "\n"@);
            &&& dotenv_entries_of(split_newlines(saved)) == seq![(var, api_key)]
            &&& forall|k: int| 0 <= k < split_newlines(saved).len() ==> !lone_quote_line(#[trigger] split_newlines(saved)[k])
        }),
{
    let var = provider_key_var(provider)->0;
    lemma_provider_vars_are_names(provider);
    let p = var + "="@;
    let kept = lines_without(std_lines(existing), p, p);
    assert(kept =~= Seq::<Seq<char>>::empty());
    assert(joined(kept, "\n"@) =~= Seq::<char>::empty());
    let line = var + "="@ + api_key;
    reveal_strlit("=");
    assert(line[0] == var[0]);
    if api_key.len() > 0 {
        assert(line.last() == api_key.last());
    } else {
        assert(line.last() == '=');
    }
    assert(joined(kept, "\n"@) + (var + "="@ + api_key + "\n"@) =~= line + "\n"@);
    lemma_trim_written(line);
    assert(!line.contains('\n')) by {
        if line.contains('\n') {
            let j = choose|j: int| 0 <= j < line.len() && line[j] == '\n';
            if j < var.len() {
                assert(line[j] == var[j]);
            } else if j > var.len() {
                assert(line[j] == api_key[j - var.len() - 1]);
            }
        }
    }
    lemma_split_no_newline(line);
    lemma_assignment_line(var, api_key);
    assert(dotenv_entries_of(seq![line]) =~= seq![(var, api_key)]) by {
        assert(seq![line].drop_last() =~= Seq::<Seq<char>>::empty());
        assert(seq![line].last() == line);
        assert(dotenv_entries_of(Seq::<Seq<char>>::empty()) == Seq::<(Seq<char>, Seq<char>)>::empty());
    }
}

/// The variables of provider keys are plain names.
proof fn lemma_provider_vars_are_names(provider: Seq<char>)
    requires
        provider_key_var(provider) is Some,
    ensures
        env_name(provider_key_var(provider)->0),
{
    reveal_strlit("ANTHROPIC_API_KEY");
    reveal_strlit("OPENAI_API_KEY");
    reveal_strlit("OPENROUTER_API_KEY");
    reveal_strlit("GEMINI_API_KEY");
}

/// A single line `name=value` is read as that one entry.
proof fn lemma_single_entry(name: Seq<char>, value: Seq<char>)
    requires
        env_name(name),
        plain_value(value),
    ensures
        !(name + "="@ + value).contains('\n'),
        split_newlines(name + "="@ + value) == seq![name + "="@ + value],
        dotenv_entries_of(split_newlines(name + "="@ + value)) == seq![(name, value)],
        !lone_quote_line(name + "="@ + value),
{
    reveal_strlit("=");
    let line = name + "="@ + value;
    assert(!line.contains('\n')) by {
        if line.contains('\n') {
            let j = choose|j: int| 0 <= j < line.len() && line[j] == '\n';
            if j < name.len() {
                assert(line[j] == name[j]);
            } else if j > name.len() {
                assert(line[j] == value[j - name.len() - 1]);
            }
        }
    }
    lemma_split_no_newline(line);
    lemma_assignment_line(name, value);
    assert(seq![line].drop_last() =~= Seq::<Seq<char>>::empty());
    assert(seq![line].last() == line);
    assert(dotenv_entries_of(Seq::<Seq<char>>::empty()) == Seq::<(Seq<char>, Seq<char>)>::empty());
    assert(dotenv_entries_of(seq![line]) =~= seq![(name, value)]);
}

/// The lines of a text whose lines are each readable are readable.
proof fn lemma_readable_join(a: Seq<char>, b: Seq<char>)
    requires
        forall|k: int| 0 <= k < split_newlines(a).len() ==> !lone_quote_line(#[trigger] split_newlines(a)[k]),
        forall|k: int| 0 <= k < split_newlines(b).len() ==> !lone_quote_line(#[trigger] split_newlines(b)[k]),
    ensures
        forall|k: int|
            0 <= k < split_newlines(a + "\n"@ + b).len() ==> !lone_quote_line(
                #[trigger] split_newlines(a + "\n"@ + b)[k],
            ),
{
    lemma_split_join(a, b);
    let x = split_newlines(a);
    let y = split_newlines(b);
    assert forall|k: int| 0 <= k < (x + y).len() implies !lone_quote_line(#[trigger] (x + y)[k]) by {
        if k >= x.len() {
            assert((x + y)[k] == y[k - x.len()]);
        }
    }
}

/// A channel token that onboarding saves, into a `.env` file holding no
/// other setting, is read back by the runtime's `.env` loader together with
/// the switch that enables the channel, and nothing else.
pub proof fn law_saved_channel_token_is_loaded(existing: Seq<char>, channel: Seq<char>, token: Seq<char>)
    requires
        channel_vars(channel) is Some,
        lines_without(std_lines(existing), (channel_vars(channel)->0).0 + "="@, (channel_vars(channel)->0).1).len() == 0,
        plain_value(token),
    ensures
        ({
            let (token_var, enabled_var) = channel_vars(channel)->0;
            let saved = edited_env(
                existing,
                token_var + "="@,
                enabled_var,
                token_var + "="@ + token + "\n"@ + enabled_var + "=true\n"@,
            );
            &&& dotenv_entries_of(split_newlines(saved)) == seq![(token_var, token), (enabled_var, "true"@)]
            &&& forall|k: int| 0 <= k < split_newlines(saved).len() ==> !lone_quote_line(#[trigger] split_newlines(saved)[k])
        }),
{
    let (token_var, enabled_var) = channel_vars(channel)->0;
    lemma_channel_vars_are_names(channel);
    reveal_strlit("=");
    reveal_strlit("\n");
    reveal_strlit("=true\n");
    reveal_strlit("true");
    let kept = lines_without(std_lines(existing), token_var + "="@, enabled_var);
    assert(kept =~= Seq::<Seq<char>>::empty());
    assert(joined(kept, "\n"@) =~= Seq::<char>::empty());
    let l1 = token_var + "="@ + token;
    let l2 = enabled_var + "="@ + "true"@;
    let body = l1 + "\n"@ + l2;
    assert(joined(kept, "\n"@) + (token_var + "="@ + token + "\n"@ + enabled_var + "=true\n"@) =~= body + "\n"@);
    assert(body[0] == token_var[0]);
    assert(body.last() == 'e');
    lemma_trim_written(body);
    assert(plain_value("true"@));
    lemma_single_entry(token_var, token);
    lemma_single_entry(enabled_var, "true"@);
    lemma_split_join(l1, l2);
    lemma_readable_join(l1, l2);
    lemma_entries_append(split_newlines(l1), split_newlines(l2));
    assert(seq![(token_var, token)] + seq![(enabled_var, "true"@)] =~= seq![(token_var, token), (enabled_var, "true"@)]);
}

/// The variables of channel settings are plain names.
proof fn lemma_channel_vars_are_names(channel: Seq<char>)
    requires
        channel_vars(channel) is Some,
    ensures
        env_name((channel_vars(channel)->0).0),
        env_name((channel_vars(channel)->0).1),
{
    reveal_strlit("OPENRUSTCLAW_CHANNELS__TELEGRAM__TOKEN");
    reveal_strlit("OPENRUSTCLAW_CHANNELS__TELEGRAM__ENABLED");
    reveal_strlit("OPENRUSTCLAW_CHANNELS__DISCORD__TOKEN");
    reveal_strlit("OPENRUSTCLAW_CHANNELS__DISCORD__ENABLED");
    reveal_strlit("OPENRUSTCLAW_CHANNELS__SLACK__TOKEN");
    reveal_strlit("OPENRUSTCLAW_CHANNELS__SLACK__ENABLED");
}

proof fn lemma_decimal_digits(n: nat)
    ensures
        decimal(n).len() > 0,
        forall|j: int| 0 <= j < decimal(n).len() ==> '0' <= #[trigger] decimal(n)[j] && decimal(n)[j] <= '9',
    decreases n,
{
    if n >= 10 {
        lemma_decimal_digits(n / 10);
        let d = decimal(n / 10);
        assert forall|j: int| 0 <= j < decimal(n).len() implies '0' <= #[trigger] decimal(n)[j] && decimal(n)[j] <= '9' by {
            if j < d.len() {
                assert(decimal(n)[j] == d[j]);
            }
        }
    }
}

/// The gateway settings that onboarding saves are the values the runtime's
/// `.env` loader reads: its comment line and final line ending define
/// nothing, and the host, the port and the token secret are read in order.
pub proof fn law_saved_gateway_is_loaded(host: Seq<char>, port: u16, jwt_secret: Seq<char>)
    requires
        plain_value(host),
        plain_value(jwt_secret),
    ensures
        dotenv_entries_of(split_newlines(gateway_env_text(host, port as nat, jwt_secret))) == seq![
            ("OPENRUSTCLAW_GATEWAY__HOST"@, host),
            ("OPENRUSTCLAW_GATEWAY__PORT"@, decimal(port as nat)),
            ("OPENRUSTCLAW_SECURITY__JWT_SECRET"@, jwt_secret),
        ],
        forall|k: int|
            0 <= k < split_newlines(gateway_env_text(host, port as nat, jwt_secret)).len() ==> !lone_quote_line(
                #[trigger] split_newlines(gateway_env_text(host, port as nat, jwt_secret))[k],
            ),
{
    let c = "# OpenRustClaw Configuration - Generated by onboarding wizard"@;
    let hv = "OPENRUSTCLAW_GATEWAY__HOST"@;
    let pv = "OPENRUSTCLAW_GATEWAY__PORT"@;
    let sv = "OPENRUSTCLAW_SECURITY__JWT_SECRET"@;
    let nl = "\n"@;
    let eq = "="@;
    reveal_strlit("# OpenRustClaw Configuration - Generated by onboarding wizard");
    reveal_strlit("OPENRUSTCLAW_GATEWAY__HOST");
    reveal_strlit("OPENRUSTCLAW_GATEWAY__PORT");
    reveal_strlit("OPENRUSTCLAW_SECURITY__JWT_SECRET");
    reveal_strlit("\n");
    reveal_strlit("=");
    reveal_strlit("# OpenRustClaw Configuration - Generated by onboarding wizard\nOPENRUSTCLAW_GATEWAY__HOST=");
    reveal_strlit("\nOPENRUSTCLAW_GATEWAY__PORT=");
    reveal_strlit("\nOPENRUSTCLAW_SECURITY__JWT_SECRET=");
    let dec = decimal(port as nat);
    lemma_decimal_digits(port as nat);
    assert(plain_value(dec)) by {
        assert(!dec.contains('\n')) by {
            if dec.contains('\n') {
                let j = choose|j: int| 0 <= j < dec.len() && dec[j] == '\n';
                assert('0' <= dec[j]);
            }
        }
        assert('0' <= dec[0] && dec[0] <= '9');
        assert('0' <= dec.last() && dec.last() <= '9') by {
            assert(dec.last() == dec[dec.len() - 1]);
        }
    }
    let h = hv + eq + host;
    let p = pv + eq + dec;
    let s = sv + eq + jwt_secret;
    let a1 = c + nl + h;
    let a2 = a1 + nl + p;
    let a3 = a2 + nl + s;
    let e = Seq::<char>::empty();
    assert(gateway_env_text(host, port as nat, jwt_secret) =~= a3 + nl + e);
    // The comment line.
    assert(!c.contains('\n'));
    lemma_split_no_newline(c);
    assert(c[0] == '#');
    lemma_trim_noop(c);
    assert(dotenv_line(c) is None);
    assert(!lone_quote_line(c));
    assert(seq![c].drop_last() =~= Seq::<Seq<char>>::empty());
    assert(seq![c].last() == c);
    assert(dotenv_entries_of(Seq::<Seq<char>>::empty()) == Seq::<(Seq<char>, Seq<char>)>::empty());
    assert(dotenv_entries_of(seq![c]) =~= Seq::<(Seq<char>, Seq<char>)>::empty());
    // The empty piece after the final line ending.
    assert(split_newlines(e) == seq![e]);
    assert(trim_seq(e) =~= e);
    assert(dotenv_line(e) is None);
    assert(!lone_quote_line(e));
    assert(seq![e].drop_last() =~= Seq::<Seq<char>>::empty());
    assert(seq![e].last() == e);
    assert(dotenv_entries_of(seq![e]) =~= Seq::<(Seq<char>, Seq<char>)>::empty());
    // The three settings.
    lemma_single_entry(hv, host);
    lemma_single_entry(pv, dec);
    lemma_single_entry(sv, jwt_secret);
    lemma_split_join(c, h);
    lemma_readable_join(c, h);
    lemma_entries_append(split_newlines(c), split_newlines(h));
    lemma_split_join(a1, p);
    lemma_readable_join(a1, p);
    lemma_entries_append(split_newlines(a1), split_newlines(p));
    lemma_split_join(a2, s);
    lemma_readable_join(a2, s);
    lemma_entries_append(split_newlines(a2), split_newlines(s));
    lemma_split_join(a3, e);
    lemma_readable_join(a3, e);
    lemma_entries_append(split_newlines(a3), split_newlines(e));
    assert(Seq::<(Seq<char>, Seq<char>)>::empty() + seq![(hv, host)] + seq![(pv, dec)] + seq![(sv, jwt_secret)]
        + Seq::<(Seq<char>, Seq<char>)>::empty() =~= seq![(hv, host), (pv, dec), (sv, jwt_secret)]);
}

} // verus!
