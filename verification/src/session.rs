//! Operator session commands: how their arguments are read, and which
//! providers a session reply runs on.

use vstd::prelude::*;

use crate::text::{str_eq, strs, to_lowercase, unicode_lowercase};

verus! {

/// The lifecycle state of a session.
#[derive(PartialEq, Eq, Structural, Clone, Copy, Debug)]
pub enum SessionStatusKind {
    Active,
    Archived,
    Closed,
}

/// The kind of conversation a session holds.
#[derive(PartialEq, Eq, Structural, Clone, Copy, Debug)]
pub enum SessionKind {
    Dm,
    Group,
    Isolated,
}

/// The platform a session runs on.
#[derive(PartialEq, Eq, Structural, Clone, Copy, Debug)]
pub enum SessionPlatform {
    Telegram,
    Discord,
    Slack,
    Cli,
    Api,
    WebChat,
}

/// The status an operator names, compared in lower case.
pub open spec fn status_named(lower: Seq<char>) -> Option<SessionStatusKind> {
    if lower == "active"@ {
        Some(SessionStatusKind::Active)
    } else if lower == "archived"@ {
        Some(SessionStatusKind::Archived)
    } else if lower == "closed"@ {
        Some(SessionStatusKind::Closed)
    } else {
        None
    }
}

/// The status named by `value`, in any case; `None` for an unknown name.
pub fn parse_status(value: &str) -> (r: Option<SessionStatusKind>)
    ensures
        r == status_named(unicode_lowercase(value@)),
{
    let lowered = to_lowercase(value);
    let v = lowered.as_str();
    if str_eq(v, "active") {
        Some(SessionStatusKind::Active)
    } else if str_eq(v, "archived") {
        Some(SessionStatusKind::Archived)
    } else if str_eq(v, "closed") {
        Some(SessionStatusKind::Closed)
    } else {
        None
    }
}

/// The label of a status.
pub fn status_label(s: SessionStatusKind) -> (r: &'static str)
    ensures
        r@ == match s {
            SessionStatusKind::Active => "active"@,
            SessionStatusKind::Archived => "archived"@,
            SessionStatusKind::Closed => "closed"@,
        },
{
    match s {
        SessionStatusKind::Active => "active",
        SessionStatusKind::Archived => "archived",
        SessionStatusKind::Closed => "closed",
    }
}

/// The kind an operator names, compared in lower case: a direct message
/// unless `group` or `isolated`.
pub open spec fn kind_named(lower: Seq<char>) -> SessionKind {
    if lower == "group"@ {
        SessionKind::Group
    } else if lower == "isolated"@ {
        SessionKind::Isolated
    } else {
        SessionKind::Dm
    }
}

/// The session kind named by `value`, in any case.
pub fn parse_session_type(value: &str) -> (r: SessionKind)
    ensures
        r == kind_named(unicode_lowercase(value@)),
{
    let lowered = to_lowercase(value);
    let v = lowered.as_str();
    if str_eq(v, "group") {
        SessionKind::Group
    } else if str_eq(v, "isolated") {
        SessionKind::Isolated
    } else {
        SessionKind::Dm
    }
}

/// The label of a session kind.
pub fn session_type_label(k: SessionKind) -> (r: &'static str)
    ensures
        r@ == match k {
            SessionKind::Dm => "dm"@,
            SessionKind::Group => "group"@,
            SessionKind::Isolated => "isolated"@,
        },
{
    match k {
        SessionKind::Dm => "dm",
        SessionKind::Group => "group",
        SessionKind::Isolated => "isolated",
    }
}

/// The platform an operator names, compared in lower case: the web chat
/// unless one of the others.
pub open spec fn platform_named(lower: Seq<char>) -> SessionPlatform {
    if lower == "telegram"@ {
        SessionPlatform::Telegram
    } else if lower == "discord"@ {
        SessionPlatform::Discord
    } else if lower == "slack"@ {
        SessionPlatform::Slack
    } else if lower == "cli"@ {
        SessionPlatform::Cli
    } else if lower == "api"@ {
        SessionPlatform::Api
    } else {
        SessionPlatform::WebChat
    }
}

/// The platform named by `value`, in any case.
pub fn parse_platform(value: &str) -> (r: SessionPlatform)
    ensures
        r == platform_named(unicode_lowercase(value@)),
{
    let lowered = to_lowercase(value);
    let v = lowered.as_str();
    if str_eq(v, "telegram") {
        SessionPlatform::Telegram
    } else if str_eq(v, "discord") {
        SessionPlatform::Discord
    } else if str_eq(v, "slack") {
        SessionPlatform::Slack
    } else if str_eq(v, "cli") {
        SessionPlatform::Cli
    } else if str_eq(v, "api") {
        SessionPlatform::Api
    } else {
        SessionPlatform::WebChat
    }
}

/// The status a closed session takes, with its label: archived or closed.
pub fn close_status(archive: bool) -> (r: (SessionStatusKind, &'static str))
    ensures
        archive ==> r.0 == SessionStatusKind::Archived && r.1@ == "archived"@,
        !archive ==> r.0 == SessionStatusKind::Closed && r.1@ == "closed"@,
{
    if archive {
        (SessionStatusKind::Archived, "archived")
    } else {
        (SessionStatusKind::Closed, "closed")
    }
}

// ---------------------------------------------------------------------
// The providers of a session reply

/// The providers a session reply tries, in order, each once: the default
/// provider, then its fallbacks.
pub fn session_provider_names(default_provider: &str, fallback_chain: &Vec<String>) -> (r: Vec<String>)
    ensures
        strs(r@) == crate::runtime::first_occurrences(seq![default_provider@] + strs(fallback_chain@)),
{
    let mut all: Vec<String> = Vec::new();
    all.push(crate::text::owned(default_provider));
    let mut more = crate::text::clone_strings(fallback_chain);
    let ghost first = strs(all@);
    all.append(&mut more);
    assert(strs(all@) =~= first + strs(fallback_chain@));
    assert(first =~= seq![default_provider@]);
    crate::runtime::dedup_in_order(&all)
}

/// Which providers a session reply runs on, from whether each of `names`
/// could be set up (`failures[i]` holds the error of `names[i]`): the
/// error of the first provider that fails before any was set up ends the
/// reply; failures after that are skipped.
pub open spec fn session_chain_spec(failures: Seq<Option<Seq<char>>>) -> Result<Seq<int>, Seq<char>>
    decreases failures.len(),
{
    if failures.len() == 0 {
        Ok(seq![])
    } else {
        match session_chain_spec(failures.drop_last()) {
            Err(e) => Err(e),
            Ok(kept) => match failures.last() {
                None => Ok(kept.push(failures.len() - 1)),
                Some(e) => if kept.len() == 0 {
                    Err(e)
                } else {
                    Ok(kept)
                },
            },
        }
    }
}

/// The positions of the providers a session reply chains, the first being
/// its primary; the error that ends the reply otherwise, including when
/// no provider was named at all.
pub fn session_provider_chain(failures: &Vec<Option<String>>) -> (r: Result<Vec<usize>, String>)
    ensures
        match session_chain_spec(crate::models::failure_views(failures@)) {
            Err(e) => r matches Err(m) && m@ == e,
            Ok(kept) => if kept.len() == 0 {
                r matches Err(m) && m@ == "No providers could be initialized for session send"@
            } else {
                r matches Ok(v) && v@.map_values(|i: usize| i as int) == kept
            },
        },
{
    let ghost fv = crate::models::failure_views(failures@);
    let mut kept: Vec<usize> = Vec::new();
    let mut i: usize = 0;
    assert(fv.take(0) =~= Seq::<Option<Seq<char>>>::empty());
    assert(kept@.map_values(|k: usize| k as int) =~= Seq::<int>::empty());
    while i < failures.len()
        invariant
            i <= failures@.len(),
            fv == crate::models::failure_views(failures@),
            session_chain_spec(fv.take(i as int)) == Ok::<Seq<int>, Seq<char>>(kept@.map_values(|k: usize| k as int)),
        decreases failures@.len() - i,
    {
        assert(fv.take(i + 1).drop_last() =~= fv.take(i as int));
        match &failures[i] {
            None => {
                let ghost before = kept@;
                kept.push(i);
                assert(kept@.map_values(|k: usize| k as int) =~= before.map_values(|k: usize| k as int).push(i as int));
            },
            Some(e) => {
                if kept.len() == 0 {
                    proof {
                        lemma_chain_error_stays(fv, i as int + 1, e@);
                    }
                    assert(fv.take(failures@.len() as int) =~= fv);
                    return Err(e.clone());
                }
            },
        }
        i = i + 1;
    }
    assert(fv.take(failures@.len() as int) =~= fv);
    if kept.len() == 0 {
        return Err(crate::text::owned("No providers could be initialized for session send"));
    }
    Ok(kept)
}

proof fn lemma_chain_error_stays(f: Seq<Option<Seq<char>>>, n: int, e: Seq<char>)
    requires
        0 <= n <= f.len(),
        session_chain_spec(f.take(n)) == Err::<Seq<int>, Seq<char>>(e),
    ensures
        session_chain_spec(f) == Err::<Seq<int>, Seq<char>>(e),
    decreases f.len() - n,
{
    if n < f.len() {
        assert(f.take(n + 1).drop_last() =~= f.take(n));
        lemma_chain_error_stays(f, n + 1, e);
    } else {
        assert(f.take(n) =~= f);
    }
}

} // verus!
