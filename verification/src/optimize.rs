//! Optimization commands: evaluation specs given on the command line and
//! the errors of enumerated arguments.

use vstd::prelude::*;

use crate::text::{concat3, owned, strs};

verus! {

/// The words POSIX shell quoting splits a command into, as `shlex::split`
/// gives them; `None` for an unterminated quote or a trailing backslash.
pub uninterp spec fn shlex_words(command: Seq<char>) -> Option<Seq<Seq<char>>>;

/// `shlex::split`.
#[verifier::external_body]
fn shell_split(command: &str) -> (r: Option<Vec<String>>)
    ensures
        match r {
            Some(v) => shlex_words(command@) == Some(strs(v@)),
            None => shlex_words(command@) is None,
        },
{
    shlex::split(command)
}

/// An evaluation that a candidate run is scored by: a command run with a
/// five-minute timeout.
pub struct EvaluationSpec {
    pub name: String,
    pub program: String,
    pub args: Vec<String>,
    pub timeout_secs: Option<u64>,
}

/// The parse of one `name=command` evaluation: its name, program and
/// arguments, or the message that refuses it.
pub open spec fn eval_parse(spec: Seq<char>) -> Result<(Seq<char>, Seq<char>, Seq<Seq<char>>), Seq<char>> {
    match crate::runtime::char_position(spec, '=') {
        None => Err("invalid eval '"@ + spec + "': expected name=command"@),
        Some(i) => {
            let name = spec.take(i as int);
            let command = spec.skip(i as int + 1);
            match shlex_words(command) {
                None => Err("invalid shell command '"@ + command + "'"@),
                Some(words) => if words.len() == 0 {
                    Err("empty eval command for '"@ + name + "'"@)
                } else {
                    Ok((name, words[0], words.skip(1)))
                },
            }
        },
    }
}

/// An evaluation as parsed from its spec.
pub open spec fn eval_fits(e: EvaluationSpec, parsed: (Seq<char>, Seq<char>, Seq<Seq<char>>)) -> bool {
    &&& e.name@ == parsed.0
    &&& e.program@ == parsed.1
    &&& strs(e.args@) == parsed.2
    &&& e.timeout_secs == Some(300u64)
}

fn chars_range(v: &Vec<char>, a: usize, b: usize) -> (r: String)
    requires
        a <= b <= v@.len(),
    ensures
        r@ == v@.subrange(a as int, b as int),
{
    let mut out: Vec<char> = Vec::new();
    let mut k: usize = a;
    while k < b
        invariant
            a <= k <= b <= v@.len(),
            out@ == v@.subrange(a as int, k as int),
        decreases b - k,
    {
        out.push(v[k]);
        assert(v@.subrange(a as int, k + 1) =~= v@.subrange(a as int, k as int).push(v@[k as int]));
        k = k + 1;
    }
    crate::text::string_from_chars(&out)
}

fn first_equals(v: &Vec<char>) -> (r: Option<usize>)
    ensures
        r matches Some(i) ==> crate::runtime::char_position(v@, '=') == Some(i as nat) && i < v@.len(),
        r is None ==> crate::runtime::char_position(v@, '=') is None,
{
    let mut i: usize = 0;
    assert(v@.skip(0) =~= v@);
    while i < v.len()
        invariant
            i <= v.len(),
            crate::runtime::char_position(v@, '=') == match crate::runtime::char_position(v@.skip(i as int), '=') {
                Some(k) => Some((k + i) as nat),
                None => None::<nat>,
            },
        decreases v.len() - i,
    {
        assert(v@.skip(i as int).drop_first() =~= v@.skip(i + 1));
        if v[i] == '=' {
            return Some(i);
        }
        i = i + 1;
    }
    None
}

/// Parses one `name=command` evaluation.
pub fn parse_eval_spec(spec: &str) -> (r: Result<EvaluationSpec, String>)
    ensures
        match eval_parse(spec@) {
            Ok(parsed) => r matches Ok(e) && eval_fits(e, parsed),
            Err(m) => r matches Err(e) && e@ == m,
        },
{
    let v = crate::text::chars_of(spec);
    let i = match first_equals(&v) {
        Some(i) => i,
        None => {
            return Err(concat3("invalid eval '", spec, "': expected name=command"));
        },
    };
    assert(v@.len() == v.len());
    let name = chars_range(&v, 0, i);
    let command = chars_range(&v, i + 1, v.len());
    assert(name@ =~= spec@.take(i as int));
    assert(command@ =~= spec@.skip(i as int + 1));
    let mut parts = match shell_split(command.as_str()) {
        Some(p) => p,
        None => {
            return Err(concat3("invalid shell command '", command.as_str(), "'"));
        },
    };
    if parts.len() == 0 {
        return Err(concat3("empty eval command for '", name.as_str(), "'"));
    }
    let ghost words = strs(parts@);
    let program = parts.remove(0);
    assert(strs(parts@) =~= words.skip(1));
    Ok(EvaluationSpec { name, program, args: parts, timeout_secs: Some(300) })
}

/// The index of the first spec that does not parse, if any.
pub open spec fn first_bad_spec(specs: Seq<Seq<char>>, i: int) -> bool {
    0 <= i < specs.len() && eval_parse(specs[i]) is Err && forall|k: int| 0 <= k < i ==> eval_parse(specs[k]) is Ok
}

/// Parses the `name=command` evaluations of a candidate run, in order;
/// the first that does not parse refuses them all.
pub fn parse_eval_specs(raw_specs: &Vec<String>) -> (r: Result<Vec<EvaluationSpec>, String>)
    ensures
        r matches Ok(v) ==> v@.len() == raw_specs@.len() && forall|k: int|
            0 <= k < raw_specs@.len() ==> (eval_parse(#[trigger] raw_specs@[k]@) matches Ok(parsed) && eval_fits(v@[k], parsed)),
        r is Err <==> exists|i: int| first_bad_spec(strs(raw_specs@), i),
        r matches Err(e) ==> exists|i: int|
            first_bad_spec(strs(raw_specs@), i) && eval_parse(strs(raw_specs@)[i]) == Err::<
                (Seq<char>, Seq<char>, Seq<Seq<char>>),
                Seq<char>,
            >(e@),
{
    let mut out: Vec<EvaluationSpec> = Vec::new();
    let mut i: usize = 0;
    while i < raw_specs.len()
        invariant
            i <= raw_specs@.len(),
            out@.len() == i,
            forall|k: int| 0 <= k < i ==> (eval_parse(#[trigger] raw_specs@[k]@) matches Ok(parsed) && eval_fits(out@[k], parsed)),
        decreases raw_specs@.len() - i,
    {
        match parse_eval_spec(raw_specs[i].as_str()) {
            Ok(e) => {
                out.push(e);
            },
            Err(e) => {
                proof {
                    assert(strs(raw_specs@)[i as int] == raw_specs@[i as int]@);
                    assert forall|k: int| 0 <= k < i implies eval_parse(#[trigger] strs(raw_specs@)[k]) is Ok by {
                        assert(strs(raw_specs@)[k] == raw_specs@[k]@);
                    }
                    assert(first_bad_spec(strs(raw_specs@), i as int));
                }
                return Err(e);
            },
        }
        i = i + 1;
    }
    proof {
        assert forall|j: int| !first_bad_spec(strs(raw_specs@), j) by {
            if 0 <= j < raw_specs@.len() {
                assert(strs(raw_specs@)[j] == raw_specs@[j]@);
            }
        }
    }
    Ok(out)
}

/// The message of an enumerated argument that names no variant.
pub open spec fn invalid_value_message(label: Seq<char>, raw: Seq<char>, reason: Seq<char>) -> Seq<char> {
    "invalid "@ + label + " '"@ + raw + "': "@ + reason
}

/// An enumerated argument as parsed: the variant, or the parse error with
/// the argument's label and text.
pub fn parse_enum<T>(parsed: Result<T, String>, raw: &str, label: &str) -> (r: Result<T, String>)
    ensures
        parsed matches Ok(v) ==> r == Ok::<T, String>(v),
        parsed matches Err(e) ==> (r matches Err(m) && m@ == invalid_value_message(label@, raw@, e@)),
{
    match parsed {
        Ok(v) => Ok(v),
        Err(e) => {
            let head = concat3("invalid ", label, " '");
            let mid = concat3(head.as_str(), raw, "': ");
            Err(crate::text::concat2(mid.as_str(), e.as_str()))
        },
    }
}

} // verus!
