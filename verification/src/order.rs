//! Lexicographic order on strings (the order of `str::cmp`) and sorting.
//!
//! `str` compares by its UTF-8 bytes, which orders strings exactly as their
//! characters compare by code point; `lex_le` states that order on `Seq<char>`.

use vstd::prelude::*;

use crate::text::{chars_of, strs};

verus! {

/// `a <= b` in the order of `str::cmp`.
pub open spec fn lex_le(a: Seq<char>, b: Seq<char>) -> bool
    decreases a.len(),
{
    if a.len() == 0 {
        true
    } else if b.len() == 0 {
        false
    } else if a[0] < b[0] {
        true
    } else if a[0] > b[0] {
        false
    } else {
        lex_le(a.drop_first(), b.drop_first())
    }
}

/// `a < b` in the order of `str::cmp`.
pub open spec fn lex_lt(a: Seq<char>, b: Seq<char>) -> bool {
    lex_le(a, b) && a != b
}

/// A sequence that strictly increases: sorted, with no element twice.
pub open spec fn sorted_strict(s: Seq<Seq<char>>) -> bool {
    forall|i: int, j: int| 0 <= i < j < s.len() ==> lex_lt(#[trigger] s[i], #[trigger] s[j])
}

pub proof fn lemma_lex_refl(a: Seq<char>)
    ensures
        lex_le(a, a),
    decreases a.len(),
{
    if a.len() > 0 {
        lemma_lex_refl(a.drop_first());
    }
}

pub proof fn lemma_lex_total(a: Seq<char>, b: Seq<char>)
    ensures
        lex_le(a, b) || lex_le(b, a),
    decreases a.len(),
{
    if a.len() > 0 && b.len() > 0 && a[0] == b[0] {
        lemma_lex_total(a.drop_first(), b.drop_first());
    }
}

pub proof fn lemma_lex_antisym(a: Seq<char>, b: Seq<char>)
    requires
        lex_le(a, b),
        lex_le(b, a),
    ensures
        a == b,
    decreases a.len(),
{
    if a.len() > 0 && b.len() > 0 {
        assert(a[0] == b[0]);
        lemma_lex_antisym(a.drop_first(), b.drop_first());
        assert(a =~= seq![a[0]] + a.drop_first());
        assert(b =~= seq![b[0]] + b.drop_first());
    } else if a.len() == 0 && b.len() == 0 {
        assert(a =~= b);
    }
}

pub proof fn lemma_lex_trans(a: Seq<char>, b: Seq<char>, c: Seq<char>)
    requires
        lex_le(a, b),
        lex_le(b, c),
    ensures
        lex_le(a, c),
    decreases a.len(),
{
    if a.len() > 0 && b.len() > 0 && c.len() > 0 && a[0] == b[0] && b[0] == c[0] {
        lemma_lex_trans(a.drop_first(), b.drop_first(), c.drop_first());
    }
}

pub proof fn lemma_lex_lt_trans(a: Seq<char>, b: Seq<char>, c: Seq<char>)
    requires
        lex_lt(a, b),
        lex_le(b, c),
    ensures
        lex_lt(a, c),
{
    lemma_lex_trans(a, b, c);
    if a == c {
        lemma_lex_antisym(a, b);
    }
}

pub proof fn lemma_lex_le_lt_trans(a: Seq<char>, b: Seq<char>, c: Seq<char>)
    requires
        lex_le(a, b),
        lex_lt(b, c),
    ensures
        lex_lt(a, c),
{
    lemma_lex_trans(a, b, c);
    if a == c {
        lemma_lex_antisym(b, c);
    }
}

proof fn lemma_lex_step(a: Seq<char>, b: Seq<char>, i: int)
    requires
        0 <= i < a.len(),
        i < b.len(),
        a[i] == b[i],
    ensures
        lex_le(a.skip(i), b.skip(i)) == lex_le(a.skip(i + 1), b.skip(i + 1)),
{
    assert(a.skip(i).drop_first() =~= a.skip(i + 1));
    assert(b.skip(i).drop_first() =~= b.skip(i + 1));
}

proof fn lemma_push_to_set(s: Seq<Seq<char>>, e: Seq<char>)
    ensures
        s.push(e).to_set() == s.to_set().insert(e),
{
    assert forall|x: Seq<char>| s.push(e).to_set().contains(x) <==> s.to_set().insert(e).contains(
        x,
    ) by {
        if s.push(e).to_set().contains(x) {
            let k = choose|k: int| 0 <= k < s.push(e).len() && s.push(e)[k] == x;
            if k < s.len() {
                assert(s[k] == x);
            }
        }
        if s.to_set().contains(x) {
            let k = choose|k: int| 0 <= k < s.len() && s[k] == x;
            assert(s.push(e)[k] == x);
        }
        if x == e {
            assert(s.push(e)[s.len() as int] == x);
        }
    }
    assert(s.push(e).to_set() =~= s.to_set().insert(e));
}

/// `a <= b` in the order of `str::cmp`.
pub fn str_le(a: &str, b: &str) -> (r: bool)
    ensures
        r == lex_le(a@, b@),
{
    let x = chars_of(a);
    let y = chars_of(b);
    let mut i: usize = 0;
    assert(x@.skip(0) =~= x@);
    assert(y@.skip(0) =~= y@);
    while i < x.len() && i < y.len() && x[i] == y[i]
        invariant
            x@ == a@,
            y@ == b@,
            i <= x.len(),
            i <= y.len(),
            lex_le(a@, b@) == lex_le(x@.skip(i as int), y@.skip(i as int)),
        decreases x.len() - i,
    {
        proof {
            lemma_lex_step(x@, y@, i as int);
        }
        i = i + 1;
    }
    proof {
        if i < x.len() {
            assert(x@.skip(i as int)[0] == x@[i as int]);
        }
        if i < y.len() {
            assert(y@.skip(i as int)[0] == y@[i as int]);
        }
    }
    if i == x.len() {
        true
    } else if i == y.len() {
        false
    } else {
        let xc = x[i];
        let yc = y[i];
        assert(xc != yc);
        let ghost xs = x@.skip(i as int);
        let ghost ys = y@.skip(i as int);
        assert(xs.len() > 0 && ys.len() > 0 && xs[0] == xc && ys[0] == yc);
        xc < yc
    }
}

/// `a < b` in the order of `str::cmp`.
pub fn str_lt(a: &str, b: &str) -> (r: bool)
    ensures
        r == lex_lt(a@, b@),
{
    let le = str_le(a, b);
    if !le {
        return false;
    }
    let ge = str_le(b, a);
    if ge {
        proof {
            lemma_lex_antisym(a@, b@);
        }
        false
    } else {
        proof {
            if a@ == b@ {
                lemma_lex_refl(a@);
            }
        }
        true
    }
}

/// The first index of a strictly sorted vector whose element is not below `x`.
fn lower_bound(v: &Vec<String>, x: &str) -> (r: usize)
    requires
        sorted_strict(strs(v@)),
    ensures
        r <= v.len(),
        forall|k: int| 0 <= k < r ==> lex_lt(#[trigger] v@[k]@, x@),
        r < v.len() ==> lex_le(x@, v@[r as int]@),
{
    let mut i: usize = 0;
    while i < v.len() && str_lt(v[i].as_str(), x)
        invariant
            i <= v.len(),
            forall|k: int| 0 <= k < i ==> lex_lt(#[trigger] v@[k]@, x@),
        decreases v.len() - i,
    {
        i = i + 1;
    }
    if i < v.len() {
        proof {
            lemma_lex_total(x@, v@[i as int]@);
        }
    }
    i
}

/// The distinct elements of `v` in increasing order (`sort` then `dedup`).
pub fn sort_dedup(v: Vec<String>) -> (r: Vec<String>)
    ensures
        sorted_strict(strs(r@)),
        strs(r@).to_set() == strs(v@).to_set(),
{
    let mut out: Vec<String> = Vec::new();
    let mut i: usize = 0;
    while i < v.len()
        invariant
            i <= v.len(),
            sorted_strict(strs(out@)),
            strs(out@).to_set() == strs(v@.subrange(0, i as int)).to_set(),
        decreases v.len() - i,
    {
        let x = v[i].clone();
        let pos = lower_bound(&out, x.as_str());
        let ghost before = strs(out@);
        assert(strs(v@.subrange(0, i + 1)) =~= strs(v@.subrange(0, i as int)).push(x@));
        proof {
            lemma_push_to_set(strs(v@.subrange(0, i as int)), x@);
        }
        if pos < out.len() && crate::text::str_eq(out[pos].as_str(), x.as_str()) {
            assert(before.to_set().contains(x@)) by {
                assert(before[pos as int] == x@);
            }
            assert(strs(v@.subrange(0, i + 1)).to_set() =~= before.to_set());
        } else {
            out.insert(pos, x);
            proof {
                let after = strs(out@);
                assert(after =~= before.insert(pos as int, x@));
                assert forall|a: int, b: int| 0 <= a < b < after.len() implies lex_lt(
                    #[trigger] after[a],
                    #[trigger] after[b],
                ) by {
                    if b < pos {
                        assert(after[a] == before[a] && after[b] == before[b]);
                    } else if b == pos {
                        assert(after[a] == before[a]);
                    } else if a == pos {
                        assert(after[b] == before[b - 1]);
                        if b - 1 > pos {
                            assert(lex_lt(before[pos as int], before[b - 1]));
                            lemma_lex_le_lt_trans(x@, before[pos as int], before[b - 1]);
                        } else {
                            assert(lex_le(x@, before[pos as int]));
                        }
                    } else if a < pos {
                        assert(after[a] == before[a] && after[b] == before[b - 1]);
                        assert(lex_lt(before[a], x@));
                        if pos < before.len() {
                            assert(lex_le(x@, before[pos as int]));
                            lemma_lex_lt_trans(before[a], x@, before[pos as int]);
                            if b - 1 > pos {
                                lemma_lex_lt_trans(before[a], before[pos as int], before[b - 1]);
                            }
                        }
                    } else {
                        assert(after[a] == before[a - 1] && after[b] == before[b - 1]);
                    }
                }
                assert(after.to_set() =~= before.to_set().insert(x@)) by {
                    assert forall|e: Seq<char>| after.to_set().contains(e) <==> before.to_set().insert(
                        x@,
                    ).contains(e) by {
                        if after.to_set().contains(e) {
                            let k = choose|k: int| 0 <= k < after.len() && after[k] == e;
                            if k < pos {
                                assert(before[k] == e);
                            } else if k > pos {
                                assert(before[k - 1] == e);
                            }
                        }
                        if before.to_set().contains(e) {
                            let k = choose|k: int| 0 <= k < before.len() && before[k] == e;
                            if k < pos {
                                assert(after[k] == e);
                            } else {
                                assert(after[k + 1] == e);
                            }
                        }
                        if e == x@ {
                            assert(after[pos as int] == e);
                        }
                    }
                }
                assert(strs(v@.subrange(0, i + 1)).to_set() =~= strs(
                    v@.subrange(0, i as int),
                ).to_set().insert(x@));
            }
        }
        i = i + 1;
    }
    assert(v@.subrange(0, v.len() as int) =~= v@);
    out
}


/// Strings in non-decreasing order.
pub open spec fn sorted_le(s: Seq<Seq<char>>) -> bool {
    forall|i: int, j: int| 0 <= i < j < s.len() ==> lex_le(#[trigger] s[i], #[trigger] s[j])
}

/// The first index of a sorted vector whose element is above `x`.
fn upper_bound(v: &Vec<String>, x: &str) -> (r: usize)
    requires
        sorted_le(strs(v@)),
    ensures
        r <= v@.len(),
        forall|k: int| 0 <= k < r ==> lex_le(#[trigger] v@[k]@, x@),
        forall|k: int| r <= k < v@.len() ==> lex_le(x@, #[trigger] v@[k]@),
{
    let mut i: usize = 0;
    while i < v.len() && str_le(v[i].as_str(), x)
        invariant
            i <= v@.len(),
            forall|k: int| 0 <= k < i ==> lex_le(#[trigger] v@[k]@, x@),
        decreases v@.len() - i,
    {
        i = i + 1;
    }
    proof {
        if i < v@.len() {
            lemma_lex_total(x@, v@[i as int]@);
            assert forall|k: int| i <= k < v@.len() implies lex_le(x@, #[trigger] v@[k]@) by {
                if k > i {
                    assert(lex_le(strs(v@)[i as int], strs(v@)[k]));
                    lemma_lex_trans(x@, v@[i as int]@, v@[k]@);
                }
            }
        }
    }
    i
}

/// `v` in non-decreasing order (`sort`).
pub fn sort_strings(v: Vec<String>) -> (r: Vec<String>)
    ensures
        sorted_le(strs(r@)),
        strs(r@).to_multiset() == strs(v@).to_multiset(),
{
    broadcast use vstd::seq_lib::group_to_multiset_ensures;

    let ghost original = strs(v@);
    let mut rest = v;
    let mut sorted: Vec<String> = Vec::new();
    while rest.len() > 0
        invariant
            strs(sorted@).to_multiset().add(strs(rest@).to_multiset()) == original.to_multiset(),
            sorted_le(strs(sorted@)),
        decreases rest@.len(),
    {
        let ghost before_rest = strs(rest@);
        let ghost before_sorted = strs(sorted@);
        let e = rest.pop().unwrap();
        assert(before_rest =~= strs(rest@).push(e@));
        let p = upper_bound(&sorted, e.as_str());
        sorted.insert(p, e);
        proof {
            broadcast use vstd::multiset::group_multiset_axioms;

            assert(strs(sorted@) =~= before_sorted.insert(p as int, e@));
            vstd::seq_lib::to_multiset_insert(before_sorted, p as int, e@);
            vstd::seq_lib::to_multiset_build(strs(rest@), e@);
            assert(strs(sorted@).to_multiset().add(strs(rest@).to_multiset()) =~= before_sorted.to_multiset().add(
                before_rest.to_multiset(),
            ));
            assert forall|a: int, b: int| 0 <= a < b < sorted@.len() implies lex_le(
                #[trigger] strs(sorted@)[a],
                #[trigger] strs(sorted@)[b],
            ) by {
                let s = strs(sorted@);
                if a < p && b < p {
                    assert(s[a] == before_sorted[a] && s[b] == before_sorted[b]);
                } else if a < p && b == p {
                    assert(s[a] == before_sorted[a]);
                } else if a < p && b > p {
                    assert(s[a] == before_sorted[a] && s[b] == before_sorted[b - 1]);
                    assert(lex_le(before_sorted[a], before_sorted[b - 1]));
                } else if a == p {
                    assert(s[b] == before_sorted[b - 1]);
                } else {
                    assert(s[a] == before_sorted[a - 1] && s[b] == before_sorted[b - 1]);
                }
            }
        }
    }
    proof {
        broadcast use vstd::multiset::group_multiset_axioms;

        assert(strs(rest@) =~= Seq::<Seq<char>>::empty());
        assert(strs(sorted@).to_multiset() =~= original.to_multiset());
    }
    sorted
}

// ---------------------------------------------------------------------
// Records ordered by a time stamp

/// A record that carries a time stamp in sortable text form.
pub trait Stamped: Sized {
    /// The time stamp.
    spec fn stamp(&self) -> Seq<char>;

    /// The time stamp, to compare in code.
    fn stamp_str(&self) -> (r: &str)
        ensures
            r@ == self.stamp(),
    ;
}

/// Records in order of their stamps, newest (greatest) first.
pub open spec fn newest_first_by<T: Stamped>(s: Seq<T>) -> bool {
    forall|i: int, j: int| 0 <= i < j < s.len() ==> lex_le(#[trigger] s[j].stamp(), #[trigger] s[i].stamp())
}

/// The records of `s` stamped `st`, in their order in `s`.
pub open spec fn with_stamp<T: Stamped>(s: Seq<T>, st: Seq<char>) -> Seq<T> {
    s.filter(stamped::<T>(st))
}

/// Whether a record is stamped `st`.
pub open spec fn stamped<T: Stamped>(st: Seq<char>) -> spec_fn(T) -> bool {
    |x: T| x.stamp() == st
}

/// Records with equal stamps come in `r` in the order they have in `v`.
pub open spec fn equal_stamps_keep_order<T: Stamped>(r: Seq<T>, v: Seq<T>) -> bool {
    forall|st: Seq<char>| #[trigger] with_stamp(r, st) == with_stamp(v, st)
}

/// No record of `s` is stamped `st` when all are strictly newer.
proof fn lemma_with_stamp_none<T: Stamped>(s: Seq<T>, st: Seq<char>)
    requires
        forall|j: int| 0 <= j < s.len() ==> lex_lt(st, #[trigger] s[j].stamp()),
    ensures
        with_stamp(s, st) == Seq::<T>::empty(),
{
    let f = with_stamp(s, st);
    if f.len() > 0 {
        s.filter_lemma(stamped::<T>(st));
        assert(f[0].stamp() == st);
        assert(f.contains(f[0]));
        s.lemma_filter_contains_rev(stamped::<T>(st), f[0]);
        let j = choose|j: int| 0 <= j < s.len() && s[j] == f[0];
        assert(lex_lt(st, s[j].stamp()));
    }
    assert(f =~= Seq::<T>::empty());
}

/// Inserting a record after every strictly newer one puts it first among
/// the records of its stamp.
proof fn lemma_with_stamp_insert<T: Stamped>(s: Seq<T>, p: int, e: T, st: Seq<char>)
    requires
        0 <= p <= s.len(),
        forall|j: int| 0 <= j < p ==> lex_lt(e.stamp(), #[trigger] s[j].stamp()),
    ensures
        with_stamp(s.insert(p, e), st) == (if e.stamp() == st {
            seq![e]
        } else {
            Seq::<T>::empty()
        }) + with_stamp(s, st),
{
    let pred = stamped::<T>(st);
    let a = s.take(p);
    let b = s.skip(p);
    assert(s.insert(p, e) =~= a + (seq![e] + b));
    assert(s =~= a + b);
    Seq::filter_distributes_over_add(a, seq![e] + b, pred);
    Seq::filter_distributes_over_add(a, b, pred);
    b.lemma_filter_prepend(e, pred);
    if e.stamp() == st {
        assert forall|j: int| 0 <= j < a.len() implies lex_lt(st, #[trigger] a[j].stamp()) by {
            assert(a[j] == s[j]);
        }
        lemma_with_stamp_none(a, st);
        assert(a.filter(pred) =~= Seq::<T>::empty());
        assert(seq![e] + b.filter(pred) =~= Seq::<T>::empty() + (seq![e] + b.filter(pred)));
    } else {
        assert(Seq::<T>::empty() + b.filter(pred) =~= b.filter(pred));
        assert(Seq::<T>::empty() + (a.filter(pred) + b.filter(pred)) =~= a.filter(pred) + b.filter(pred));
    }
}

/// Where a record goes among records sorted newest first: after every
/// strictly newer one.
fn newest_position<T: Stamped>(sorted: &Vec<T>, e: &T) -> (r: usize)
    requires
        newest_first_by(sorted@),
    ensures
        r <= sorted@.len(),
        forall|j: int| 0 <= j < r ==> lex_lt(e.stamp(), #[trigger] sorted@[j].stamp()),
        forall|j: int| r <= j < sorted@.len() ==> lex_le(#[trigger] sorted@[j].stamp(), e.stamp()),
{
    let mut i: usize = 0;
    while i < sorted.len() && str_lt(e.stamp_str(), sorted[i].stamp_str())
        invariant
            i <= sorted@.len(),
            forall|j: int| 0 <= j < i ==> lex_lt(e.stamp(), #[trigger] sorted@[j].stamp()),
        decreases sorted@.len() - i,
    {
        i = i + 1;
    }
    proof {
        if i < sorted@.len() {
            lemma_lex_total(e.stamp(), sorted@[i as int].stamp());
            assert forall|j: int| i <= j < sorted@.len() implies lex_le(#[trigger] sorted@[j].stamp(), e.stamp()) by {
                if j > i {
                    assert(lex_le(sorted@[j].stamp(), sorted@[i as int].stamp()));
                    lemma_lex_trans(sorted@[j].stamp(), sorted@[i as int].stamp(), e.stamp());
                }
            }
        }
    }
    i
}

/// The records of `v`, newest first.
pub fn sort_newest_first<T: Stamped>(v: Vec<T>) -> (r: Vec<T>)
    ensures
        r@.to_multiset() == v@.to_multiset(),
        newest_first_by(r@),
        equal_stamps_keep_order(r@, v@),
{
    broadcast use vstd::seq_lib::group_to_multiset_ensures;

    let ghost original = v@;
    let mut rest = v;
    let mut sorted: Vec<T> = Vec::new();
    assert(original.take(original.len() as int) =~= original);
    assert(original.skip(original.len() as int) =~= sorted@);
    while rest.len() > 0
        invariant
            sorted@.to_multiset().add(rest@.to_multiset()) == original.to_multiset(),
            newest_first_by(sorted@),
            rest@.len() <= original.len(),
            rest@ == original.take(rest@.len() as int),
            equal_stamps_keep_order(sorted@, original.skip(rest@.len() as int)),
        decreases rest@.len(),
    {
        let ghost before_rest = rest@;
        let ghost before_sorted = sorted@;
        let e = rest.pop().unwrap();
        assert(before_rest =~= rest@.push(e));
        let p = newest_position(&sorted, &e);
        sorted.insert(p, e);
        proof {
            let k = rest@.len() as int;
            assert(before_rest == original.take(k + 1));
            assert(rest@ =~= original.take(k));
            assert(e == before_rest[k]);
            assert(e == original[k]);
            assert(original.skip(k) =~= seq![e] + original.skip(k + 1));
            assert forall|st: Seq<char>| #[trigger] with_stamp(sorted@, st) == with_stamp(original.skip(k), st) by {
                lemma_with_stamp_insert(before_sorted, p as int, e, st);
                assert(sorted@ =~= before_sorted.insert(p as int, e));
                original.skip(k + 1).lemma_filter_prepend(e, stamped::<T>(st));
            }
        }
        proof {
            broadcast use vstd::multiset::group_multiset_axioms;

            vstd::seq_lib::to_multiset_insert(before_sorted, p as int, e);
            assert(sorted@ =~= before_sorted.insert(p as int, e));
            vstd::seq_lib::to_multiset_build(rest@, e);
            assert(before_rest.to_multiset() =~= rest@.to_multiset().insert(e));
            assert(sorted@.to_multiset().add(rest@.to_multiset()) =~= before_sorted.to_multiset().add(
                before_rest.to_multiset(),
            ));
            assert forall|a: int, b: int| 0 <= a < b < sorted@.len() implies lex_le(
                #[trigger] sorted@[b].stamp(),
                #[trigger] sorted@[a].stamp(),
            ) by {
                if a < p && b < p {
                    assert(sorted@[a] == before_sorted[a] && sorted@[b] == before_sorted[b]);
                } else if a < p && b == p {
                    assert(sorted@[a] == before_sorted[a]);
                } else if a < p && b > p {
                    assert(sorted@[a] == before_sorted[a] && sorted@[b] == before_sorted[b - 1]);
                } else if a == p {
                    assert(sorted@[b] == before_sorted[b - 1]);
                } else {
                    assert(sorted@[a] == before_sorted[a - 1] && sorted@[b] == before_sorted[b - 1]);
                }
            }
        }
    }
    assert(rest@ =~= Seq::<T>::empty());
    assert(original.skip(0) =~= original);
    proof {
        broadcast use vstd::multiset::group_multiset_axioms;

        assert(rest@.to_multiset() =~= vstd::multiset::Multiset::<T>::empty());
        assert(sorted@.to_multiset().add(rest@.to_multiset()) =~= sorted@.to_multiset());
    }
    sorted
}

} // verus!
