//! Lexicographic order on names, and sorting by it.
//!
//! Names are ordered character by character, by code point, a proper prefix
//! before the longer name: the order of `str`.

use vstd::prelude::*;
use crate::text::chars_of;

verus! {

/// `a` and `b` agree on their first `k` characters and part ways at index
/// `k` with `a` the smaller: either `a` ends there and `b` goes on, or the
/// character of `a` has the smaller code point.
pub open spec fn parts_below_at(a: Seq<char>, b: Seq<char>, k: int) -> bool {
    &&& 0 <= k <= a.len()
    &&& k < b.len()
    &&& forall|i: int| 0 <= i < k ==> a[i] == b[i]
    &&& (k == a.len() || a[k] < b[k])
}

/// `a` comes strictly before `b` in lexicographic order.
pub open spec fn lex_lt(a: Seq<char>, b: Seq<char>) -> bool {
    exists|k: int| parts_below_at(a, b, k)
}

/// `names` is in ascending lexicographic order (equal neighbours allowed).
pub open spec fn sorted(names: Seq<Seq<char>>) -> bool {
    forall|i: int, j: int| 0 <= i < j < names.len() ==> !lex_lt(names[j], names[i])
}

/// `names` is in strictly ascending lexicographic order: no name twice.
pub open spec fn strictly_sorted(names: Seq<Seq<char>>) -> bool {
    forall|i: int, j: int| 0 <= i < j < names.len() ==> lex_lt(names[i], names[j])
}

/// The views of a sequence of strings.
pub open spec fn names_of(v: Seq<String>) -> Seq<Seq<char>> {
    Seq::new(v.len(), |i: int| v[i]@)
}

/// Two names part ways at one index at most.
proof fn lemma_parting_unique(a: Seq<char>, b: Seq<char>, k: int, m: int)
    requires
        parts_below_at(a, b, k),
        parts_below_at(b, a, m) || parts_below_at(a, b, m),
    ensures
        k == m && parts_below_at(a, b, m),
{
    if k < m {
        if parts_below_at(b, a, m) {
            assert(b[k] == a[k]);
        } else {
            assert(a[k] == b[k]);
        }
    } else if m < k {
        assert(a[m] == b[m]);
    }
}

/// No name comes before itself, and of two names at most one comes before
/// the other.
pub proof fn lemma_lex_lt_asymmetric(a: Seq<char>, b: Seq<char>)
    ensures
        !(lex_lt(a, b) && lex_lt(b, a)),
        !lex_lt(a, a),
{
    if lex_lt(a, b) && lex_lt(b, a) {
        let k = choose|k: int| parts_below_at(a, b, k);
        let m = choose|m: int| parts_below_at(b, a, m);
        lemma_parting_unique(a, b, k, m);
    }
    if lex_lt(a, a) {
        let k = choose|k: int| parts_below_at(a, a, k);
        assert(parts_below_at(a, a, k));
    }
}

/// The order is transitive.
pub proof fn lemma_lex_lt_transitive(a: Seq<char>, b: Seq<char>, c: Seq<char>)
    requires
        lex_lt(a, b),
        lex_lt(b, c),
    ensures
        lex_lt(a, c),
{
    let k = choose|k: int| parts_below_at(a, b, k);
    let m = choose|m: int| parts_below_at(b, c, m);
    if k <= m {
        assert(parts_below_at(a, c, k));
    } else {
        assert(parts_below_at(a, c, m));
    }
}

/// Two names that agree on their first `k` characters are equal or one
/// comes before the other.
proof fn lemma_lex_total_from(a: Seq<char>, b: Seq<char>, k: int)
    requires
        0 <= k <= a.len(),
        k <= b.len(),
        forall|i: int| 0 <= i < k ==> a[i] == b[i],
    ensures
        a == b || lex_lt(a, b) || lex_lt(b, a),
    decreases a.len() - k,
{
    if k == a.len() {
        if k == b.len() {
            assert(a =~= b);
        } else {
            assert(parts_below_at(a, b, k));
        }
    } else if k == b.len() {
        assert(parts_below_at(b, a, k));
    } else if a[k] == b[k] {
        lemma_lex_total_from(a, b, k + 1);
    } else if a[k] < b[k] {
        assert(parts_below_at(a, b, k));
    } else {
        assert(parts_below_at(b, a, k));
    }
}

/// The order is total: two different names are ordered one way or the other.
pub proof fn lemma_lex_total(a: Seq<char>, b: Seq<char>)
    ensures
        a == b || lex_lt(a, b) || lex_lt(b, a),
{
    lemma_lex_total_from(a, b, 0);
}

/// In a strictly ascending sequence each name stands at one index only,
/// and the sequence is ascending.
pub proof fn lemma_strictly_sorted_unique(names: Seq<Seq<char>>, k: int)
    requires
        strictly_sorted(names),
        0 <= k < names.len(),
    ensures
        names.index_of(names[k]) == k,
        names.no_duplicates(),
        sorted(names),
{
    assert forall|i: int, j: int| 0 <= i < names.len() && 0 <= j < names.len() && i
        != j implies names[i] != names[j] by {
        lemma_lex_lt_asymmetric(names[i], names[j]);
        if i < j {
            assert(lex_lt(names[i], names[j]));
        } else {
            assert(lex_lt(names[j], names[i]));
        }
    }
    assert forall|i: int, j: int| 0 <= i < j < names.len() implies !lex_lt(
        names[j],
        names[i],
    ) by {
        lemma_lex_lt_asymmetric(names[i], names[j]);
    }
    let m = names.index_of(names[k]);
    assert(0 <= m < names.len() && names[m] == names[k]);
}

/// A sequence in which each name comes before the next is strictly
/// ascending.
pub proof fn lemma_ascending_neighbours(names: Seq<Seq<char>>)
    requires
        forall|i: int| 0 <= i < names.len() - 1 ==> lex_lt(names[i], #[trigger] names[i + 1]),
    ensures
        strictly_sorted(names),
{
    assert forall|i: int, j: int| 0 <= i < j < names.len() implies lex_lt(names[i], names[j]) by {
        lemma_ascending_from(names, i, j);
    }
}

/// In a sequence in which each name comes before the next, a name comes
/// before every later one.
proof fn lemma_ascending_from(names: Seq<Seq<char>>, i: int, j: int)
    requires
        forall|i: int| 0 <= i < names.len() - 1 ==> lex_lt(names[i], #[trigger] names[i + 1]),
        0 <= i < j < names.len(),
    ensures
        lex_lt(names[i], names[j]),
    decreases j - i,
{
    assert(lex_lt(names[j - 1], names[j - 1 + 1]));
    if i < j - 1 {
        lemma_ascending_from(names, i, j - 1);
        lemma_lex_lt_transitive(names[i], names[j - 1], names[j]);
    }
}

/// Two ascending sequences that hold the same names, each as often, are
/// equal.
pub proof fn lemma_sorted_unique(x: Seq<Seq<char>>, y: Seq<Seq<char>>)
    requires
        sorted(x),
        sorted(y),
        x.to_multiset() == y.to_multiset(),
    ensures
        x == y,
{
    let leq = |a: Seq<char>, b: Seq<char>| !lex_lt(b, a);
    assert(vstd::relations::total_ordering(leq)) by {
        assert forall|a: Seq<char>| #[trigger] leq(a, a) by {
            lemma_lex_lt_asymmetric(a, a);
        }
        assert forall|a: Seq<char>, b: Seq<char>| #[trigger] leq(a, b) && #[trigger] leq(
            b,
            a,
        ) implies a == b by {
            lemma_lex_total(a, b);
        }
        assert forall|a: Seq<char>, b: Seq<char>, c: Seq<char>| #[trigger] leq(a, b)
            && #[trigger] leq(b, c) implies leq(a, c) by {
            lemma_lex_total(a, b);
            if lex_lt(c, a) && lex_lt(a, b) {
                lemma_lex_lt_transitive(c, a, b);
            }
        }
        assert forall|a: Seq<char>, b: Seq<char>| #[trigger] leq(a, b) || #[trigger] leq(
            b,
            a,
        ) by {
            lemma_lex_lt_asymmetric(a, b);
        }
    }
    assert(vstd::relations::sorted_by(x, leq));
    assert(vstd::relations::sorted_by(y, leq));
    vstd::seq_lib::lemma_sorted_unique(x, y, leq);
}

/// Whether `a` comes strictly before `b` in lexicographic order.
pub fn chars_lt(a: &Vec<char>, b: &Vec<char>) -> (r: bool)
    ensures
        r == lex_lt(a@, b@),
{
    let mut i: usize = 0;
    while i < a.len() && i < b.len()
        invariant
            i <= a.len(),
            i <= b.len(),
            forall|j: int| 0 <= j < i ==> a@[j] == b@[j],
        decreases a.len() - i,
    {
        if a[i] != b[i] {
            let below = a[i] < b[i];
            proof {
                if below {
                    assert(parts_below_at(a@, b@, i as int));
                } else {
                    assert(parts_below_at(b@, a@, i as int));
                    lemma_lex_lt_asymmetric(a@, b@);
                }
            }
            return below;
        }
        i += 1;
    }
    let below = a.len() < b.len();
    proof {
        if below {
            assert(parts_below_at(a@, b@, i as int));
        } else if b.len() < a.len() {
            assert(parts_below_at(b@, a@, i as int));
            lemma_lex_lt_asymmetric(a@, b@);
        } else {
            assert(a@ =~= b@);
            lemma_lex_lt_asymmetric(a@, b@);
        }
    }
    below
}

/// Whether the name `a` comes strictly before the name `b`.
pub fn name_lt(a: &str, b: &str) -> (r: bool)
    ensures
        r == lex_lt(a@, b@),
{
    let x = chars_of(a);
    let y = chars_of(b);
    chars_lt(&x, &y)
}

/// Inserting into a sequence adds one element to its multiset.
proof fn lemma_insert_multiset(s: Seq<Seq<char>>, i: int, a: Seq<char>)
    requires
        0 <= i <= s.len(),
    ensures
        s.insert(i, a).to_multiset() == s.to_multiset().insert(a),
{
    let t = s.insert(i, a);
    assert(t.remove(i) =~= s);
    vstd::seq_lib::to_multiset_remove(t, i);
    assert(t[i] == a);
    t.to_multiset_ensures();
    assert(t.contains(a));
    assert(t.to_multiset() =~= s.to_multiset().insert(a));
}

/// Puts `name` into the sorted vector `names`, after every name that does
/// not come after it.
pub fn insert_sorted(names: &mut Vec<String>, name: String)
    requires
        sorted(names_of(old(names)@)),
    ensures
        sorted(names_of(final(names)@)),
        names_of(final(names)@).to_multiset() == names_of(old(names)@).to_multiset().insert(
            name@,
        ),
        final(names)@.len() == old(names)@.len() + 1,
{
    let mut at: usize = 0;
    while at < names.len() && !name_lt(name.as_str(), names[at].as_str())
        invariant
            at <= names.len(),
            forall|j: int| 0 <= j < at ==> !lex_lt(name@, names_of(names@)[j]),
        decreases names.len() - at,
    {
        at += 1;
    }
    let ghost before = names_of(names@);
    names.insert(at, name);
    proof {
        let after = names_of(names@);
        assert(after =~= before.insert(at as int, name@));
        lemma_insert_multiset(before, at as int, name@);
        assert forall|i: int, j: int| 0 <= i < j < after.len() implies !lex_lt(
            after[j],
            after[i],
        ) by {
            if j < at {
                assert(after[i] == before[i] && after[j] == before[j]);
            } else if j == at {
                assert(after[i] == before[i]);
            } else if i == at {
                // before[at] comes after the new name; later ones do not come before it
                assert(after[j] == before[j - 1]);
                assert(lex_lt(name@, before[at as int]));
                if lex_lt(before[j - 1], name@) {
                    lemma_lex_lt_transitive(before[j - 1], name@, before[at as int]);
                }
            } else if i < at {
                assert(after[i] == before[i] && after[j] == before[j - 1]);
            } else {
                assert(after[i] == before[i - 1] && after[j] == before[j - 1]);
            }
        }
    }
}

/// The names of `names`, each as often as it stands there, in ascending
/// lexicographic order.
pub fn sort_names(names: Vec<String>) -> (out: Vec<String>)
    ensures
        sorted(names_of(out@)),
        names_of(out@).to_multiset() == names_of(names@).to_multiset(),
        out@.len() == names@.len(),
{
    let mut out: Vec<String> = Vec::new();
    let mut i: usize = 0;
    proof {
        assert(names_of(names@).subrange(0, 0) =~= names_of(out@));
    }
    while i < names.len()
        invariant
            i <= names.len(),
            out@.len() == i,
            sorted(names_of(out@)),
            names_of(out@).to_multiset() == names_of(names@).subrange(0, i as int).to_multiset(),
        decreases names.len() - i,
    {
        let name = names[i].clone();
        proof {
            let all = names_of(names@);
            assert(all.subrange(0, i + 1) =~= all.subrange(0, i as int).push(name@));
            vstd::seq_lib::to_multiset_build(all.subrange(0, i as int), name@);
        }
        insert_sorted(&mut out, name);
        i += 1;
    }
    proof {
        let all = names_of(names@);
        assert(all.subrange(0, all.len() as int) =~= all);
    }
    out
}

} // verus!
