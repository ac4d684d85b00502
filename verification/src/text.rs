//! Text as sequences of characters.
//!
//! Every contract in this crate is stated over `Seq<char>`, the view of a
//! string. The algorithms run on `Vec<char>`; this module moves text in and
//! out of that form, and holds the searches and edits that the rest of the
//! crate is built from: finding a substring or a character, taking a suffix
//! off, replacing a character, and writing a number in decimal.

use vstd::prelude::*;
use vstd::string::*;

verus! {

/// Appends one character to a string.
///
/// Trusted: `String::push` in std, which is documented to append the given
/// `char` to the end of the string.
#[verifier::external_body]
pub(crate) fn push_char(s: &mut String, c: char)
    ensures
        final(s)@ == old(s)@.push(c),
{
    s.push(c)
}

/// Whether two strings hold the same text.
pub fn same_text(a: &str, b: &str) -> (r: bool)
    ensures
        r == (a@ == b@),
{
    let x = String::from_str(a);
    let y = String::from_str(b);
    x == y
}

/// The characters of `s`, in order.
pub fn chars_of(s: &str) -> (v: Vec<char>)
    ensures
        v@ == s@,
{
    let mut v: Vec<char> = Vec::new();
    for c in it: s.chars()
        invariant
            it.seq() == s@,
            v@ == it.seq().subrange(0, it.index() as int),
    {
        v.push(c);
    }
    v
}

/// The string made of the characters of `v`, in order.
pub fn string_of(v: &Vec<char>) -> (s: String)
    ensures
        s@ == v@,
{
    let mut s = String::new();
    let mut i: usize = 0;
    while i < v.len()
        invariant
            i <= v.len(),
            s@ == v@.subrange(0, i as int),
        decreases v.len() - i,
    {
        push_char(&mut s, v[i]);
        i += 1;
    }
    s
}

/// `pat` stands in `text` at index `i`.
pub open spec fn occurs_at(text: Seq<char>, pat: Seq<char>, i: int) -> bool {
    &&& 0 <= i
    &&& i + pat.len() <= text.len()
    &&& text.subrange(i, i + pat.len()) == pat
}

/// `pat` stands somewhere in `text`.
pub open spec fn contains(text: Seq<char>, pat: Seq<char>) -> bool {
    exists|i: int| occurs_at(text, pat, i)
}

/// `i` is the index of the last place where `pat` stands in `text`.
pub open spec fn is_last_occurrence(text: Seq<char>, pat: Seq<char>, i: int) -> bool {
    &&& occurs_at(text, pat, i)
    &&& forall|j: int| i < j ==> !occurs_at(text, pat, j)
}

/// The index of the last place where `pat` stands in `text`, if any.
pub open spec fn last_index_of(text: Seq<char>, pat: Seq<char>) -> Option<int> {
    if exists|i: int| is_last_occurrence(text, pat, i) {
        Some(choose|i: int| is_last_occurrence(text, pat, i))
    } else {
        None
    }
}

/// `i` is the index of the first `c` in `text` at or after `from`.
pub open spec fn is_first_char_from(text: Seq<char>, c: char, from: int, i: int) -> bool {
    &&& 0 <= from <= i < text.len()
    &&& text[i] == c
    &&& forall|j: int| from <= j < i ==> text[j] != c
}

/// The index of the first `c` in `text` at or after `from`, if any.
pub open spec fn first_char_from(text: Seq<char>, c: char, from: int) -> Option<int> {
    if exists|i: int| is_first_char_from(text, c, from, i) {
        Some(choose|i: int| is_first_char_from(text, c, from, i))
    } else {
        None
    }
}

/// A last occurrence is the only one: `last_index_of` names it.
pub proof fn lemma_last_occurrence_unique(text: Seq<char>, pat: Seq<char>, i: int)
    requires
        is_last_occurrence(text, pat, i),
    ensures
        last_index_of(text, pat) == Some(i),
{
    let k = choose|k: int| is_last_occurrence(text, pat, k);
    assert(is_last_occurrence(text, pat, k));
    if k < i {
        assert(!occurs_at(text, pat, i));
    } else if i < k {
        assert(!occurs_at(text, pat, k));
    }
}

/// Where `pat` stands nowhere, `last_index_of` finds nothing.
pub proof fn lemma_last_index_none(text: Seq<char>, pat: Seq<char>)
    requires
        !contains(text, pat),
    ensures
        last_index_of(text, pat) is None,
{
    if exists|i: int| is_last_occurrence(text, pat, i) {
        let k = choose|k: int| is_last_occurrence(text, pat, k);
        assert(occurs_at(text, pat, k));
    }
}

/// A first occurrence of a character is the only one: `first_char_from`
/// names it.
pub proof fn lemma_first_char_unique(text: Seq<char>, c: char, from: int, i: int)
    requires
        is_first_char_from(text, c, from, i),
    ensures
        first_char_from(text, c, from) == Some(i),
{
    let k = choose|k: int| is_first_char_from(text, c, from, k);
    assert(is_first_char_from(text, c, from, k));
    if k < i {
        assert(text[k] != c);
    } else if i < k {
        assert(text[i] != c);
    }
}

/// A character is found from the start of a text exactly where the text
/// holds it.
pub proof fn lemma_first_char_contains(text: Seq<char>, c: char)
    ensures
        first_char_from(text, c, 0) is Some <==> text.contains(c),
{
    if first_char_from(text, c, 0) is Some {
        let i = choose|i: int| is_first_char_from(text, c, 0, i);
        assert(text[i] == c);
    }
    if text.contains(c) {
        let i = choose|i: int| 0 <= i < text.len() && text[i] == c;
        lemma_first_char_exists(text, c, i);
    }
}

/// Where a text holds `c` at index `i`, it holds a first `c`.
proof fn lemma_first_char_exists(text: Seq<char>, c: char, i: int)
    requires
        0 <= i < text.len(),
        text[i] == c,
    ensures
        exists|k: int| is_first_char_from(text, c, 0, k),
    decreases i,
{
    if exists|j: int| 0 <= j < i && text[j] == c {
        let j = choose|j: int| 0 <= j < i && text[j] == c;
        lemma_first_char_exists(text, c, j);
    } else {
        assert(is_first_char_from(text, c, 0, i));
    }
}

/// Whether `pat` stands in `text` at index `i`.
pub fn matches_at(text: &Vec<char>, pat: &Vec<char>, i: usize) -> (r: bool)
    ensures
        r == occurs_at(text@, pat@, i as int),
{
    if pat.len() > text.len() || i > text.len() - pat.len() {
        return false;
    }
    let mut k: usize = 0;
    while k < pat.len()
        invariant
            k <= pat.len(),
            i + pat.len() <= text.len(),
            forall|j: int| 0 <= j < k ==> text@[i + j] == pat@[j],
        decreases pat.len() - k,
    {
        if text[i + k] != pat[k] {
            proof {
                let sub = text@.subrange(i as int, i + pat.len());
                assert(sub[k as int] == text@[i + k]);
            }
            return false;
        }
        k += 1;
    }
    proof {
        assert(text@.subrange(i as int, i + pat.len()) =~= pat@);
    }
    true
}

/// The index of the last place where `pat` stands in `text`.
pub fn find_last(text: &Vec<char>, pat: &Vec<char>) -> (r: Option<usize>)
    ensures
        match r {
            Some(i) => last_index_of(text@, pat@) == Some(i as int),
            None => last_index_of(text@, pat@) is None,
        },
        r is Some <==> contains(text@, pat@),
{
    if pat.len() > text.len() {
        proof {
            lemma_last_index_none(text@, pat@);
        }
        return None;
    }
    let mut i: usize = text.len() - pat.len();
    loop
        invariant
            pat.len() <= text.len(),
            i <= text.len() - pat.len(),
            forall|j: int| i < j ==> !occurs_at(text@, pat@, j),
        decreases i,
    {
        if matches_at(text, pat, i) {
            proof {
                lemma_last_occurrence_unique(text@, pat@, i as int);
            }
            return Some(i);
        }
        if i == 0 {
            proof {
                lemma_last_index_none(text@, pat@);
            }
            return None;
        }
        i -= 1;
    }
}

/// Whether `pat` stands somewhere in `text`.
pub fn contains_chars(text: &Vec<char>, pat: &Vec<char>) -> (r: bool)
    ensures
        r == contains(text@, pat@),
{
    find_last(text, pat).is_some()
}

/// The index of the first `c` in `text` at or after `from`.
pub fn find_char_from(text: &Vec<char>, c: char, from: usize) -> (r: Option<usize>)
    requires
        from <= text.len(),
    ensures
        match r {
            Some(i) => first_char_from(text@, c, from as int) == Some(i as int),
            None => first_char_from(text@, c, from as int) is None,
        },
{
    let mut i: usize = from;
    while i < text.len()
        invariant
            from <= i <= text.len(),
            forall|j: int| from <= j < i ==> text@[j] != c,
        decreases text.len() - i,
    {
        if text[i] == c {
            proof {
                lemma_first_char_unique(text@, c, from as int, i as int);
            }
            return Some(i);
        }
        i += 1;
    }
    proof {
        if exists|k: int| is_first_char_from(text@, c, from as int, k) {
            let k = choose|k: int| is_first_char_from(text@, c, from as int, k);
            assert(text@[k] != c);
        }
    }
    None
}

/// `s` without every copy of the non-empty `suffix` at its end: the suffix
/// is taken off until `s` no longer ends with it.
pub open spec fn trim_end_spec(s: Seq<char>, suffix: Seq<char>) -> Seq<char>
    decreases s.len(),
{
    if 0 < suffix.len() <= s.len() && s.subrange(s.len() - suffix.len(), s.len() as int)
        == suffix {
        trim_end_spec(s.subrange(0, s.len() - suffix.len()), suffix)
    } else {
        s
    }
}

/// `s` with every `from` replaced by `to`.
pub open spec fn replace_char_spec(s: Seq<char>, from: char, to: char) -> Seq<char> {
    Seq::new(s.len(), |i: int| if s[i] == from { to } else { s[i] })
}

/// Takes every copy of `suffix` off the end of `s`.
pub fn trim_end_chars(s: &Vec<char>, suffix: &Vec<char>) -> (out: Vec<char>)
    ensures
        out@ == trim_end_spec(s@, suffix@),
{
    let mut end: usize = s.len();
    proof {
        assert(s@.subrange(0, end as int) =~= s@);
    }
    if suffix.len() > 0 {
        while end >= suffix.len() && matches_at(s, suffix, end - suffix.len())
            invariant
                end <= s.len(),
                suffix.len() > 0,
                trim_end_spec(s@, suffix@) == trim_end_spec(s@.subrange(0, end as int), suffix@),
            decreases end,
        {
            proof {
                let cur = s@.subrange(0, end as int);
                assert(cur.subrange(cur.len() - suffix.len(), cur.len() as int) =~= s@.subrange(
                    end - suffix.len(),
                    end as int,
                ));
                assert(cur.subrange(0, cur.len() - suffix.len()) =~= s@.subrange(
                    0,
                    end - suffix.len(),
                ));
            }
            end -= suffix.len();
        }
        proof {
            let cur = s@.subrange(0, end as int);
            if end >= suffix.len() {
                assert(cur.subrange(cur.len() - suffix.len(), cur.len() as int) =~= s@.subrange(
                    end - suffix.len(),
                    end as int,
                ));
            }
        }
    }
    let mut out: Vec<char> = Vec::new();
    push_all(&mut out, s, 0, end);
    proof {
        assert(out@ =~= s@.subrange(0, end as int));
    }
    out
}

/// Replaces every `from` in `s` by `to`.
pub fn replace_char(s: &Vec<char>, from: char, to: char) -> (out: Vec<char>)
    ensures
        out@ == replace_char_spec(s@, from, to),
{
    let mut out: Vec<char> = Vec::new();
    let mut i: usize = 0;
    while i < s.len()
        invariant
            i <= s.len(),
            out@.len() == i,
            forall|j: int| 0 <= j < i ==> out@[j] == (if s@[j] == from { to } else { s@[j] }),
        decreases s.len() - i,
    {
        let c = s[i];
        if c == from {
            out.push(to);
        } else {
            out.push(c);
        }
        i += 1;
    }
    proof {
        assert(out@ =~= replace_char_spec(s@, from, to));
    }
    out
}

/// Appends the characters of `tail` to `out`.
pub fn push_all(out: &mut Vec<char>, tail: &Vec<char>, from: usize, to: usize)
    requires
        from <= to <= tail.len(),
    ensures
        final(out)@ == old(out)@ + tail@.subrange(from as int, to as int),
{
    let mut i: usize = from;
    while i < to
        invariant
            from <= i <= to <= tail.len(),
            out@ == old(out)@ + tail@.subrange(from as int, i as int),
        decreases to - i,
    {
        out.push(tail[i]);
        proof {
            assert(tail@.subrange(from as int, i + 1) =~= tail@.subrange(
                from as int,
                i as int,
            ).push(tail@[i as int]));
        }
        i += 1;
    }
}

/// The character of a decimal digit.
pub open spec fn digit_char(d: nat) -> char {
    if d == 0 {
        '0'
    } else if d == 1 {
        '1'
    } else if d == 2 {
        '2'
    } else if d == 3 {
        '3'
    } else if d == 4 {
        '4'
    } else if d == 5 {
        '5'
    } else if d == 6 {
        '6'
    } else if d == 7 {
        '7'
    } else if d == 8 {
        '8'
    } else {
        '9'
    }
}

/// `n` in decimal digits, without leading zeros.
pub open spec fn decimal(n: nat) -> Seq<char>
    decreases n,
{
    if n < 10 {
        seq![digit_char(n)]
    } else {
        decimal(n / 10).push(digit_char(n % 10))
    }
}

/// The character of the decimal digit `d`.
fn digit(d: usize) -> (c: char)
    requires
        d < 10,
    ensures
        c == digit_char(d as nat),
{
    if d == 0 {
        '0'
    } else if d == 1 {
        '1'
    } else if d == 2 {
        '2'
    } else if d == 3 {
        '3'
    } else if d == 4 {
        '4'
    } else if d == 5 {
        '5'
    } else if d == 6 {
        '6'
    } else if d == 7 {
        '7'
    } else if d == 8 {
        '8'
    } else {
        '9'
    }
}

/// `n` in decimal digits, without leading zeros.
pub fn decimal_chars(n: usize) -> (digits: Vec<char>)
    ensures
        digits@ == decimal(n as nat),
    decreases n,
{
    if n < 10 {
        let mut digits: Vec<char> = Vec::new();
        digits.push(digit(n));
        proof {
            assert(digits@ =~= decimal(n as nat));
        }
        digits
    } else {
        let mut digits = decimal_chars(n / 10);
        digits.push(digit(n % 10));
        digits
    }
}

} // verus!
