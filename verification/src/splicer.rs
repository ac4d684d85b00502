//! The module-declaration splicer.
//!
//! A declarations document is free-form text. A declaration line has the
//! form `<keyword> <identifier>;`. Splicing a declaration into a document
//! leaves the document alone when the line is already there; otherwise the
//! line goes on a new line right after the terminator that follows the last
//! place where `<keyword> ` stands, or at the end of the document when there
//! is no such place or no terminator after it.
//!
//! The splicer matches literal substrings. It does not parse the host
//! language: a keyword inside a comment or a string literal anchors the
//! insertion like any other.

use vstd::prelude::*;
use crate::text::{
    chars_of, contains, contains_chars, find_char_from, find_last, first_char_from,
    is_first_char_from, is_last_occurrence, last_index_of, occurs_at, push_all, string_of,
};

verus! {

/// The character that ends a declaration line.
pub open spec fn terminator() -> char {
    ';'
}

/// The keyword followed by the blank that parts it from the identifier: the
/// substring that anchors an insertion.
pub open spec fn keyword_prefix(keyword: Seq<char>) -> Seq<char> {
    keyword.push(' ')
}

/// The declaration line for `identifier` under `keyword`.
pub open spec fn canonical_line(keyword: Seq<char>, identifier: Seq<char>) -> Seq<char> {
    (keyword_prefix(keyword) + identifier).push(terminator())
}

/// The index in `doc` at which a new declaration is inserted: just past the
/// first terminator at or after the last place where `prefix` stands; the end
/// of the document where `prefix` stands nowhere or no terminator follows.
pub open spec fn insertion_point(doc: Seq<char>, prefix: Seq<char>) -> int {
    match last_index_of(doc, prefix) {
        Some(p) => match first_char_from(doc, terminator(), p) {
            Some(e) => e + 1,
            None => doc.len() as int,
        },
        None => doc.len() as int,
    }
}

/// `doc` with a line break and `line` inserted at index `at`.
pub open spec fn insert_line(doc: Seq<char>, at: int, line: Seq<char>) -> Seq<char> {
    doc.subrange(0, at).push('\n') + line + doc.subrange(at, doc.len() as int)
}

/// `doc` with `line` inserted at the insertion point that `prefix` gives.
pub open spec fn insert_declaration(doc: Seq<char>, prefix: Seq<char>, line: Seq<char>) -> Seq<
    char,
> {
    insert_line(doc, insertion_point(doc, prefix), line)
}

/// The document that splicing the declaration of `identifier` under
/// `keyword` into `doc` gives.
pub open spec fn splice_spec(doc: Seq<char>, keyword: Seq<char>, identifier: Seq<char>) -> Seq<
    char,
> {
    let line = canonical_line(keyword, identifier);
    if contains(doc, line) {
        doc
    } else {
        insert_declaration(doc, keyword_prefix(keyword), line)
    }
}

/// The insertion point lies inside the document or at its end.
pub proof fn lemma_insertion_point_in_range(doc: Seq<char>, prefix: Seq<char>)
    ensures
        0 <= insertion_point(doc, prefix) <= doc.len(),
{
    match last_index_of(doc, prefix) {
        Some(p) => {
            match first_char_from(doc, terminator(), p) {
                Some(e) => {
                    assert(is_first_char_from(doc, terminator(), p, e));
                },
                None => {},
            }
        },
        None => {},
    }
}

/// An inserted line stands in the result, one past the insertion index.
pub proof fn lemma_insert_line_occurs(doc: Seq<char>, at: int, line: Seq<char>)
    requires
        0 <= at <= doc.len(),
    ensures
        occurs_at(insert_line(doc, at, line), line, at + 1),
        insert_line(doc, at, line).len() == doc.len() + 1 + line.len(),
        insert_line(doc, at, line).subrange(0, at) == doc.subrange(0, at),
        insert_line(doc, at, line)[at] == '\n',
        insert_line(doc, at, line).subrange(
            at + 1 + line.len(),
            insert_line(doc, at, line).len() as int,
        ) == doc.subrange(at, doc.len() as int),
{
    let r = insert_line(doc, at, line);
    assert(r.subrange(at + 1, at + 1 + line.len()) =~= line);
    assert(r.subrange(0, at) =~= doc.subrange(0, at));
    assert(r.subrange(at + 1 + line.len(), r.len() as int) =~= doc.subrange(
        at,
        doc.len() as int,
    ));
}

/// Splicing is idempotent: a second splice of the same declaration changes
/// nothing.
pub proof fn lemma_splice_idempotent(doc: Seq<char>, keyword: Seq<char>, identifier: Seq<char>)
    ensures
        splice_spec(splice_spec(doc, keyword, identifier), keyword, identifier) == splice_spec(
            doc,
            keyword,
            identifier,
        ),
{
    let line = canonical_line(keyword, identifier);
    if !contains(doc, line) {
        let prefix = keyword_prefix(keyword);
        let at = insertion_point(doc, prefix);
        lemma_insertion_point_in_range(doc, prefix);
        lemma_insert_line_occurs(doc, at, line);
        assert(occurs_at(splice_spec(doc, keyword, identifier), line, at + 1));
    }
}

/// A document that already holds the declaration line, anywhere, is
/// returned as it is.
pub proof fn lemma_splice_present_is_noop(
    doc: Seq<char>,
    keyword: Seq<char>,
    identifier: Seq<char>,
)
    requires
        contains(doc, canonical_line(keyword, identifier)),
    ensures
        splice_spec(doc, keyword, identifier) == doc,
{
}

/// After a splice the document holds the declaration line.
pub proof fn lemma_splice_declares(doc: Seq<char>, keyword: Seq<char>, identifier: Seq<char>)
    ensures
        contains(splice_spec(doc, keyword, identifier), canonical_line(keyword, identifier)),
{
    let line = canonical_line(keyword, identifier);
    if !contains(doc, line) {
        let prefix = keyword_prefix(keyword);
        let at = insertion_point(doc, prefix);
        lemma_insertion_point_in_range(doc, prefix);
        lemma_insert_line_occurs(doc, at, line);
        assert(occurs_at(splice_spec(doc, keyword, identifier), line, at + 1));
    }
}

/// A splice that inserts alters no existing text: the result is the
/// document up to the insertion point, a line break, the new line, and the
/// rest of the document; and the new line begins strictly after the start of
/// every place where the keyword prefix stands in the document.
pub proof fn lemma_splice_keeps_document(
    doc: Seq<char>,
    keyword: Seq<char>,
    identifier: Seq<char>,
)
    requires
        !contains(doc, canonical_line(keyword, identifier)),
    ensures
        ({
            let at = insertion_point(doc, keyword_prefix(keyword));
            let line = canonical_line(keyword, identifier);
            let out = splice_spec(doc, keyword, identifier);
            &&& 0 <= at <= doc.len()
            &&& out.len() == doc.len() + 1 + line.len()
            &&& out.subrange(0, at) == doc.subrange(0, at)
            &&& out[at] == '\n'
            &&& occurs_at(out, line, at + 1)
            &&& out.subrange(at + 1 + line.len(), out.len() as int) == doc.subrange(
                at,
                doc.len() as int,
            )
            &&& forall|j: int| occurs_at(doc, keyword_prefix(keyword), j) ==> j < at
        }),
{
    let prefix = keyword_prefix(keyword);
    let at = insertion_point(doc, prefix);
    let line = canonical_line(keyword, identifier);
    lemma_insertion_point_in_range(doc, prefix);
    lemma_insert_line_occurs(doc, at, line);
    assert forall|j: int| occurs_at(doc, prefix, j) implies j < at by {
        lemma_prefix_starts_before_insertion(doc, prefix, j);
    }
}

/// Every place where a non-empty prefix stands in the document begins
/// before the insertion point.
pub proof fn lemma_prefix_starts_before_insertion(doc: Seq<char>, prefix: Seq<char>, j: int)
    requires
        occurs_at(doc, prefix, j),
        prefix.len() > 0,
    ensures
        j < insertion_point(doc, prefix),
{
    match last_index_of(doc, prefix) {
        Some(p) => {
            assert(is_last_occurrence(doc, prefix, p));
            match first_char_from(doc, terminator(), p) {
                Some(e) => {
                    assert(is_first_char_from(doc, terminator(), p, e));
                },
                None => {},
            }
        },
        None => {},
    }
}

/// Insertion anchoring: where the document holds the declaration line of
/// another identifier under the same keyword, and neither the keyword nor
/// that identifier holds the terminator, the new line begins after the end
/// of that line.
pub proof fn lemma_splice_after_existing(
    doc: Seq<char>,
    keyword: Seq<char>,
    existing: Seq<char>,
    identifier: Seq<char>,
    j: int,
)
    requires
        occurs_at(doc, canonical_line(keyword, existing), j),
        !contains(doc, canonical_line(keyword, identifier)),
        !keyword.contains(terminator()),
        !existing.contains(terminator()),
    ensures
        j + canonical_line(keyword, existing).len() <= insertion_point(
            doc,
            keyword_prefix(keyword),
        ),
        occurs_at(
            splice_spec(doc, keyword, identifier),
            canonical_line(keyword, existing),
            j,
        ),
        occurs_at(
            splice_spec(doc, keyword, identifier),
            canonical_line(keyword, identifier),
            insertion_point(doc, keyword_prefix(keyword)) + 1,
        ),
{
    let prefix = keyword_prefix(keyword);
    let old_line = canonical_line(keyword, existing);
    let line = canonical_line(keyword, identifier);
    let at = insertion_point(doc, prefix);
    let n = old_line.len() as int;
    lemma_insertion_point_in_range(doc, prefix);
    lemma_insert_line_occurs(doc, at, line);
    // the prefix stands where the existing line stands
    assert(doc.subrange(j, j + prefix.len()) =~= old_line.subrange(0, prefix.len() as int)) by {
        assert(doc.subrange(j, j + n) == old_line);
        assert forall|k: int| 0 <= k < prefix.len() implies doc.subrange(j, j + prefix.len())[k]
            == old_line[k] by {
            assert(doc.subrange(j, j + n)[k] == doc[j + k]);
        }
    }
    assert(old_line.subrange(0, prefix.len() as int) =~= prefix);
    assert(occurs_at(doc, prefix, j));
    // no terminator inside the existing line but its last character
    assert forall|k: int| j <= k < j + n - 1 implies doc[k] != terminator() by {
        assert(doc.subrange(j, j + n)[k - j] == doc[k]);
        let m = k - j;
        if m < keyword.len() {
            assert(old_line[m] == keyword[m]);
            assert(keyword.contains(keyword[m]));
        } else if m == keyword.len() {
            assert(old_line[m] == ' ');
        } else {
            assert(old_line[m] == existing[m - keyword.len() - 1]);
            assert(existing.contains(existing[m - keyword.len() - 1]));
        }
    }
    match last_index_of(doc, prefix) {
        Some(p) => {
            assert(is_last_occurrence(doc, prefix, p));
            assert(j <= p);
            match first_char_from(doc, terminator(), p) {
                Some(e) => {
                    assert(is_first_char_from(doc, terminator(), p, e));
                    if e < j + n - 1 {
                        assert(doc[e] != terminator());
                    }
                },
                None => {},
            }
        },
        None => {},
    }
    let out = splice_spec(doc, keyword, identifier);
    assert(out.subrange(j, j + n) =~= old_line) by {
        assert(out.subrange(0, at) == doc.subrange(0, at));
        assert forall|k: int| 0 <= k < n implies out.subrange(j, j + n)[k] == old_line[k] by {
            assert(out.subrange(0, at)[j + k] == out[j + k]);
            assert(doc.subrange(0, at)[j + k] == doc[j + k]);
            assert(doc.subrange(j, j + n)[k] == doc[j + k]);
        }
    }
}

/// Inserts `line` into `doc` at the insertion point that `prefix` gives.
pub fn insert_declaration_chars(doc: &Vec<char>, prefix: &Vec<char>, line: &Vec<char>) -> (out:
    Vec<char>)
    ensures
        out@ == insert_declaration(doc@, prefix@, line@),
{
    let at: usize = match find_last(doc, prefix) {
        Some(p) => {
            proof {
                assert(is_last_occurrence(doc@, prefix@, p as int));
            }
            match find_char_from(doc, ';', p) {
                Some(e) => {
                    proof {
                        assert(is_first_char_from(doc@, terminator(), p as int, e as int));
                    }
                    e + 1
                },
                None => doc.len(),
            }
        },
        None => doc.len(),
    };
    let mut out: Vec<char> = Vec::new();
    push_all(&mut out, doc, 0, at);
    out.push('\n');
    push_all(&mut out, line, 0, line.len());
    push_all(&mut out, doc, at, doc.len());
    proof {
        assert(line@.subrange(0, line@.len() as int) =~= line@);
        assert(out@ =~= insert_line(doc@, at as int, line@));
    }
    out
}

/// The declaration line for `identifier` under `keyword`.
pub fn canonical_line_chars(keyword: &Vec<char>, identifier: &Vec<char>) -> (line: Vec<char>)
    ensures
        line@ == canonical_line(keyword@, identifier@),
{
    let mut line: Vec<char> = Vec::new();
    push_all(&mut line, keyword, 0, keyword.len());
    line.push(' ');
    push_all(&mut line, identifier, 0, identifier.len());
    line.push(';');
    proof {
        assert(keyword@.subrange(0, keyword@.len() as int) =~= keyword@);
        assert(identifier@.subrange(0, identifier@.len() as int) =~= identifier@);
        assert(line@ =~= canonical_line(keyword@, identifier@));
    }
    line
}

/// Splices the declaration of `identifier` under `keyword` into a document
/// held as characters.
pub fn splice_chars(doc: &Vec<char>, keyword: &Vec<char>, identifier: &Vec<char>) -> (out: Vec<
    char,
>)
    ensures
        out@ == splice_spec(doc@, keyword@, identifier@),
        contains(doc@, canonical_line(keyword@, identifier@)) ==> out@ == doc@,
        contains(out@, canonical_line(keyword@, identifier@)),
{
    let line = canonical_line_chars(keyword, identifier);
    proof {
        lemma_splice_declares(doc@, keyword@, identifier@);
    }
    if contains_chars(doc, &line) {
        doc.clone()
    } else {
        let mut prefix: Vec<char> = Vec::new();
        push_all(&mut prefix, keyword, 0, keyword.len());
        prefix.push(' ');
        proof {
            assert(keyword@.subrange(0, keyword@.len() as int) =~= keyword@);
            assert(prefix@ =~= keyword_prefix(keyword@));
        }
        insert_declaration_chars(doc, &prefix, &line)
    }
}

/// Splices the declaration `<keyword> <identifier>;` into `document`.
///
/// Returns the document unchanged where it already holds that line;
/// otherwise the document with the line inserted on a new line after the
/// terminator that follows the last `<keyword> `, or appended on a new line.
pub fn splice(document: &str, keyword: &str, identifier: &str) -> (out: String)
    ensures
        out@ == splice_spec(document@, keyword@, identifier@),
        contains(document@, canonical_line(keyword@, identifier@)) ==> out@ == document@,
        contains(out@, canonical_line(keyword@, identifier@)),
{
    let doc = chars_of(document);
    let kw = chars_of(keyword);
    let id = chars_of(identifier);
    let out = splice_chars(&doc, &kw, &id);
    string_of(&out)
}

} // verus!
