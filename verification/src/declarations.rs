//! Updates of the three declarations documents.
//!
//! The top manifest declares the `resources` unit, the resources manifest
//! declares each component and the `generated` unit, and the generated
//! manifest declares one module per generated file. Each update is computed
//! from the text that was read and says whether anything is to be written
//! back: a document that comes out as it went in is left alone.

use vstd::prelude::*;
use vstd::string::*;
use crate::order::names_of;
use crate::splicer::{
    canonical_line, insert_declaration, insert_declaration_chars, insertion_point,
    keyword_prefix, lemma_insert_line_occurs, lemma_insertion_point_in_range,
    lemma_splice_after_existing, lemma_splice_declares, splice_chars, splice_spec, terminator,
};
use crate::text::{
    chars_of, contains, contains_chars, occurs_at, same_text, string_of, trim_end_chars,
    trim_end_spec,
};

verus! {

/// The keyword of a module declaration.
pub open spec fn module_keyword() -> Seq<char> {
    "pub mod"@
}

/// The top manifest that is taken as read where none exists yet: a
/// heading and no declaration.
pub open spec fn top_skeleton() -> Seq<char> {
    "//! Stripe API SDK for Rust\n\n//! This module contains automatically generated Stripe API bindings.\n\n"@
}

/// The resources manifest that is taken as read where none exists yet.
pub open spec fn resources_skeleton() -> Seq<char> {
    "//! Stripe API resources\n\npub mod types;\npub mod generated;\n"@
}

/// The generated manifest that is taken as read where none exists yet.
pub open spec fn generated_skeleton() -> Seq<char> {
    "//! Generated Stripe API resource definitions\n\n"@
}

/// The module that the resources manifest declares for `component`: the
/// component's name without `_ext` at its end.
pub open spec fn component_module(component: Seq<char>) -> Seq<char> {
    trim_end_spec(component, "_ext"@)
}

/// The module that the generated manifest declares for the file `file`: the
/// file's name without `.rs` at its end.
pub open spec fn file_module(file: Seq<char>) -> Seq<char> {
    trim_end_spec(file, ".rs"@)
}

/// The resources manifest `base` after the component's module and then the
/// submodule have been spliced in.
pub open spec fn resources_mod_spec(base: Seq<char>, component: Seq<char>, submodule: Seq<char>)
    -> Seq<char> {
    splice_spec(
        splice_spec(base, module_keyword(), component_module(component)),
        module_keyword(),
        submodule,
    )
}

/// The generated manifest `doc` after the module of each file of `files`
/// has been spliced in, in their order.
pub open spec fn generated_mod_spec(doc: Seq<char>, files: Seq<Seq<char>>) -> Seq<char>
    decreases files.len(),
{
    if files.len() == 0 {
        doc
    } else {
        generated_mod_spec(
            splice_spec(doc, module_keyword(), file_module(files[0])),
            files.drop_first(),
        )
    }
}

/// `content` with the declaration line `line` in it: `content` itself
/// where it holds the line already, and else `content` with the line
/// inserted behind the last module declaration.
pub open spec fn add_module_spec(content: Seq<char>, line: Seq<char>) -> Seq<char> {
    if contains(content, line) {
        content
    } else {
        insert_declaration(content, keyword_prefix(module_keyword()), line)
    }
}

/// After a line was put into a document, the document holds it.
pub proof fn lemma_add_module_declares(content: Seq<char>, line: Seq<char>)
    ensures
        contains(add_module_spec(content, line), line),
{
    if !contains(content, line) {
        let prefix = keyword_prefix(module_keyword());
        let at = insertion_point(content, prefix);
        lemma_insertion_point_in_range(content, prefix);
        lemma_insert_line_occurs(content, at, line);
        assert(occurs_at(add_module_spec(content, line), line, at + 1));
    }
}

/// Putting a line into a document is idempotent: the second time changes
/// nothing.
pub proof fn lemma_add_module_idempotent(content: Seq<char>, line: Seq<char>)
    ensures
        add_module_spec(add_module_spec(content, line), line) == add_module_spec(content, line),
{
    lemma_add_module_declares(content, line);
}

/// A document that holds the line already, anywhere, is returned as it is.
pub proof fn lemma_add_module_present_is_noop(content: Seq<char>, line: Seq<char>)
    requires
        contains(content, line),
    ensures
        add_module_spec(content, line) == content,
{
}

/// Putting the declaration line of a module into a document is splicing
/// that module in.
pub proof fn lemma_add_module_is_splice(content: Seq<char>, module: Seq<char>)
    ensures
        add_module_spec(content, module_line(module)) == splice_spec(
            content,
            module_keyword(),
            module,
        ),
{
}

/// The declaration line of the module `module`.
pub open spec fn module_line(module: Seq<char>) -> Seq<char> {
    canonical_line(module_keyword(), module)
}

/// Every file of `files` is free of the terminator.
pub open spec fn plain_files(files: Seq<Seq<char>>) -> bool {
    forall|i: int| 0 <= i < files.len() ==> !(#[trigger] files[i]).contains(terminator())
}

/// What is left of a name after a suffix was taken off holds no character
/// that the name does not hold.
pub proof fn lemma_trim_end_keeps_plain(s: Seq<char>, suffix: Seq<char>, c: char)
    requires
        !s.contains(c),
    ensures
        !trim_end_spec(s, suffix).contains(c),
    decreases s.len(),
{
    if 0 < suffix.len() <= s.len() && s.subrange(s.len() - suffix.len(), s.len() as int)
        == suffix {
        let shorter = s.subrange(0, s.len() - suffix.len());
        if shorter.contains(c) {
            let i = choose|i: int| 0 <= i < shorter.len() && shorter[i] == c;
            assert(s[i] == c);
        }
        lemma_trim_end_keeps_plain(shorter, suffix, c);
    }
}

/// A declared module stays declared when another module is spliced in,
/// where the name of the declared module is free of the terminator.
pub proof fn lemma_declared_stays_declared(doc: Seq<char>, declared: Seq<char>, module: Seq<char>)
    requires
        contains(doc, module_line(declared)),
        !declared.contains(terminator()),
    ensures
        contains(splice_spec(doc, module_keyword(), module), module_line(declared)),
{
    if !contains(doc, module_line(module)) {
        let j = choose|j: int| occurs_at(doc, module_line(declared), j);
        assert(!module_keyword().contains(terminator())) by {
            reveal_strlit("pub mod");
        }
        lemma_splice_after_existing(doc, module_keyword(), declared, module, j);
    }
}

/// A declared module stays declared through an update of the generated
/// manifest, where the names involved are free of the terminator.
pub proof fn lemma_update_keeps_declared(doc: Seq<char>, declared: Seq<char>, files: Seq<Seq<char>>)
    requires
        contains(doc, module_line(declared)),
        !declared.contains(terminator()),
        plain_files(files),
    ensures
        contains(generated_mod_spec(doc, files), module_line(declared)),
    decreases files.len(),
{
    if files.len() > 0 {
        let next = splice_spec(doc, module_keyword(), file_module(files[0]));
        lemma_declared_stays_declared(doc, declared, file_module(files[0]));
        assert forall|i: int| 0 <= i < files.drop_first().len() implies !(
        #[trigger] files.drop_first()[i]).contains(terminator()) by {
            assert(files.drop_first()[i] == files[i + 1]);
        }
        lemma_update_keeps_declared(next, declared, files.drop_first());
    }
}

/// After an update the generated manifest declares the module of every
/// file, where the file names are free of the terminator.
pub proof fn lemma_update_declares_every_file(doc: Seq<char>, files: Seq<Seq<char>>, i: int)
    requires
        plain_files(files),
        0 <= i < files.len(),
    ensures
        contains(generated_mod_spec(doc, files), module_line(file_module(files[i]))),
    decreases files.len(),
{
    let next = splice_spec(doc, module_keyword(), file_module(files[0]));
    let rest = files.drop_first();
    assert forall|k: int| 0 <= k < rest.len() implies !(#[trigger] rest[k]).contains(
        terminator(),
    ) by {
        assert(rest[k] == files[k + 1]);
    }
    if i == 0 {
        lemma_splice_declares(doc, module_keyword(), file_module(files[0]));
        lemma_trim_end_keeps_plain(files[0], ".rs"@, terminator());
        lemma_update_keeps_declared(next, file_module(files[0]), rest);
    } else {
        assert(rest[i - 1] == files[i]);
        lemma_update_declares_every_file(next, rest, i - 1);
    }
}

/// A manifest that declares the module of every file comes out of an
/// update as it went in.
pub proof fn lemma_update_of_declared_is_noop(doc: Seq<char>, files: Seq<Seq<char>>)
    requires
        forall|i: int|
            0 <= i < files.len() ==> contains(doc, module_line(file_module(#[trigger] files[i]))),
    ensures
        generated_mod_spec(doc, files) == doc,
    decreases files.len(),
{
    if files.len() > 0 {
        let rest = files.drop_first();
        assert(contains(doc, module_line(file_module(files[0]))));
        assert forall|i: int| 0 <= i < rest.len() implies contains(
            doc,
            module_line(file_module(#[trigger] rest[i])),
        ) by {
            assert(rest[i] == files[i + 1]);
        }
        lemma_update_of_declared_is_noop(doc, rest);
    }
}

/// Updating the generated manifest is idempotent: a second update with
/// the same files changes nothing, where the file names are free of the
/// terminator.
pub proof fn lemma_update_generated_idempotent(doc: Seq<char>, files: Seq<Seq<char>>)
    requires
        plain_files(files),
    ensures
        generated_mod_spec(generated_mod_spec(doc, files), files) == generated_mod_spec(
            doc,
            files,
        ),
{
    let updated = generated_mod_spec(doc, files);
    assert forall|i: int| 0 <= i < files.len() implies contains(
        updated,
        module_line(file_module(#[trigger] files[i])),
    ) by {
        lemma_update_declares_every_file(doc, files, i);
    }
    lemma_update_of_declared_is_noop(updated, files);
}

/// What an update hands back: the new text where it differs from the text
/// that was read, nothing where the document is to be left alone.
pub open spec fn write_back(base: Seq<char>, updated: Seq<char>, r: Option<String>) -> bool {
    match r {
        Some(text) => text@ == updated && updated != base,
        None => updated == base,
    }
}

/// Puts the declaration line `module_line` into `content`.
///
/// A document that holds the line already, anywhere, comes back as it is.
/// Otherwise the line goes on a new line after the terminator that follows
/// the last `pub mod `, or at the end of the document.
pub fn add_module_to_content(content: &str, module_line: &str) -> (out: String)
    ensures
        out@ == add_module_spec(content@, module_line@),
        contains(content@, module_line@) ==> out@ == content@,
        !contains(content@, module_line@) ==> out@ == insert_declaration(
            content@,
            keyword_prefix(module_keyword()),
            module_line@,
        ),
        contains(out@, module_line@),
{
    let doc = chars_of(content);
    let line = chars_of(module_line);
    proof {
        lemma_add_module_declares(content@, module_line@);
    }
    if contains_chars(&doc, &line) {
        return string_of(&doc);
    }
    let mut prefix = chars_of("pub mod");
    prefix.push(' ');
    let out = insert_declaration_chars(&doc, &prefix, &line);
    string_of(&out)
}

/// The top manifest with `module` declared; nothing where it is declared
/// already. `existing` is the text of the manifest, where there is one; the
/// skeleton stands in for a manifest that does not exist yet.
pub fn update_mod_rs(existing: Option<&str>, module: &str) -> (r: Option<String>)
    ensures
        write_back(
            match existing {
                Some(text) => text@,
                None => top_skeleton(),
            },
            splice_spec(
                match existing {
                    Some(text) => text@,
                    None => top_skeleton(),
                },
                module_keyword(),
                module@,
            ),
            r,
        ),
        r is None <==> contains(
            match existing {
                Some(text) => text@,
                None => top_skeleton(),
            },
            canonical_line(module_keyword(), module@),
        ),
{
    let base_text: &str = match existing {
        Some(text) => text,
        None => "//! Stripe API SDK for Rust\n\n//! This module contains automatically generated Stripe API bindings.\n\n",
    };
    let base = chars_of(base_text);
    let keyword = chars_of("pub mod");
    let updated = splice_chars(&base, &keyword, &chars_of(module));
    let text = string_of(&updated);
    proof {
        lemma_insertion_point_in_range(base_text@, keyword_prefix(module_keyword()));
        lemma_insert_line_occurs(
            base_text@,
            insertion_point(base_text@, keyword_prefix(module_keyword())),
            canonical_line(module_keyword(), module@),
        );
    }
    if same_text(text.as_str(), base_text) {
        None
    } else {
        Some(text)
    }
}

/// The resources manifest with the module of `component` and the unit
/// `submodule` declared. `existing` is the text of the manifest, where there
/// is one; the skeleton stands in for a manifest that does not exist yet.
pub fn update_resources_mod_rs(existing: Option<&str>, component: &str, submodule: &str) -> (r:
    Option<String>)
    ensures
        write_back(
            match existing {
                Some(text) => text@,
                None => resources_skeleton(),
            },
            resources_mod_spec(
                match existing {
                    Some(text) => text@,
                    None => resources_skeleton(),
                },
                component@,
                submodule@,
            ),
            r,
        ),
{
    let base_text: &str = match existing {
        Some(text) => text,
        None => "//! Stripe API resources\n\npub mod types;\npub mod generated;\n",
    };
    let base = chars_of(base_text);
    let keyword = chars_of("pub mod");
    let module = trim_end_chars(&chars_of(component), &chars_of("_ext"));
    let with_component = splice_chars(&base, &keyword, &module);
    let updated = splice_chars(&with_component, &keyword, &chars_of(submodule));
    let text = string_of(&updated);
    if same_text(text.as_str(), base_text) {
        None
    } else {
        Some(text)
    }
}

/// The generated manifest with one module declared for each file of
/// `generated_files`. `existing` is the text of the manifest, where there is
/// one; the skeleton stands in for a manifest that does not exist yet.
pub fn update_generated_mod_rs(existing: Option<&str>, generated_files: &Vec<String>) -> (r:
    Option<String>)
    ensures
        write_back(
            match existing {
                Some(text) => text@,
                None => generated_skeleton(),
            },
            generated_mod_spec(
                match existing {
                    Some(text) => text@,
                    None => generated_skeleton(),
                },
                names_of(generated_files@),
            ),
            r,
        ),
{
    let base_text: &str = match existing {
        Some(text) => text,
        None => "//! Generated Stripe API resource definitions\n\n",
    };
    let keyword = chars_of("pub mod");
    let suffix = chars_of(".rs");
    let mut doc = chars_of(base_text);
    let ghost files = names_of(generated_files@);
    let mut i: usize = 0;
    proof {
        assert(files.subrange(0, files.len() as int) =~= files);
    }
    while i < generated_files.len()
        invariant
            i <= generated_files.len(),
            files == names_of(generated_files@),
            keyword@ == module_keyword(),
            suffix@ == ".rs"@,
            generated_mod_spec(base_text@, files) == generated_mod_spec(
                doc@,
                files.subrange(i as int, files.len() as int),
            ),
        decreases generated_files.len() - i,
    {
        let module = trim_end_chars(&chars_of(generated_files[i].as_str()), &suffix);
        proof {
            let rest = files.subrange(i as int, files.len() as int);
            assert(rest[0] == generated_files@[i as int]@);
            assert(rest.drop_first() =~= files.subrange(i + 1, files.len() as int));
        }
        doc = splice_chars(&doc, &keyword, &module);
        i += 1;
    }
    let text = string_of(&doc);
    if same_text(text.as_str(), base_text) {
        None
    } else {
        Some(text)
    }
}

} // verus!
