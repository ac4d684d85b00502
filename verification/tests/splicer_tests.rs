use cargo_stripe::splicer::splice;

#[test]
fn splice_appends_to_empty_document() {
    assert_eq!(splice("", "pub mod", "foo"), "\npub mod foo;");
}

#[test]
fn splice_inserts_after_last_declaration() {
    let doc = "//! Resources\n\npub mod a;\npub mod b;\n";
    let out = splice(doc, "pub mod", "c");
    assert_eq!(out, "//! Resources\n\npub mod a;\npub mod b;\npub mod c;\n");
    let b = out.find("pub mod b;").unwrap();
    let c = out.find("pub mod c;").unwrap();
    assert!(b < c);
}

#[test]
fn splice_is_noop_on_duplicate() {
    let doc = "pub mod a;\n// note\npub mod b;\n";
    assert_eq!(splice(doc, "pub mod", "a"), doc);
    assert_eq!(splice(doc, "pub mod", "b"), doc);
}

#[test]
fn splice_twice_is_fixed_point() {
    let doc = "pub mod a;\npub use a::*;\n";
    let once = splice(doc, "pub mod", "zed");
    let twice = splice(&once, "pub mod", "zed");
    assert_eq!(once, "pub mod a;\npub mod zed;\npub use a::*;\n");
    assert_eq!(once, twice);
}

#[test]
fn splice_appends_when_last_keyword_has_no_terminator() {
    let doc = "pub mod a;\npub mod b";
    assert_eq!(splice(doc, "pub mod", "c"), "pub mod a;\npub mod b\npub mod c;");
}

#[test]
fn splice_anchors_on_last_keyword_even_in_a_comment() {
    let doc = "pub mod a;\n// the pub mod list ends here; really\nfn f() {}\n";
    assert_eq!(
        splice(doc, "pub mod", "b"),
        "pub mod a;\n// the pub mod list ends here;\npub mod b; really\nfn f() {}\n"
    );
}

#[test]
fn splice_handles_text_outside_ascii() {
    let doc = "// موژول\npub mod é;\n";
    assert_eq!(splice(doc, "pub mod", "ü"), "// موژول\npub mod é;\npub mod ü;\n");
}
