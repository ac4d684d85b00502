use cargo_stripe::declarations::{
    add_module_to_content, update_generated_mod_rs, update_mod_rs, update_resources_mod_rs,
};

#[test]
fn add_module_inserts_after_last_declaration() {
    assert_eq!(
        add_module_to_content("pub mod a;\npub mod b;\npub use a::*;\n", "pub mod c;"),
        "pub mod a;\npub mod b;\npub mod c;\npub use a::*;\n"
    );
}

#[test]
fn add_module_appends_without_anchor() {
    assert_eq!(add_module_to_content("", "pub mod c;"), "\npub mod c;");
    assert_eq!(add_module_to_content("//! Docs\n", "pub mod c;"), "//! Docs\n\npub mod c;");
    assert_eq!(add_module_to_content("pub mod a", "pub mod c;"), "pub mod a\npub mod c;");
}

#[test]
fn add_module_is_noop_on_duplicate() {
    assert_eq!(add_module_to_content("pub mod c;", "pub mod c;"), "pub mod c;");
    let doc = "pub mod foo;\n// x\npub mod bar;\n";
    assert_eq!(add_module_to_content(doc, "pub mod foo;"), doc);
    assert_eq!(add_module_to_content(doc, "pub mod bar;"), doc);
}

#[test]
fn add_module_twice_is_fixed_point() {
    for doc in ["", "//! Docs\n", "pub mod a;\npub use a::*;\n", "pub mod a", "pub mod c;"] {
        let once = add_module_to_content(doc, "pub mod c;");
        assert!(once.contains("pub mod c;"));
        assert_eq!(add_module_to_content(&once, "pub mod c;"), once);
    }
}

#[test]
fn add_module_agrees_with_splice() {
    for doc in ["", "pub mod a;\n", "pub mod a;\npub mod b;\n// tail", "pub mod z;"] {
        assert_eq!(
            add_module_to_content(doc, "pub mod z;"),
            cargo_stripe::splicer::splice(doc, "pub mod", "z")
        );
    }
}

#[test]
fn add_module_needs_the_blank_after_the_keyword() {
    assert_eq!(add_module_to_content("pub mod;\n", "pub mod c;"), "pub mod;\n\npub mod c;");
}

#[test]
fn update_mod_rs_declares_once() {
    let base = "//! Stripe API SDK for Rust\n\npub mod client;\npub mod error;\n";
    let updated = update_mod_rs(Some(base), "resources").unwrap();
    assert_eq!(updated, "//! Stripe API SDK for Rust\n\npub mod client;\npub mod error;\npub mod resources;\n");
    assert_eq!(update_mod_rs(Some(&updated), "resources"), None);
    assert_eq!(update_mod_rs(Some(base), "client"), None);
}

#[test]
fn update_mod_rs_uses_skeleton_when_absent() {
    let updated = update_mod_rs(None, "resources").unwrap();
    assert_eq!(
        updated,
        "//! Stripe API SDK for Rust\n\n//! This module contains automatically generated Stripe API bindings.\n\n\npub mod resources;"
    );
    assert_eq!(update_mod_rs(Some(&updated), "resources"), None);
    assert_eq!(update_mod_rs(Some(""), "resources"), Some("\npub mod resources;".to_string()));
}

#[test]
fn update_resources_uses_skeleton_when_absent() {
    let updated = update_resources_mod_rs(None, "customer", "generated").unwrap();
    assert_eq!(
        updated,
        "//! Stripe API resources\n\npub mod types;\npub mod generated;\npub mod customer;\n"
    );
    assert_eq!(update_resources_mod_rs(Some(&updated), "customer", "generated"), None);
}

#[test]
fn update_resources_leaves_skeleton_alone_for_known_units() {
    assert_eq!(update_resources_mod_rs(None, "types", "generated"), None);
}

#[test]
fn update_resources_adds_component_then_submodule() {
    let base = "//! Stripe API resources\n\npub mod types;\npub use types::*;";
    let updated = update_resources_mod_rs(Some(base), "charge", "generated").unwrap();
    assert_eq!(
        updated,
        "//! Stripe API resources\n\npub mod types;\npub mod charge;\npub mod generated;\npub use types::*;"
    );
}

#[test]
fn update_resources_strips_ext_suffix() {
    let updated = update_resources_mod_rs(Some(""), "customer_ext", "generated").unwrap();
    assert_eq!(updated, "\npub mod customer;\npub mod generated;");
    let twice = update_resources_mod_rs(Some(""), "customer_ext_ext", "generated").unwrap();
    assert_eq!(twice, "\npub mod customer;\npub mod generated;");
}

#[test]
fn update_generated_declares_each_file() {
    let files = vec!["balance.rs".to_string(), "balance_available.rs".to_string()];
    let updated = update_generated_mod_rs(None, &files).unwrap();
    assert_eq!(
        updated,
        "//! Generated Stripe API resource definitions\n\n\npub mod balance;\npub mod balance_available;"
    );
    assert_eq!(update_generated_mod_rs(Some(&updated), &files), None);
}

#[test]
fn update_generated_with_no_files_changes_nothing() {
    assert_eq!(update_generated_mod_rs(None, &Vec::new()), None);
    assert_eq!(update_generated_mod_rs(Some("pub mod a;"), &Vec::new()), None);
}

#[test]
fn update_generated_skips_declared_files() {
    let files = vec!["a.rs".to_string(), "b.rs".to_string(), "a.rs".to_string()];
    let updated = update_generated_mod_rs(Some("pub mod a;\n"), &files).unwrap();
    assert_eq!(updated, "pub mod a;\npub mod b;\n");
}
