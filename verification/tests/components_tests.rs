use cargo_stripe::components::{
    generate_extension_file, generate_generated_file, generate_resource_generated_file,
    generate_resource_types_file, get_all_component_templates, get_component_file_mapping,
    is_valid_component, supported_components, ComponentError,
};

#[test]
fn supported_components_lists_the_table_and_the_bulk_operand() {
    let names = supported_components();
    assert_eq!(names.len(), 39);
    assert_eq!(names[0], "account");
    assert_eq!(names[38], "all");
    assert!(names.contains(&"webhook_events".to_string()));
    let mut unique = names.clone();
    unique.sort();
    unique.dedup();
    assert_eq!(unique.len(), 39);
}

#[test]
fn is_valid_component_accepts_components_and_all() {
    assert!(is_valid_component("customer"));
    assert!(is_valid_component("payment_intent"));
    assert!(is_valid_component("all"));
    assert!(!is_valid_component("not_a_real_component"));
    assert!(!is_valid_component(""));
    assert!(!is_valid_component("Customer"));
    assert!(!is_valid_component("generated"));
}

#[test]
fn resolve_rejects_unknown_and_bulk_operand() {
    assert_eq!(
        get_component_file_mapping("not_a_real_component").err(),
        Some(ComponentError::UnknownComponent)
    );
    assert_eq!(get_component_file_mapping("all").err(), Some(ComponentError::InvalidBulkOperand));
    assert_eq!(get_component_file_mapping("").err(), Some(ComponentError::UnknownComponent));
}

#[test]
fn resolve_gives_listed_files() {
    let files = get_component_file_mapping("balance").ok().unwrap();
    assert_eq!(files.extension_file, Some("balance_ext.rs".to_string()));
    assert_eq!(
        files.generated_files,
        vec![
            "balance.rs".to_string(),
            "balance_amount_by_source_type.rs".to_string(),
            "balance_available.rs".to_string()
        ]
    );
    let customer = get_component_file_mapping("customer").ok().unwrap();
    assert_eq!(customer.generated_files.len(), 17);
    assert_eq!(customer.generated_files[16], "customer_tax_id_updated.rs");
    let account = get_component_file_mapping("account").ok().unwrap();
    assert_eq!(account.generated_files.len(), 9);
    let method = get_component_file_mapping("payment_method").ok().unwrap();
    assert_eq!(method.generated_files[6], "payment_method_sepa_debit.rs");
}

#[test]
fn resolve_gives_conventional_files_for_the_rest() {
    let files = get_component_file_mapping("invoice").ok().unwrap();
    assert_eq!(files.extension_file, Some("invoice_ext.rs".to_string()));
    assert_eq!(files.generated_files, vec!["invoice.rs".to_string()]);
    let card = get_component_file_mapping("card").ok().unwrap();
    assert_eq!(card.extension_file, Some("card_ext.rs".to_string()));
    assert_eq!(card.generated_files, vec!["card.rs".to_string()]);
}

#[test]
fn every_listed_name_resolves_to_a_well_formed_file_set() {
    let names = get_all_component_templates();
    assert_eq!(names.len(), 38);
    for name in &names {
        let files = get_component_file_mapping(name).ok().unwrap();
        assert!(!files.generated_files.is_empty());
        let mut all: Vec<String> = files.generated_files.clone();
        if let Some(ext) = &files.extension_file {
            all.push(ext.clone());
        }
        let count = all.len();
        for f in &all {
            assert!(!f.contains('/') && !f.contains('\\'));
        }
        all.sort();
        all.dedup();
        assert_eq!(all.len(), count);
    }
}

#[test]
fn all_names_are_sorted_without_the_bulk_operand() {
    let names = get_all_component_templates();
    let mut sorted = names.clone();
    sorted.sort();
    assert_eq!(names, sorted);
    assert!(!names.contains(&"all".to_string()));
    assert_eq!(names[0], "account");
    assert_eq!(names[9], "customer");
    assert_eq!(names[10], "customer_balance_transaction");
    assert_eq!(names[37], "webhook_events");
}

#[test]
fn extension_placeholder_names_the_component() {
    assert_eq!(
        generate_extension_file("widget", "widget_ext.rs").unwrap(),
        "//! Extension methods for the Stripe widget resource\n\nuse crate::stripe::resources::generated::widget;\n\n// Extension methods would be defined here\n"
    );
}

#[test]
fn generated_placeholder_names_the_resource() {
    assert_eq!(
        generate_generated_file("payment_intent_created.rs").unwrap(),
        "//! Generated code for Stripe payment intent created resource\n\n// Resource definition would be here\n"
    );
    assert_eq!(
        generate_generated_file("widget.rs.rs").unwrap(),
        "//! Generated code for Stripe widget resource\n\n// Resource definition would be here\n"
    );
    assert_eq!(
        generate_generated_file("widget.x").unwrap(),
        "//! Generated code for Stripe widget.x resource\n\n// Resource definition would be here\n"
    );
    assert_eq!(
        generate_generated_file(".rs").unwrap(),
        "//! Generated code for Stripe  resource\n\n// Resource definition would be here\n"
    );
}

#[test]
fn fixed_resource_files() {
    assert_eq!(
        generate_resource_types_file().unwrap(),
        "//! Common types used in Stripe API resources\n\n// Type definitions would be here\n"
    );
    assert_eq!(
        generate_resource_generated_file().unwrap(),
        "//! Re-exports all generated resource definitions\n\npub use super::generated::*;\n"
    );
}

#[test]
fn placeholders_are_made_for_every_input() {
    assert!(generate_extension_file("", "").is_ok());
    assert!(generate_extension_file("all", "x").is_ok());
    assert!(generate_generated_file("").is_ok());
    assert_eq!(
        generate_generated_file("").unwrap(),
        "//! Generated code for Stripe  resource\n\n// Resource definition would be here\n"
    );
}
