use cargo_stripe::add::TargetDir;
use cargo_stripe::init::{
    core_file_content, generate_mod_rs, generate_placeholder, generate_resources_mod_rs,
    missing_dependencies, required_dependencies, store_key, write_core_files, CoreTemplate,
};

#[test]
fn core_files_in_order() {
    let files = write_core_files();
    let listed: Vec<(TargetDir, &str, CoreTemplate, &str)> = files
        .iter()
        .map(|f| (f.dir, f.file_name.as_str(), f.template, f.relative_path.as_str()))
        .collect();
    assert_eq!(
        listed,
        vec![
            (TargetDir::Stripe, "mod.rs", CoreTemplate::Mod, "stripe/mod.rs"),
            (TargetDir::Stripe, "error.rs", CoreTemplate::Error, "stripe/error.rs"),
            (TargetDir::Stripe, "ids.rs", CoreTemplate::Ids, "stripe/ids.rs"),
            (TargetDir::Stripe, "params.rs", CoreTemplate::Params, "stripe/params.rs"),
            (
                TargetDir::Resources,
                "types.rs",
                CoreTemplate::ResourceTypes,
                "stripe/resources/types.rs"
            ),
            (TargetDir::Resources, "mod.rs", CoreTemplate::ResourcesMod, "stripe/resources/mod.rs"),
            (TargetDir::Client, "mod.rs", CoreTemplate::ClientMod, "stripe/client/mod.rs"),
            (
                TargetDir::Client,
                "request_strategy.rs",
                CoreTemplate::RequestStrategy,
                "stripe/client/request_strategy.rs"
            ),
            (
                TargetDir::Client,
                "stripe_client.rs",
                CoreTemplate::StripeClient,
                "stripe/client/stripe_client.rs"
            ),
            (
                TargetDir::Client,
                "http_client.rs",
                CoreTemplate::HttpClient,
                "stripe/client/http_client.rs"
            ),
        ]
    );
}

#[test]
fn root_module_content() {
    let content = generate_mod_rs().unwrap();
    assert!(content.starts_with("//! Stripe API SDK for Rust\n\n//! This module contains"));
    assert!(content.contains("pub mod client;\n        pub mod error;\n"));
    assert!(content.ends_with("        pub use resources::*;\n"));
    assert_eq!(content.matches("pub mod ").count(), 5);
    assert_eq!(content.matches("pub use ").count(), 5);
}

#[test]
fn first_resources_manifest() {
    assert_eq!(
        generate_resources_mod_rs(),
        "//! Stripe API resources\n\npub mod types;\npub use types::*;"
    );
}

#[test]
fn required_dependencies_in_order() {
    let deps = required_dependencies();
    assert_eq!(deps.len(), 15);
    assert_eq!(deps[0].name, "tokio");
    assert_eq!(deps[0].version, "1.28");
    assert_eq!(
        deps[0].features,
        Some(vec!["rt-multi-thread".to_string(), "macros".to_string()])
    );
    assert_eq!(deps[1].name, "reqwest");
    assert_eq!(deps[1].features, Some(vec!["json".to_string(), "rustls-tls".to_string()]));
    assert_eq!(deps[2].name, "serde");
    assert_eq!(deps[2].features, Some(vec!["derive".to_string()]));
    assert_eq!(deps[3].name, "serde_json");
    assert_eq!(deps[3].features, None);
    assert_eq!(deps[14].name, "serde_qs");
    assert_eq!(deps[14].version, "0.14");
}

#[test]
fn missing_dependencies_skip_what_is_present() {
    let present = vec!["serde".to_string(), "tokio".to_string(), "anyhow".to_string()];
    let missing = missing_dependencies(&present);
    let names: Vec<&str> = missing.iter().map(|d| d.name.as_str()).collect();
    assert_eq!(
        names,
        vec![
            "reqwest",
            "serde_json",
            "thiserror",
            "smart-default",
            "http-types",
            "http",
            "hyper",
            "hyper-util",
            "smol_str",
            "futures-util",
            "hyper-rustls",
            "serde_path_to_error",
            "serde_qs"
        ]
    );
    assert_eq!(missing_dependencies(&Vec::new()).len(), 15);
    let all: Vec<String> = required_dependencies().into_iter().map(|d| d.name).collect();
    assert!(missing_dependencies(&all).is_empty());
}

#[test]
fn store_keys_of_the_core_files() {
    let keys: Vec<Option<&str>> = write_core_files().iter().map(|f| store_key(f.template)).collect();
    assert_eq!(
        keys,
        vec![
            None,
            Some("error.rs"),
            Some("ids.rs"),
            Some("params.rs"),
            Some("resources/types.rs"),
            None,
            Some("client/mod.rs"),
            Some("client/request_strategy.rs"),
            Some("client/stripe_client.rs"),
            Some("client/http_client.rs"),
        ]
    );
}

#[test]
fn core_content_prefers_the_store_and_falls_back_to_a_placeholder() {
    let files = write_core_files();
    assert_eq!(core_file_content(&files[0], None), generate_mod_rs().unwrap());
    assert_eq!(core_file_content(&files[0], Some("stored".to_string())), generate_mod_rs().unwrap());
    assert_eq!(core_file_content(&files[1], Some("stored".to_string())), "stored");
    assert_eq!(core_file_content(&files[1], None), "//! Placeholder for stripe/error.rs\n");
    assert_eq!(
        core_file_content(&files[4], None),
        "//! Common types used in Stripe API resources\n\n// Type definitions would be here\n"
    );
    assert_eq!(core_file_content(&files[4], Some("types".to_string())), "types");
    assert_eq!(core_file_content(&files[5], Some("stored".to_string())), generate_resources_mod_rs());
    assert_eq!(
        core_file_content(&files[9], None),
        "//! Placeholder for stripe/client/http_client.rs\n"
    );
    assert_eq!(generate_placeholder("a/b.rs"), "//! Placeholder for a/b.rs\n");
}
