use cargo_stripe::add::{
    add_single_component, added_component_message, choose_content, classify_request, error_hint,
    invalid_component_message, write_action, AddRequest, AddStep, ComponentRun, Hint, TargetDir,
    WriteAction,
};
use cargo_stripe::components::{get_component_file_mapping, ComponentFiles};
use cargo_stripe::declarations::{update_generated_mod_rs, update_mod_rs, update_resources_mod_rs};

#[test]
fn plan_lists_extension_then_generated_files() {
    let mapping = get_component_file_mapping("balance").ok().unwrap();
    let plan = add_single_component("balance", &mapping);
    assert_eq!(plan.writes.len(), 4);
    assert_eq!(plan.writes[0].dir, TargetDir::Resources);
    assert_eq!(plan.writes[0].file_name, "balance_ext.rs");
    assert_eq!(plan.writes[0].relative_path, "stripe/resources/balance_ext.rs.rs");
    assert_eq!(
        plan.writes[0].content,
        "//! Extension methods for the Stripe balance resource\n\nuse crate::stripe::resources::generated::balance;\n\n// Extension methods would be defined here\n"
    );
    assert_eq!(plan.writes[1].dir, TargetDir::Generated);
    assert_eq!(plan.writes[1].file_name, "balance.rs");
    assert_eq!(plan.writes[1].relative_path, "stripe/resources/generated/balance.rs.rs");
    assert_eq!(plan.writes[2].file_name, "balance_amount_by_source_type.rs");
    assert_eq!(
        plan.writes[2].content,
        "//! Generated code for Stripe balance amount by source type resource\n\n// Resource definition would be here\n"
    );
    assert_eq!(plan.writes[3].file_name, "balance_available.rs");
    assert_eq!(plan.top_module, "resources");
    assert_eq!(plan.component, "balance");
    assert_eq!(plan.submodule, "generated");
    assert_eq!(plan.generated_files, mapping.generated_files);
}

#[test]
fn widget_end_to_end() {
    let mapping =
        ComponentFiles { extension_file: None, generated_files: vec!["widget.x".to_string()] };
    assert!(mapping.is_well_formed());
    let plan = add_single_component("widget", &mapping);
    assert_eq!(plan.writes.len(), 1);
    assert_eq!(plan.writes[0].dir, TargetDir::Generated);
    assert_eq!(plan.writes[0].file_name, "widget.x");
    assert!(plan.writes[0].content.contains("widget"));
    assert_eq!(
        plan.writes[0].content,
        "//! Generated code for Stripe widget.x resource\n\n// Resource definition would be here\n"
    );
    let manifest = update_generated_mod_rs(None, &plan.generated_files).unwrap();
    assert_eq!(
        manifest,
        "//! Generated Stripe API resource definitions\n\n\npub mod widget.x;"
    );
    let declaring: Vec<&str> = manifest.lines().filter(|l| l.contains("widget")).collect();
    assert_eq!(declaring, vec!["pub mod widget.x;"]);
    assert_eq!(update_generated_mod_rs(Some(&manifest), &plan.generated_files), None);
}

#[test]
fn stored_content_wins_over_placeholder() {
    assert_eq!(choose_content(Some("stored".to_string()), "made up".to_string()), "stored");
    assert_eq!(choose_content(None, "made up".to_string()), "made up");
}

#[test]
fn write_action_asks_only_on_conflict() {
    assert_eq!(write_action(false, false, None), WriteAction::Write);
    assert_eq!(write_action(false, true, None), WriteAction::Write);
    assert_eq!(write_action(true, true, None), WriteAction::Write);
    assert_eq!(write_action(true, true, Some(false)), WriteAction::Write);
    assert_eq!(write_action(true, false, None), WriteAction::Ask);
    assert_eq!(write_action(true, false, Some(true)), WriteAction::Write);
    assert_eq!(write_action(true, false, Some(false)), WriteAction::Skip);
    assert_eq!(write_action(false, false, Some(false)), WriteAction::Write);
}

#[test]
fn requests_are_sorted_out() {
    assert_eq!(classify_request("generated"), AddRequest::ReservedName);
    assert_eq!(classify_request("all"), AddRequest::Bulk);
    assert_eq!(classify_request("customer"), AddRequest::Single);
    assert_eq!(classify_request("not_a_real_component"), AddRequest::Invalid);
    assert_eq!(classify_request(""), AddRequest::Invalid);
}

#[test]
fn messages_name_the_component() {
    assert_eq!(
        invalid_component_message("foo"),
        "Invalid component: 'foo'. Run 'cargo stripe list' to see available components."
    );
    assert_eq!(added_component_message("customer"), "Successfully added customer component");
}

#[test]
fn hints_go_by_the_first_phrase() {
    assert_eq!(error_hint("Stripe SDK not initialized here"), Some(Hint::InitializeFirst));
    assert_eq!(error_hint(&invalid_component_message("x")), Some(Hint::ListComponents));
    assert_eq!(
        error_hint("Could not find the src directory. Are you in a Rust project?"),
        Some(Hint::EnterProject)
    );
    assert_eq!(
        error_hint("Invalid component; Stripe SDK not initialized"),
        Some(Hint::InitializeFirst)
    );
    assert_eq!(error_hint("disk full"), None);
    assert_eq!(error_hint(""), None);
}

#[test]
fn widget_on_an_empty_target_declares_every_unit() {
    let mapping =
        ComponentFiles { extension_file: None, generated_files: vec!["widget.rs".to_string()] };
    let plan = add_single_component("widget", &mapping);
    let mut run: ComponentRun<String> = ComponentRun::new(plan);
    let mut files: Vec<(TargetDir, String, String)> = Vec::new();
    let mut top: Option<String> = None;
    let mut resources: Option<String> = None;
    let mut generated: Option<String> = None;
    loop {
        match run.next() {
            AddStep::Write(i) => {
                let write = &run.plan().writes[i];
                files.push((write.dir, write.file_name.clone(), write.content.clone()));
            }
            AddStep::DeclareTop => {
                top = update_mod_rs(top.as_deref(), &run.plan().top_module).or(top);
            }
            AddStep::DeclareResources => {
                resources = update_resources_mod_rs(
                    resources.as_deref(),
                    &run.plan().component,
                    &run.plan().submodule,
                )
                .or(resources);
            }
            AddStep::DeclareGenerated => {
                generated =
                    update_generated_mod_rs(generated.as_deref(), &run.plan().generated_files)
                        .or(generated);
            }
            AddStep::Done | AddStep::Failed => break,
        }
        run.record(Ok(()));
    }
    assert_eq!(run.finish(), Ok(()));
    assert_eq!(
        files,
        vec![(
            TargetDir::Generated,
            "widget.rs".to_string(),
            "//! Generated code for Stripe widget resource\n\n// Resource definition would be here\n"
                .to_string()
        )]
    );
    let generated = generated.unwrap();
    assert_eq!(generated, "//! Generated Stripe API resource definitions\n\n\npub mod widget;");
    assert_eq!(generated.lines().filter(|l| l.contains("widget")).count(), 1);
    assert_eq!(
        resources.unwrap(),
        "//! Stripe API resources\n\npub mod types;\npub mod generated;\npub mod widget;\n"
    );
    assert!(top.unwrap().ends_with("\npub mod resources;"));
}

fn steps_of(total_files: usize, fail_at: Option<usize>) -> (Vec<AddStep>, Result<(), String>) {
    let generated: Vec<String> = (0..total_files).map(|i| format!("f{}.rs", i)).collect();
    let mapping = ComponentFiles { extension_file: None, generated_files: generated };
    let mut run: ComponentRun<String> = ComponentRun::new(add_single_component("c", &mapping));
    let mut steps = Vec::new();
    loop {
        let step = run.next();
        if step == AddStep::Done || step == AddStep::Failed {
            steps.push(step);
            break;
        }
        let outcome =
            if Some(steps.len()) == fail_at { Err(format!("failed at {}", steps.len())) } else { Ok(()) };
        steps.push(step);
        run.record(outcome);
    }
    (steps, run.finish())
}

#[test]
fn steps_without_failure() {
    let (steps, result) = steps_of(2, None);
    assert_eq!(
        steps,
        vec![
            AddStep::Write(0),
            AddStep::Write(1),
            AddStep::DeclareTop,
            AddStep::DeclareResources,
            AddStep::DeclareGenerated,
            AddStep::Done
        ]
    );
    assert_eq!(result, Ok(()));
}

#[test]
fn failed_write_ends_the_component_before_any_manifest() {
    let (steps, result) = steps_of(3, Some(1));
    assert_eq!(steps, vec![AddStep::Write(0), AddStep::Write(1), AddStep::Failed]);
    assert_eq!(result, Err("failed at 1".to_string()));
    let (steps, result) = steps_of(3, Some(0));
    assert_eq!(steps, vec![AddStep::Write(0), AddStep::Failed]);
    assert_eq!(result, Err("failed at 0".to_string()));
}

#[test]
fn failed_manifest_ends_the_component() {
    let (steps, result) = steps_of(1, Some(2));
    assert_eq!(
        steps,
        vec![AddStep::Write(0), AddStep::DeclareTop, AddStep::DeclareResources, AddStep::Failed]
    );
    assert_eq!(result, Err("failed at 2".to_string()));
}

#[test]
fn plan_without_files_goes_straight_to_the_manifests() {
    let (steps, result) = steps_of(0, None);
    assert_eq!(
        steps,
        vec![
            AddStep::DeclareTop,
            AddStep::DeclareResources,
            AddStep::DeclareGenerated,
            AddStep::Done
        ]
    );
    assert_eq!(result, Ok(()));
}
