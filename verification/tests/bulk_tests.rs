use cargo_stripe::add::add_single_component;
use cargo_stripe::bulk::BulkRun;
use cargo_stripe::components::ComponentFiles;
use cargo_stripe::registry::Registry;
use cargo_stripe::text::decimal_chars;

fn names(list: &[&str]) -> Vec<String> {
    list.iter().map(|s| s.to_string()).collect()
}

#[test]
fn failing_component_does_not_stop_the_run() {
    let mut run = BulkRun::new(names(&["w", "x", "y"]));
    let mut attempted = Vec::new();
    while let Some(name) = run.next_component() {
        let added = name != "x";
        attempted.push(name);
        run.record(added);
    }
    assert_eq!(attempted, names(&["w", "x", "y"]));
    assert_eq!(run.components_with(true), names(&["w", "y"]));
    assert_eq!(run.components_with(false), names(&["x"]));
    assert_eq!(run.added_count(), 2);
    assert_eq!(run.summary(), "Successfully added 2 Stripe API components");
}

#[test]
fn empty_run_is_finished_at_once() {
    let run = BulkRun::new(Vec::new());
    assert_eq!(run.next_component(), None);
    assert_eq!(run.added_count(), 0);
    assert_eq!(run.summary(), "Successfully added 0 Stripe API components");
}

#[test]
fn run_in_which_everything_fails() {
    let mut run = BulkRun::new(names(&["a", "b"]));
    assert_eq!(run.next_component(), Some("a".to_string()));
    run.record(false);
    assert_eq!(run.next_component(), Some("b".to_string()));
    run.record(false);
    assert_eq!(run.next_component(), None);
    assert_eq!(run.components_with(true), Vec::<String>::new());
    assert_eq!(run.components_with(false), names(&["a", "b"]));
    assert_eq!(run.summary(), "Successfully added 0 Stripe API components");
}

#[test]
fn summary_counts_in_decimal() {
    let all: Vec<String> = (0..38).map(|i| format!("c{}", i)).collect();
    let mut run = BulkRun::new(all);
    while run.next_component().is_some() {
        run.record(true);
    }
    assert_eq!(run.summary(), "Successfully added 38 Stripe API components");
}

#[test]
fn decimal_digits() {
    let text = |n: usize| decimal_chars(n).into_iter().collect::<String>();
    assert_eq!(text(0), "0");
    assert_eq!(text(7), "7");
    assert_eq!(text(10), "10");
    assert_eq!(text(1234567890), "1234567890");
    assert_eq!(text(usize::MAX), usize::MAX.to_string());
}

#[test]
fn bulk_run_over_a_registry_isolates_the_failing_component() {
    let mut registry = Registry::new();
    for name in ["y", "w", "x"] {
        let files = ComponentFiles {
            extension_file: None,
            generated_files: vec![format!("{}.rs", name)],
        };
        assert_eq!(registry.insert(name, files), Ok(()));
    }
    let mut run = BulkRun::new(registry.all_names());
    let mut written: Vec<String> = Vec::new();
    while let Some(name) = run.next_component() {
        let files = registry.resolve(&name).ok().unwrap();
        let plan = add_single_component(&name, &files);
        // the target of `x` cannot be written
        let added = name != "x";
        if added {
            for write in &plan.writes {
                written.push(write.file_name.clone());
            }
        }
        run.record(added);
    }
    assert_eq!(written, vec!["w.rs".to_string(), "y.rs".to_string()]);
    assert_eq!(run.components_with(true), vec!["w".to_string(), "y".to_string()]);
    assert_eq!(run.components_with(false), vec!["x".to_string()]);
    assert_eq!(run.summary(), "Successfully added 2 Stripe API components");
}
