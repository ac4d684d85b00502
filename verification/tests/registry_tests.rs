use cargo_stripe::components::{ComponentError, ComponentFiles};
use cargo_stripe::registry::{Registry, RegistryError};

fn files(ext: Option<&str>, generated: &[&str]) -> ComponentFiles {
    ComponentFiles {
        extension_file: ext.map(|s| s.to_string()),
        generated_files: generated.iter().map(|s| s.to_string()).collect(),
    }
}

#[test]
fn registry_keeps_names_sorted() {
    let mut registry = Registry::new();
    assert_eq!(registry.insert("y", files(None, &["y.rs"])), Ok(()));
    assert_eq!(registry.insert("w", files(Some("w_ext.rs"), &["w.rs"])), Ok(()));
    assert_eq!(registry.insert("x", files(None, &["x.rs", "x2.rs"])), Ok(()));
    assert_eq!(registry.insert("wa", files(None, &["wa.rs"])), Ok(()));
    assert_eq!(registry.len(), 4);
    assert_eq!(
        registry.all_names(),
        vec!["w".to_string(), "wa".to_string(), "x".to_string(), "y".to_string()]
    );
    let x = registry.resolve("x").ok().unwrap();
    assert_eq!(x.extension_file, None);
    assert_eq!(x.generated_files, vec!["x.rs".to_string(), "x2.rs".to_string()]);
    let w = registry.resolve("w").ok().unwrap();
    assert_eq!(w.extension_file, Some("w_ext.rs".to_string()));
}

#[test]
fn registry_refuses_bad_entries() {
    let mut registry = Registry::new();
    assert_eq!(registry.insert("all", files(None, &["a.rs"])), Err(RegistryError::ReservedName));
    assert_eq!(registry.insert("all", files(None, &[])), Err(RegistryError::ReservedName));
    assert_eq!(registry.insert("a", files(None, &[])), Err(RegistryError::InvalidFileSet));
    assert_eq!(
        registry.insert("a", files(Some("a.rs"), &["a.rs"])),
        Err(RegistryError::InvalidFileSet)
    );
    assert_eq!(
        registry.insert("a", files(None, &["a.rs", "b.rs", "a.rs"])),
        Err(RegistryError::InvalidFileSet)
    );
    assert_eq!(
        registry.insert("a", files(None, &["dir/a.rs"])),
        Err(RegistryError::InvalidFileSet)
    );
    assert_eq!(
        registry.insert("a", files(Some("dir\\a.rs"), &["a.rs"])),
        Err(RegistryError::InvalidFileSet)
    );
    assert_eq!(registry.len(), 0);
    assert_eq!(registry.insert("a", files(None, &["a.rs"])), Ok(()));
    assert_eq!(
        registry.insert("a", files(None, &["other.rs"])),
        Err(RegistryError::DuplicateComponent)
    );
    assert_eq!(registry.resolve("a").ok().unwrap().generated_files, vec!["a.rs".to_string()]);
}

#[test]
fn registry_resolves_like_the_table() {
    let mut registry = Registry::new();
    assert_eq!(registry.insert("widget", files(None, &["widget.x"])), Ok(()));
    assert!(registry.is_valid("widget"));
    assert!(registry.is_valid("all"));
    assert!(!registry.is_valid("gadget"));
    assert_eq!(registry.resolve("all").err(), Some(ComponentError::InvalidBulkOperand));
    assert_eq!(registry.resolve("gadget").err(), Some(ComponentError::UnknownComponent));
    assert_eq!(
        registry.resolve("not_a_real_component").err(),
        Some(ComponentError::UnknownComponent)
    );
    for name in registry.all_names() {
        assert!(!registry.resolve(&name).ok().unwrap().generated_files.is_empty());
    }
}

#[test]
fn builtin_registry_holds_the_whole_table() {
    let registry = Registry::builtin();
    assert_eq!(registry.len(), 38);
    let names = registry.all_names();
    assert_eq!(names, cargo_stripe::components::get_all_component_templates());
    for name in &names {
        let here = registry.resolve(name).ok().unwrap();
        let there = cargo_stripe::components::get_component_file_mapping(name).ok().unwrap();
        assert_eq!(here.extension_file, there.extension_file);
        assert_eq!(here.generated_files, there.generated_files);
    }
    assert!(registry.is_valid("all"));
    assert_eq!(registry.resolve("all").err(), Some(ComponentError::InvalidBulkOperand));
}
