use project_manager::error::ErrorKind;
use project_manager::model::{Command, ProjectType};
use project_manager::register::{register, Registry, TypeCatalog};
use project_manager::table::Table;

fn catalog() -> TypeCatalog {
    let mut c: TypeCatalog = Table::new();
    let open = Command::new("code".to_string(), vec!["{path}".to_string()]);
    c.insert("rust".to_string(), ProjectType::new("rust".to_string(), vec![open]));
    c
}

fn entries(r: &Registry) -> Vec<(String, String)> {
    (0..r.len()).map(|i| {
        let (k, v) = r.entry(i);
        (k.clone(), v.clone())
    }).collect()
}

#[test]
fn registering_twice_is_idempotent() {
    let cat = catalog();
    let mut reg: Registry = Table::new();
    let first = register(&mut reg, &cat, "/home/u/app", Some("rust"), Some("app"), false).unwrap();
    assert!(first.marker.is_some());
    assert!(!first.replaced);
    let after_first = entries(&reg);
    let second = register(&mut reg, &cat, "/home/u/app", Some("rust"), Some("app"), true).unwrap();
    assert!(second.marker.is_none());
    assert!(second.replaced);
    assert_eq!(entries(&reg), after_first);
    assert_eq!(after_first, vec![("app".to_string(), "/home/u/app".to_string())]);
}

#[test]
fn rerun_after_partial_failure_heals() {
    let cat = catalog();
    let mut reg: Registry = Table::new();
    let r = register(&mut reg, &cat, "/home/u/half", None, None, true).unwrap();
    assert_eq!(r.name, "half");
    assert!(r.marker.is_none());
    assert_eq!(entries(&reg), vec![("half".to_string(), "/home/u/half".to_string())]);
}

#[test]
fn name_is_derived_from_last_component() {
    let cat = catalog();
    let mut reg: Registry = Table::new();
    let r = register(&mut reg, &cat, "/home/u/my-app", Some("rust"), None, false).unwrap();
    assert_eq!(r.name, "my-app");
    assert_eq!(reg.get(&"my-app".to_string()), Some(&"/home/u/my-app".to_string()));
}

#[test]
fn name_skips_trailing_separator_and_dot() {
    let cat = catalog();
    let mut reg: Registry = Table::new();
    let r = register(&mut reg, &cat, "/home/u/tool/./", Some("rust"), None, false).unwrap();
    assert_eq!(r.name, "tool");
}

#[test]
fn root_path_has_no_name() {
    let cat = catalog();
    let mut reg: Registry = Table::new();
    let e = register(&mut reg, &cat, "/", Some("rust"), None, false).unwrap_err();
    assert_eq!(e.kind, ErrorKind::InvalidPath("/".to_string()));
    assert_eq!(reg.len(), 0);
    let e = register(&mut reg, &cat, "/home/..", Some("rust"), None, false).unwrap_err();
    assert_eq!(e.kind, ErrorKind::InvalidPath("/home/..".to_string()));
}

#[test]
fn empty_explicit_name_is_refused() {
    let cat = catalog();
    let mut reg: Registry = Table::new();
    let e = register(&mut reg, &cat, "/home/u/x", Some("rust"), Some(""), false).unwrap_err();
    assert!(matches!(e.kind, ErrorKind::InvalidPath(_)));
}

#[test]
fn missing_type_fatal_only_on_first_registration() {
    let cat = catalog();
    let mut reg: Registry = Table::new();
    let e = register(&mut reg, &cat, "/home/u/fresh", None, None, false).unwrap_err();
    assert_eq!(e.kind, ErrorKind::MissingProjectType);
    assert_eq!(reg.len(), 0);
    let r = register(&mut reg, &cat, "/home/u/fresh", None, None, true).unwrap();
    assert_eq!(r.name, "fresh");
    assert_eq!(reg.len(), 1);
}

#[test]
fn unknown_type_is_refused() {
    let cat = catalog();
    let mut reg: Registry = Table::new();
    let e = register(&mut reg, &cat, "/home/u/x", Some("cobol"), None, false).unwrap_err();
    assert_eq!(e.kind, ErrorKind::UnknownProjectType("cobol".to_string()));
    assert_eq!(reg.len(), 0);
}

#[test]
fn given_type_is_ignored_when_marker_exists() {
    let cat = catalog();
    let mut reg: Registry = Table::new();
    let r = register(&mut reg, &cat, "/home/u/x", Some("cobol"), None, true).unwrap();
    assert!(r.marker.is_none());
}

#[test]
fn marker_holds_a_copy_of_the_catalog_type() {
    let cat = catalog();
    let mut reg: Registry = Table::new();
    let r = register(&mut reg, &cat, "/p", Some("rust"), None, false).unwrap();
    let m = r.marker.unwrap();
    assert_eq!(m.name, "rust");
    assert_eq!(m.open_commands.len(), 1);
    assert_eq!(m.open_commands[0].program, "code");
    assert_eq!(m.open_commands[0].arguments, vec!["{path}".to_string()]);
}

#[test]
fn last_registration_wins_in_place() {
    let cat = catalog();
    let mut reg: Registry = Table::new();
    register(&mut reg, &cat, "/a", None, Some("A"), true).unwrap();
    register(&mut reg, &cat, "/b", None, Some("B"), true).unwrap();
    let r = register(&mut reg, &cat, "/c", None, Some("A"), true).unwrap();
    assert!(r.replaced);
    assert_eq!(
        entries(&reg),
        vec![("A".to_string(), "/c".to_string()), ("B".to_string(), "/b".to_string())]
    );
}
