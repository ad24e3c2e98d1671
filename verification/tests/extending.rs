use biome_configuration::document::{Member, SchemaError, Value};
use biome_configuration::extends::{
    entry_kind, resolve_document, Action, EntryKind, ExtendsError, ExtendsResolver, Resolution,
};
use biome_configuration::ConfigurationDiagnostic;
use biome_configuration::{CantLoadExtendFile, ConfigurationPayload, PartialConfiguration};
use biome_deserialize::StringSet;

fn from_strings(strings: Vec<String>) -> StringSet {
    strings.into_iter().collect()
}

fn file(path: &str, base: &str, extends: &[&str]) -> ConfigurationPayload {
    let mut deserialized = PartialConfiguration::default();
    deserialized.schema = Some(path.to_string());
    if !extends.is_empty() {
        deserialized.extends = Some(from_strings(extends.iter().map(|s| s.to_string()).collect()));
    }
    ConfigurationPayload {
        deserialized,
        configuration_file_path: path.to_string(),
        external_resolution_base_path: base.to_string(),
    }
}

/// Walks the chain of `root`, finding for each entry what `lookup` says, and
/// gives the last action with the entries asked for on the way.
fn walk(
    root: &ConfigurationPayload,
    lookup: fn(&str, &str) -> Resolution,
) -> (Action, Vec<(String, String)>) {
    let mut resolver = ExtendsResolver::new(root);
    let mut asked = Vec::new();
    let mut action = resolver.proceed();
    for _ in 0..100 {
        match action {
            Action::Load { specifier, base_path } => {
                let found = lookup(&specifier, &base_path);
                asked.push((specifier, base_path));
                action = resolver.resume(found);
            }
            ended => return (ended, asked),
        }
    }
    panic!("the walk does not end");
}

fn names(fragments: &[PartialConfiguration]) -> Vec<String> {
    fragments.iter().map(|f| f.schema.clone().unwrap()).collect()
}

fn two_file_cycle(specifier: &str, _base: &str) -> Resolution {
    match specifier {
        "./b.json" => Resolution::Found(file("/p/b.json", "/p", &["./a.json"])),
        "./a.json" => Resolution::Found(file("/p/a.json", "/p", &["./b.json"])),
        _ => Resolution::NotFound { searched: vec![] },
    }
}

#[test]
fn two_file_extends_cycle_fails_and_ends() {
    let root = file("/p/a.json", "/p", &["./b.json"]);
    let (action, asked) = walk(&root, two_file_cycle);
    assert_eq!(
        action,
        Action::Fail(ExtendsError::Cycle {
            chain: vec!["/p/a.json".to_string(), "/p/b.json".to_string(), "/p/a.json".to_string()],
        })
    );
    assert_eq!(asked.len(), 2);
}

fn itself(_specifier: &str, _base: &str) -> Resolution {
    Resolution::Found(file("/p/a.json", "/p", &["./a.json"]))
}

#[test]
fn file_that_extends_itself_fails() {
    let root = file("/p/a.json", "/p", &["./a.json"]);
    let (action, asked) = walk(&root, itself);
    assert_eq!(
        action,
        Action::Fail(ExtendsError::Cycle {
            chain: vec!["/p/a.json".to_string(), "/p/a.json".to_string()],
        })
    );
    assert_eq!(asked.len(), 1);
}

fn tree(specifier: &str, base: &str) -> Resolution {
    match (specifier, base) {
        ("./x.json", "/p") => Resolution::Found(file("/p/x.json", "/p", &["./z.json", "pkg/w"])),
        ("./y.json", "/p") => Resolution::Found(file("/p/y.json", "/p", &[])),
        ("./z.json", "/p") => Resolution::Found(file("/p/z.json", "/p", &[])),
        ("pkg/w", "/p") => {
            Resolution::Found(
                file("/p/node_modules/pkg/w.json", "/p/node_modules/pkg", &["./v.json"]),
            )
        }
        ("./v.json", "/p/node_modules/pkg") => {
            Resolution::Found(file("/p/node_modules/pkg/v.json", "/p/node_modules/pkg", &[]))
        }
        _ => Resolution::NotFound { searched: vec![format!("{base}/{specifier}")] },
    }
}

#[test]
fn fragments_come_out_depth_first_and_dependencies_first() {
    let root = file("/p/root.json", "/p", &["./x.json", "./y.json"]);
    let (action, asked) = walk(&root, tree);
    match action {
        Action::Done { fragments } => assert_eq!(
            names(&fragments),
            vec![
                "/p/z.json".to_string(),
                "/p/node_modules/pkg/v.json".to_string(),
                "/p/node_modules/pkg/w.json".to_string(),
                "/p/x.json".to_string(),
                "/p/y.json".to_string(),
            ]
        ),
        other => panic!("unexpected {other:?}"),
    }
    assert_eq!(
        asked,
        vec![
            ("./x.json".to_string(), "/p".to_string()),
            ("./z.json".to_string(), "/p".to_string()),
            ("pkg/w".to_string(), "/p".to_string()),
            ("./v.json".to_string(), "/p/node_modules/pkg".to_string()),
            ("./y.json".to_string(), "/p".to_string()),
        ]
    );
}

#[test]
fn entries_of_an_extended_file_resolve_from_its_own_base() {
    let root = file("/p/root.json", "/p", &["pkg/w"]);
    let (action, asked) = walk(&root, tree);
    assert!(matches!(action, Action::Done { .. }));
    assert_eq!(asked[1], ("./v.json".to_string(), "/p/node_modules/pkg".to_string()));
}

fn diamond(specifier: &str, _base: &str) -> Resolution {
    match specifier {
        "./x.json" => Resolution::Found(file("/p/x.json", "/p", &["./z.json"])),
        "./y.json" => Resolution::Found(file("/p/y.json", "/p", &["./z.json"])),
        "./z.json" => Resolution::Found(file("/p/z.json", "/p", &[])),
        _ => Resolution::NotFound { searched: vec![] },
    }
}

#[test]
fn file_extended_twice_is_no_cycle() {
    let root = file("/p/root.json", "/p", &["./x.json", "./y.json"]);
    let (action, _) = walk(&root, diamond);
    match action {
        Action::Done { fragments } => assert_eq!(
            names(&fragments),
            vec![
                "/p/z.json".to_string(),
                "/p/x.json".to_string(),
                "/p/z.json".to_string(),
                "/p/y.json".to_string(),
            ]
        ),
        other => panic!("unexpected {other:?}"),
    }
}

#[test]
fn unresolved_entry_fails_with_what_was_searched() {
    let root = file("/p/root.json", "/p", &["./x.json", "./missing.json"]);
    let (action, asked) = walk(&root, tree);
    assert_eq!(
        action,
        Action::Fail(ExtendsError::CantLoad(CantLoadExtendFile {
            specifier: "./missing.json".to_string(),
            base_path: "/p".to_string(),
            searched: vec!["/p/./missing.json".to_string()],
        }))
    );
    assert_eq!(asked.len(), 5);
}

#[test]
fn file_without_entries_has_an_empty_chain() {
    let root = file("/p/root.json", "/p", &[]);
    let mut resolver = ExtendsResolver::new(&root);
    assert!(!resolver.is_awaiting());
    assert_eq!(resolver.proceed(), Action::Done { fragments: vec![] });
    assert!(!resolver.is_awaiting());
    assert_eq!(resolver.proceed(), Action::Done { fragments: vec![] });
}

#[test]
fn outcome_that_nobody_waits_for_is_dropped() {
    let root = file("/p/root.json", "/p", &[]);
    let mut resolver = ExtendsResolver::new(&root);
    let action = resolver.resume(Resolution::Found(file("/p/x.json", "/p", &[])));
    assert_eq!(action, Action::Done { fragments: vec![] });
}

#[test]
fn walk_is_over_after_a_failure() {
    let root = file("/p/a.json", "/p", &["./b.json", "./c.json"]);
    let mut resolver = ExtendsResolver::new(&root);
    assert!(resolver.is_awaiting());
    assert_eq!(
        resolver.proceed(),
        Action::Load { specifier: "./b.json".to_string(), base_path: "/p".to_string() }
    );
    let action = resolver.resume(Resolution::NotFound { searched: vec![] });
    assert!(matches!(action, Action::Fail(ExtendsError::CantLoad(_))));
    assert!(!resolver.is_awaiting());
    assert_eq!(resolver.proceed(), Action::Done { fragments: vec![] });
}

#[test]
fn entries_are_paths_or_package_references() {
    assert_eq!(entry_kind("./base.json"), EntryKind::Path);
    assert_eq!(entry_kind("../shared/biome.json"), EntryKind::Path);
    assert_eq!(entry_kind(".hidden.json"), EntryKind::Path);
    assert_eq!(entry_kind("/etc/biome.json"), EntryKind::Path);
    assert_eq!(entry_kind("example/biome"), EntryKind::Package);
    assert_eq!(entry_kind("@scope/config/biome"), EntryKind::Package);
    assert_eq!(entry_kind("base.json"), EntryKind::Package);
    assert_eq!(entry_kind(""), EntryKind::Package);
}

fn broken(specifier: &str, _base: &str) -> Resolution {
    match specifier {
        "./ok.json" => Resolution::Found(file("/p/ok.json", "/p", &[])),
        "./locked.json" => Resolution::Unreadable { path: "/p/locked.json".to_string() },
        "./text.json" => Resolution::Malformed { path: "/p/text.json".to_string() },
        "./wrong.json" => resolve_document(
            "/p/wrong.json".to_string(),
            "/p".to_string(),
            &Value::Object(vec![Member { key: "lintr".to_string(), value: Value::Null }]),
        ),
        _ => Resolution::NotFound { searched: vec![] },
    }
}

#[test]
fn unreadable_extended_file_fails_the_walk() {
    let root = file("/p/root.json", "/p", &["./ok.json", "./locked.json", "./ok.json"]);
    let (action, asked) = walk(&root, broken);
    assert_eq!(
        action,
        Action::Fail(ExtendsError::Unreadable { path: "/p/locked.json".to_string() })
    );
    assert_eq!(asked.len(), 2);
}

#[test]
fn malformed_extended_file_fails_the_walk() {
    let root = file("/p/root.json", "/p", &["./text.json"]);
    let (action, _) = walk(&root, broken);
    assert_eq!(action, Action::Fail(ExtendsError::Malformed { path: "/p/text.json".to_string() }));
}

#[test]
fn invalid_extended_file_fails_the_walk_with_key_and_path() {
    let root = file("/p/root.json", "/p", &["./ok.json", "./wrong.json"]);
    let (action, _) = walk(&root, broken);
    assert_eq!(
        action,
        Action::Fail(ExtendsError::Invalid {
            path: "/p/wrong.json".to_string(),
            error: SchemaError::UnknownKey { key: "lintr".to_string() },
        })
    );
}

#[test]
fn document_of_an_extended_file_is_read() {
    let document = Value::Object(vec![Member {
        key: "extends".to_string(),
        value: Value::List(vec![Value::Text("./z.json".to_string())]),
    }]);
    match resolve_document("/p/x.json".to_string(), "/p".to_string(), &document) {
        Resolution::Found(payload) => {
            assert_eq!(payload.configuration_file_path, "/p/x.json");
            assert_eq!(payload.external_resolution_base_path, "/p");
            assert!(payload.deserialized.extends.is_some());
        }
        other => panic!("unexpected {other:?}"),
    }
}

#[test]
fn failures_of_the_walk_become_diagnostics_of_the_load() {
    assert_eq!(
        ConfigurationDiagnostic::from_extends(ExtendsError::Cycle {
            chain: vec!["/a".to_string(), "/a".to_string()],
        }),
        ConfigurationDiagnostic::ExtendsCycle { chain: vec!["/a".to_string(), "/a".to_string()] }
    );
    assert_eq!(
        ConfigurationDiagnostic::from_extends(ExtendsError::CantLoad(CantLoadExtendFile {
            specifier: "./x".to_string(),
            base_path: "/p".to_string(),
            searched: vec!["/p/x".to_string()],
        })),
        ConfigurationDiagnostic::CantLoadExtendFile(CantLoadExtendFile {
            specifier: "./x".to_string(),
            base_path: "/p".to_string(),
            searched: vec!["/p/x".to_string()],
        })
    );
    assert_eq!(
        ConfigurationDiagnostic::from_extends(ExtendsError::Unreadable { path: "/x".to_string() }),
        ConfigurationDiagnostic::Unreadable { path: "/x".to_string() }
    );
    assert_eq!(
        ConfigurationDiagnostic::from_extends(ExtendsError::Malformed { path: "/x".to_string() }),
        ConfigurationDiagnostic::Malformed { path: "/x".to_string() }
    );
    assert_eq!(
        ConfigurationDiagnostic::from_extends(ExtendsError::Invalid {
            path: "/x".to_string(),
            error: SchemaError::WrongType { key: "vcs".to_string() },
        }),
        ConfigurationDiagnostic::Invalid {
            path: "/x".to_string(),
            error: SchemaError::WrongType { key: "vcs".to_string() },
        }
    );
}
