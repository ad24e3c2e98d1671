use biome_configuration::document::{Member, SchemaError, Value};
use biome_configuration::loader::{
    assemble, look_into, search_location, settle_document, settle_lookup, LoadOutcome, Lookup,
};
use biome_configuration::{
    Configuration, ConfigurationDiagnostic, ConfigurationPathHint, ConfigurationPayload,
    PartialConfiguration, PartialFormatterConfiguration,
};

fn payload() -> ConfigurationPayload {
    ConfigurationPayload {
        deserialized: PartialConfiguration::init(),
        configuration_file_path: "/work/biome.json".to_string(),
        external_resolution_base_path: "/work".to_string(),
    }
}

fn width(indent_width: Option<u8>, line_width: Option<u16>) -> PartialConfiguration {
    let mut fragment = PartialConfiguration::default();
    fragment.formatter = Some(PartialFormatterConfiguration {
        enabled: None,
        format_with_errors: None,
        indent_style: None,
        indent_width,
        line_ending: None,
        line_width,
    });
    fragment
}

#[test]
fn search_starts_where_the_hint_says() {
    assert_eq!(search_location(&ConfigurationPathHint::NoHint, "/cwd"), "/cwd");
    assert_eq!(
        search_location(&ConfigurationPathHint::FromLsp("/lsp".to_string()), "/cwd"),
        "/lsp",
    );
    assert_eq!(
        search_location(&ConfigurationPathHint::FromUser("cfg/biome.json".to_string()), "/cwd"),
        "cfg/biome.json"
    );
}

#[test]
fn missing_file_fails_only_under_the_user_hint() {
    let user = ConfigurationPathHint::FromUser("/nowhere".to_string());
    assert_eq!(
        settle_lookup(&user, "/nowhere".to_string(), Lookup::Missing),
        LoadOutcome::Failed(ConfigurationDiagnostic::NotFound { path: "/nowhere".to_string() })
    );
    assert_eq!(
        settle_lookup(&ConfigurationPathHint::NoHint, "/cwd".to_string(), Lookup::Missing),
        LoadOutcome::Defaults
    );
    assert_eq!(
        settle_lookup(
            &ConfigurationPathHint::FromLsp("/lsp".to_string()),
            "/lsp".to_string(),
            Lookup::Missing
        ),
        LoadOutcome::Defaults
    );
}

#[test]
fn missing_default_location_loads_the_defaults() {
    let outcome = settle_lookup(
        &ConfigurationPathHint::NoHint,
        "/cwd".to_string(),
        Lookup::Missing,
    );
    assert_eq!(outcome, LoadOutcome::Defaults);
    let configuration =
        assemble(Vec::new(), PartialConfiguration::default(), PartialConfiguration::default());
    assert_eq!(configuration, Configuration::default());
}

#[test]
fn unreadable_file_fails_only_under_the_user_hint() {
    let user = ConfigurationPathHint::FromUser("/locked".to_string());
    assert_eq!(
        settle_lookup(&user, "/locked".to_string(), Lookup::Unreadable),
        LoadOutcome::Failed(ConfigurationDiagnostic::Unreadable { path: "/locked".to_string() })
    );
    assert_eq!(
        settle_lookup(&ConfigurationPathHint::NoHint, "/cwd".to_string(), Lookup::Unreadable),
        LoadOutcome::Defaults
    );
    assert_eq!(
        settle_lookup(
            &ConfigurationPathHint::FromLsp("/lsp".to_string()),
            "/lsp".to_string(),
            Lookup::Unreadable
        ),
        LoadOutcome::Defaults
    );
}

#[test]
fn malformed_file_fails_under_every_hint() {
    for hint in [
        ConfigurationPathHint::NoHint,
        ConfigurationPathHint::FromLsp("/x".to_string()),
        ConfigurationPathHint::FromUser("/x".to_string()),
    ] {
        assert_eq!(
            settle_lookup(&hint, "/x".to_string(), Lookup::Malformed),
            LoadOutcome::Failed(ConfigurationDiagnostic::Malformed { path: "/x".to_string() })
        );
    }
}

#[test]
fn found_file_is_loaded_under_every_hint() {
    for hint in [
        ConfigurationPathHint::NoHint,
        ConfigurationPathHint::FromLsp("/work".to_string()),
        ConfigurationPathHint::FromUser("/work/biome.json".to_string()),
    ] {
        assert_eq!(
            settle_lookup(&hint, "/work".to_string(), Lookup::Found(payload())),
            LoadOutcome::Loaded(payload())
        );
    }
}

#[test]
fn sources_merge_in_their_order_of_precedence() {
    let extended = vec![width(Some(2), Some(60)), width(Some(4), None)];
    let local = width(None, Some(100));
    let command_line = width(Some(8), None);
    let configuration = assemble(extended, local, command_line);
    assert_eq!(configuration.formatter.indent_width, 8);
    assert_eq!(configuration.formatter.line_width, 100);

    let extended = vec![width(Some(2), Some(60)), width(Some(4), None)];
    let configuration = assemble(
        extended,
        PartialConfiguration::default(),
        PartialConfiguration::default(),
    );
    assert_eq!(configuration.formatter.indent_width, 4);
    assert_eq!(configuration.formatter.line_width, 60);
}

fn unknown_key_document() -> Value {
    Value::Object(vec![
        Member { key: "formatter".to_string(), value: Value::Object(vec![]) },
        Member { key: "unknownKey".to_string(), value: Value::Bool(true) },
    ])
}

#[test]
fn unknown_top_level_key_fails_the_load_with_key_and_path() {
    for hint in [
        ConfigurationPathHint::NoHint,
        ConfigurationPathHint::FromLsp("/work".to_string()),
        ConfigurationPathHint::FromUser("/work/biome.json".to_string()),
    ] {
        let outcome = settle_document(
            &hint,
            "/work/biome.json".to_string(),
            "/work".to_string(),
            &unknown_key_document(),
        );
        assert_eq!(
            outcome,
            LoadOutcome::Failed(ConfigurationDiagnostic::Invalid {
                path: "/work/biome.json".to_string(),
                error: SchemaError::UnknownKey { key: "unknownKey".to_string() },
            })
        );
    }
}

#[test]
fn invalid_document_is_handed_on_with_its_path() {
    let lookup = look_into(
        "/work/biome.json".to_string(),
        "/work".to_string(),
        &unknown_key_document(),
    );
    assert_eq!(
        lookup,
        Lookup::Invalid {
            path: "/work/biome.json".to_string(),
            error: SchemaError::UnknownKey { key: "unknownKey".to_string() },
        }
    );
    let nested = Value::Object(vec![Member {
        key: "formatter".to_string(),
        value: Value::Object(vec![Member {
            key: "indentWidth".to_string(),
            value: Value::Number(300),
        }]),
    }]);
    let outcome = settle_lookup(
        &ConfigurationPathHint::NoHint,
        "/work".to_string(),
        look_into("/work/biome.jsonc".to_string(), "/work".to_string(), &nested),
    );
    assert_eq!(
        outcome,
        LoadOutcome::Failed(ConfigurationDiagnostic::Invalid {
            path: "/work/biome.jsonc".to_string(),
            error: SchemaError::OutOfRange { key: "indentWidth".to_string() },
        })
    );
}

#[test]
fn valid_document_is_loaded_with_its_path_and_base() {
    let document = Value::Object(vec![Member {
        key: "organizeImports".to_string(),
        value: Value::Object(vec![Member {
            key: "enabled".to_string(),
            value: Value::Bool(false),
        }]),
    }]);
    let outcome = settle_document(
        &ConfigurationPathHint::NoHint,
        "/work/biome.json".to_string(),
        "/work".to_string(),
        &document,
    );
    match outcome {
        LoadOutcome::Loaded(payload) => {
            assert_eq!(payload.configuration_file_path, "/work/biome.json");
            assert_eq!(payload.external_resolution_base_path, "/work");
            assert!(payload.deserialized.is_organize_imports_disabled());
        }
        other => panic!("unexpected {other:?}"),
    }
}
