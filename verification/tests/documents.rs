use biome_configuration::document::{Member, SchemaError, Value};
use biome_configuration::schema::from_document;
use biome_configuration::{
    FileSizeLimit, LineEnding, PartialConfiguration, PartialOrganizeImports, PlainIndentStyle,
    QuoteStyle, RulePlainConfiguration, Semicolons, VcsClientKind,
};
use biome_deserialize::StringSet;

fn to_strings(set: &StringSet) -> Vec<String> {
    set.iter().cloned().collect()
}

fn object(members: Vec<(&str, Value)>) -> Value {
    Value::Object(
        members.into_iter().map(|(key, value)| Member { key: key.to_string(), value }).collect(),
    )
}

fn text(s: &str) -> Value {
    Value::Text(s.to_string())
}

fn list(items: &[&str]) -> Value {
    Value::List(items.iter().map(|s| text(s)).collect())
}

fn unknown_key(key: &str) -> Result<PartialConfiguration, SchemaError> {
    Err(SchemaError::UnknownKey { key: key.to_string() })
}

fn wrong_type(key: &str) -> Result<PartialConfiguration, SchemaError> {
    Err(SchemaError::WrongType { key: key.to_string() })
}

fn out_of_range(key: &str) -> Result<PartialConfiguration, SchemaError> {
    Err(SchemaError::OutOfRange { key: key.to_string() })
}

fn unknown_variant(key: &str, value: &str) -> Result<PartialConfiguration, SchemaError> {
    Err(SchemaError::UnknownVariant { key: key.to_string(), value: value.to_string() })
}

#[test]
fn empty_document_sets_nothing() {
    assert_eq!(from_document(&object(vec![])), Ok(PartialConfiguration::default()));
}

#[test]
fn unrecognized_top_level_key_is_named() {
    let document = object(vec![
        ("formatter", object(vec![("enabled", Value::Bool(true))])),
        ("lintr", object(vec![])),
        ("alsoUnknown", Value::Null),
    ]);
    assert_eq!(from_document(&document), unknown_key("lintr"));
    assert_eq!(from_document(&object(vec![("schema", text("x"))])), unknown_key("schema"));
    assert_eq!(from_document(&object(vec![("include", list(&[]))])), unknown_key("include"));
}

#[test]
fn unknown_key_comes_before_every_other_error() {
    let document = object(vec![("formatter", Value::Bool(true)), ("nope", Value::Null)]);
    assert_eq!(from_document(&document), unknown_key("nope"));
}

#[test]
fn unrecognized_nested_key_is_named() {
    let document = object(vec![("formatter", object(vec![("indentSize", Value::Number(2))]))]);
    assert_eq!(from_document(&document), unknown_key("indentSize"));
    let document = object(vec![(
        "javascript",
        object(vec![("formatter", object(vec![("quotes", text("single"))]))]),
    )]);
    assert_eq!(from_document(&document), unknown_key("quotes"));
    let document = object(vec![(
        "overrides",
        Value::List(vec![object(vec![("include", list(&["*.js"])), ("files", list(&[]))])]),
    )]);
    assert_eq!(from_document(&document), unknown_key("files"));
    let document = object(vec![("vcs", object(vec![("root", text("."))]))]);
    assert_eq!(from_document(&document), unknown_key("root"));
}

#[test]
fn pattern_sets_are_read_under_the_key_of_the_file_format() {
    let document = object(vec![
        ("files", object(vec![("include", list(&["src/**"]))])),
        (
            "overrides",
            Value::List(vec![object(vec![
                ("include", list(&["*.test.js"])),
                ("linter", object(vec![("enabled", Value::Bool(false))])),
            ])]),
        ),
    ]);
    let fragment = from_document(&document).unwrap();
    assert_eq!(
        to_strings(fragment.files.as_ref().unwrap().includes.as_ref().unwrap()),
        vec!["src/**".to_string()]
    );
    let overrides = fragment.overrides.as_ref().unwrap();
    assert_eq!(to_strings(&overrides.0[0].includes), vec!["*.test.js".to_string()]);
    let mut base = PartialConfiguration::default();
    base.linter = Some(biome_configuration::PartialLinterConfiguration {
        enabled: Some(true),
        rules: None,
    });
    assert!(overrides.apply("a.test.js", base.clone()).unwrap().is_linter_disabled());
    assert!(!overrides.apply("a.js", base).unwrap().is_linter_disabled());

    let document = object(vec![("files", object(vec![("includes", list(&["src/**"]))]))]);
    assert_eq!(from_document(&document), unknown_key("includes"));
}

#[test]
fn document_that_is_no_object_is_refused() {
    assert_eq!(from_document(&Value::Null), wrong_type(""));
    assert_eq!(from_document(&Value::List(vec![])), wrong_type(""));
    assert_eq!(from_document(&text("{}")), wrong_type(""));
}

#[test]
fn whole_document_is_read() {
    let document = object(vec![
        ("$schema", text("https://biomejs.dev/schemas/1.6.0/schema.json")),
        (
            "vcs",
            object(vec![
                ("enabled", Value::Bool(true)),
                ("clientKind", text("git")),
                ("useIgnoreFile", Value::Bool(true)),
            ]),
        ),
        (
            "files",
            object(vec![
                ("maxSize", Value::Number(2048)),
                ("ignore", list(&["dist/**", "dist/**", "*.min.js"])),
                ("include", list(&["src/**"])),
                ("ignoreUnknown", Value::Bool(true)),
            ]),
        ),
        (
            "formatter",
            object(vec![
                ("enabled", Value::Bool(false)),
                ("formatWithErrors", Value::Bool(true)),
                ("indentStyle", text("space")),
                ("indentWidth", Value::Number(4)),
                ("lineEnding", text("crlf")),
                ("lineWidth", Value::Number(120)),
            ]),
        ),
        ("organizeImports", object(vec![("enabled", Value::Bool(false))])),
        (
            "linter",
            object(vec![
                ("enabled", Value::Bool(true)),
                (
                    "rules",
                    object(vec![
                        ("recommended", Value::Bool(false)),
                        ("noDebugger", text("error")),
                        ("all", Value::Bool(true)),
                        ("noVar", text("warn")),
                        ("noDebugger", text("off")),
                    ]),
                ),
            ]),
        ),
        (
            "javascript",
            object(vec![(
                "formatter",
                object(vec![("quoteStyle", text("single")), ("semicolons", text("asNeeded"))]),
            )]),
        ),
        (
            "json",
            object(vec![
                ("parser", object(vec![("allowComments", Value::Bool(true))])),
                ("formatter", object(vec![("lineEnding", text("cr"))])),
            ]),
        ),
        ("css", object(vec![("formatter", object(vec![("quoteStyle", text("double"))]))])),
        ("extends", list(&["./base.json", "pkg/config", "./base.json"])),
        (
            "overrides",
            Value::List(vec![
                object(vec![
                    ("include", list(&["*.test.js"])),
                    ("linter", object(vec![("enabled", Value::Bool(false))])),
                ]),
                object(vec![
                    ("ignore", list(&["vendor/**"])),
                    ("formatter", object(vec![("indentWidth", Value::Number(8))])),
                    ("organizeImports", object(vec![("enabled", Value::Bool(true))])),
                ]),
            ]),
        ),
    ]);
    let fragment = from_document(&document).unwrap();
    assert_eq!(
        fragment.schema,
        Some("https://biomejs.dev/schemas/1.6.0/schema.json".to_string())
    );
    let vcs = fragment.vcs.unwrap();
    assert_eq!(vcs.enabled, Some(true));
    assert_eq!(vcs.client_kind, Some(VcsClientKind::Git));
    assert_eq!(vcs.use_ignore_file, Some(true));
    let files = fragment.files.as_ref().unwrap();
    assert_eq!(files.max_size, FileSizeLimit::new(2048));
    assert_eq!(
        to_strings(files.ignore.as_ref().unwrap()),
        vec!["dist/**".to_string(), "*.min.js".to_string()]
    );
    assert_eq!(to_strings(files.includes.as_ref().unwrap()), vec!["src/**".to_string()]);
    assert_eq!(files.ignore_unknown, Some(true));
    let formatter = fragment.formatter.unwrap();
    assert_eq!(formatter.enabled, Some(false));
    assert_eq!(formatter.format_with_errors, Some(true));
    assert_eq!(formatter.indent_style, Some(PlainIndentStyle::Space));
    assert_eq!(formatter.indent_width, Some(4));
    assert_eq!(formatter.line_ending, Some(LineEnding::Crlf));
    assert_eq!(formatter.line_width, Some(120));
    assert_eq!(fragment.organize_imports, Some(PartialOrganizeImports { enabled: Some(false) }));
    let linter = fragment.linter.as_ref().unwrap();
    assert_eq!(linter.enabled, Some(true));
    let rules = linter.rules.as_ref().unwrap();
    assert_eq!(rules.recommended, Some(false));
    assert_eq!(rules.all, Some(true));
    assert_eq!(rules.table.get("noDebugger"), Some(RulePlainConfiguration::Off));
    assert_eq!(rules.table.get("noVar"), Some(RulePlainConfiguration::Warn));
    assert_eq!(rules.table.get("recommended"), None);
    assert_eq!(rules.table.get("all"), None);
    let javascript = fragment.javascript.unwrap().formatter.unwrap();
    assert_eq!(javascript.quote_style, Some(QuoteStyle::Single));
    assert_eq!(javascript.semicolons, Some(Semicolons::AsNeeded));
    assert_eq!(javascript.indent_width, None);
    let json = fragment.json.unwrap();
    assert_eq!(json.parser.unwrap().allow_comments, Some(true));
    assert_eq!(json.parser.unwrap().allow_trailing_commas, None);
    assert_eq!(json.formatter.unwrap().line_ending, Some(LineEnding::Cr));
    assert_eq!(fragment.css.unwrap().formatter.unwrap().quote_style, Some(QuoteStyle::Double));
    assert_eq!(
        to_strings(fragment.extends.as_ref().unwrap()),
        vec!["./base.json".to_string(), "pkg/config".to_string()]
    );
    let overrides = fragment.overrides.as_ref().unwrap();
    assert_eq!(overrides.0.len(), 2);
    assert_eq!(to_strings(&overrides.0[0].includes), vec!["*.test.js".to_string()]);
    assert!(to_strings(&overrides.0[0].ignore).is_empty());
    assert_eq!(overrides.0[0].linter.as_ref().unwrap().enabled, Some(false));
    assert!(overrides.0[0].formatter.is_none());
    assert!(to_strings(&overrides.0[1].includes).is_empty());
    assert_eq!(to_strings(&overrides.0[1].ignore), vec!["vendor/**".to_string()]);
    assert_eq!(overrides.0[1].formatter.unwrap().indent_width, Some(8));
    assert_eq!(
        overrides.0[1].organize_imports,
        Some(PartialOrganizeImports { enabled: Some(true) })
    );
}

#[test]
fn later_member_of_a_repeated_key_counts() {
    let document = object(vec![
        ("formatter", object(vec![("lineWidth", Value::Number(100))])),
        (
            "formatter",
            object(vec![("lineWidth", Value::Number(60)), ("lineWidth", Value::Number(90))]),
        ),
    ]);
    let fragment = from_document(&document).unwrap();
    assert_eq!(fragment.formatter.unwrap().line_width, Some(90));
}

#[test]
fn values_of_the_wrong_type_are_refused() {
    assert_eq!(from_document(&object(vec![("$schema", Value::Number(1))])), wrong_type("$schema"));
    assert_eq!(from_document(&object(vec![("vcs", Value::Bool(true))])), wrong_type("vcs"));
    assert_eq!(from_document(&object(vec![("extends", text("./a.json"))])), wrong_type("extends"));
    assert_eq!(
        from_document(&object(vec![("extends", Value::List(vec![text("a"), Value::Null]))])),
        wrong_type("extends")
    );
    assert_eq!(
        from_document(&object(vec![("overrides", object(vec![]))])),
        wrong_type("overrides"),
    );
    assert_eq!(
        from_document(&object(vec![("overrides", Value::List(vec![Value::Null]))])),
        wrong_type("overrides")
    );
    let document = object(vec![("formatter", object(vec![("enabled", text("yes"))]))]);
    assert_eq!(from_document(&document), wrong_type("enabled"));
    let document = object(vec![("formatter", object(vec![("enabled", Value::Null)]))]);
    assert_eq!(from_document(&document), wrong_type("enabled"));
    let document = object(vec![("formatter", object(vec![("indentWidth", Value::Fraction)]))]);
    assert_eq!(from_document(&document), wrong_type("indentWidth"));
    let document = object(vec![("formatter", object(vec![("indentStyle", Value::Bool(true))]))]);
    assert_eq!(from_document(&document), wrong_type("indentStyle"));
    let document = object(vec![(
        "linter",
        object(vec![("rules", object(vec![("noDebugger", Value::Bool(false))]))]),
    )]);
    assert_eq!(from_document(&document), wrong_type("noDebugger"));
}

#[test]
fn numbers_out_of_range_are_refused() {
    let document = object(vec![("formatter", object(vec![("indentWidth", Value::Number(256))]))]);
    assert_eq!(from_document(&document), out_of_range("indentWidth"));
    let document = object(vec![("formatter", object(vec![("indentWidth", Value::Number(255))]))]);
    assert_eq!(from_document(&document).unwrap().formatter.unwrap().indent_width, Some(255));
    let document = object(vec![("formatter", object(vec![("lineWidth", Value::Number(65536))]))]);
    assert_eq!(from_document(&document), out_of_range("lineWidth"));
    let document = object(vec![("formatter", object(vec![("lineWidth", Value::Number(65535))]))]);
    assert_eq!(from_document(&document).unwrap().formatter.unwrap().line_width, Some(65535));
    let document = object(vec![("files", object(vec![("maxSize", Value::Number(0))]))]);
    assert_eq!(from_document(&document), out_of_range("maxSize"));
    let document = object(vec![("files", object(vec![("maxSize", Value::Number(u64::MAX))]))]);
    assert_eq!(
        from_document(&document).unwrap().files.unwrap().max_size,
        FileSizeLimit::new(u64::MAX)
    );
}

#[test]
fn unknown_names_are_refused() {
    let document = object(vec![("formatter", object(vec![("indentStyle", text("tabs"))]))]);
    assert_eq!(from_document(&document), unknown_variant("indentStyle", "tabs"));
    let document = object(vec![("formatter", object(vec![("lineEnding", text("LF"))]))]);
    assert_eq!(from_document(&document), unknown_variant("lineEnding", "LF"));
    let document = object(vec![("vcs", object(vec![("clientKind", text("hg"))]))]);
    assert_eq!(from_document(&document), unknown_variant("clientKind", "hg"));
    let document = object(vec![(
        "linter",
        object(
            vec![("rules", object(vec![("noVar", text("warn")), ("noDebugger", text("fatal"))]))],
        ),
    )]);
    assert_eq!(from_document(&document), unknown_variant("noDebugger", "fatal"));
}

#[test]
fn every_name_of_the_schema_is_read() {
    for (name, style) in [("tab", PlainIndentStyle::Tab), ("space", PlainIndentStyle::Space)] {
        let document = object(vec![("formatter", object(vec![("indentStyle", text(name))]))]);
        assert_eq!(from_document(&document).unwrap().formatter.unwrap().indent_style, Some(style));
    }
    for (name, ending) in
        [("lf", LineEnding::Lf), ("crlf", LineEnding::Crlf), ("cr", LineEnding::Cr)]
    {
        let document = object(vec![("formatter", object(vec![("lineEnding", text(name))]))]);
        assert_eq!(from_document(&document).unwrap().formatter.unwrap().line_ending, Some(ending));
    }
    for (name, level) in [
        ("warn", RulePlainConfiguration::Warn),
        ("error", RulePlainConfiguration::Error),
        ("off", RulePlainConfiguration::Off),
    ] {
        let document =
            object(vec![("linter", object(vec![("rules", object(vec![("aRule", text(name))]))]))]);
        let fragment = from_document(&document).unwrap();
        assert_eq!(fragment.linter.unwrap().rules.unwrap().table.get("aRule"), Some(level));
    }
    for (name, semicolons) in [("always", Semicolons::Always), ("asNeeded", Semicolons::AsNeeded)] {
        let document = object(vec![(
            "javascript",
            object(vec![("formatter", object(vec![("semicolons", text(name))]))]),
        )]);
        assert_eq!(
            from_document(&document).unwrap().javascript.unwrap().formatter.unwrap().semicolons,
            Some(semicolons)
        );
    }
}

#[test]
fn first_thing_amiss_in_schema_order_is_the_error() {
    let document = object(vec![(
        "formatter",
        object(vec![("lineWidth", text("wide")), ("enabled", Value::Number(1))]),
    )]);
    assert_eq!(from_document(&document), wrong_type("enabled"));
    let document = object(vec![
        ("linter", object(vec![("enabled", Value::Null)])),
        ("vcs", object(vec![("enabled", Value::Null), ("useIgnoreFile", Value::Null)])),
    ]);
    assert_eq!(from_document(&document), wrong_type("enabled"));
    let document = object(vec![
        ("css", Value::Null),
        ("json", object(vec![("parser", object(vec![("allowComments", Value::Number(1))]))])),
    ]);
    assert_eq!(from_document(&document), wrong_type("allowComments"));
}

#[test]
fn document_resolves_after_reading() {
    let document = object(vec![
        ("formatter", object(vec![("indentWidth", Value::Number(4))])),
        ("javascript", object(
            vec![("formatter", object(vec![("lineWidth", Value::Number(100))]))],
        )),
    ]);
    let configuration = from_document(&document).unwrap().resolve();
    assert_eq!(configuration.formatter.indent_width, 4);
    assert_eq!(configuration.javascript.formatter.indent_width, 4);
    assert_eq!(configuration.javascript.formatter.line_width, 100);
    assert_eq!(configuration.json.formatter.line_width, 80);
}
