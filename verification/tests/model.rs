use biome_configuration::{
    Configuration, ConfigurationPathHint, FileSizeLimit, FilesConfiguration, FormatterConfiguration,
    JavascriptFormatter, JsonFormatter, LineEnding, PartialConfiguration, PartialFilesConfiguration,
    PartialFormatterConfiguration, PartialJavascriptConfiguration, PartialJavascriptFormatter,
    PartialJsonConfiguration, PartialJsonFormatter, PartialLinterConfiguration,
    PartialOrganizeImports, PartialRules, PartialVcsConfiguration, PlainIndentStyle, QuoteStyle,
    RulePlainConfiguration, RuleTable, Semicolons, VcsClientKind, DEFAULT_FILE_SIZE_LIMIT,
};
use biome_deserialize::StringSet;

fn from_strings(strings: Vec<String>) -> StringSet {
    strings.into_iter().collect()
}

fn to_strings(set: &StringSet) -> Vec<String> {
    set.iter().cloned().collect()
}

fn formatter_fragment() -> PartialFormatterConfiguration {
    PartialFormatterConfiguration {
        enabled: None,
        format_with_errors: None,
        indent_style: None,
        indent_width: None,
        line_ending: None,
        line_width: None,
    }
}

fn javascript_fragment() -> PartialJavascriptFormatter {
    PartialJavascriptFormatter {
        enabled: None,
        indent_style: None,
        indent_width: None,
        line_ending: None,
        line_width: None,
        quote_style: None,
        semicolons: None,
    }
}

#[test]
fn absent_fragment_resolves_to_the_default_configuration() {
    let resolved = PartialConfiguration::default().resolve();
    assert_eq!(resolved, Configuration::default());
    assert_eq!(resolved.schema, "");
    assert!(!resolved.vcs.enabled);
    assert_eq!(resolved.vcs.client_kind, VcsClientKind::Git);
    assert!(!resolved.vcs.use_ignore_file);
    assert!(resolved.formatter.enabled);
    assert!(!resolved.formatter.format_with_errors);
    assert_eq!(resolved.formatter.indent_style, PlainIndentStyle::Tab);
    assert_eq!(resolved.formatter.indent_width, 2);
    assert_eq!(resolved.formatter.line_ending, LineEnding::Lf);
    assert_eq!(resolved.formatter.line_width, 80);
    assert!(resolved.organize_imports.enabled);
    assert!(resolved.linter.enabled);
    assert!(resolved.linter.rules.recommended);
    assert!(!resolved.linter.rules.all);
    assert_eq!(resolved.javascript.formatter.quote_style, QuoteStyle::Double);
    assert_eq!(resolved.javascript.formatter.semicolons, Semicolons::Always);
    assert!(!resolved.json.parser.allow_comments);
    assert!(!resolved.json.parser.allow_trailing_commas);
    assert_eq!(resolved.css.formatter.quote_style, QuoteStyle::Double);
    assert!(to_strings(&resolved.extends).is_empty());
    assert!(resolved.overrides.0.is_empty());
    assert!(to_strings(&resolved.files.ignore).is_empty());
    assert!(to_strings(&resolved.files.includes).is_empty());
    assert!(!resolved.files.ignore_unknown);
}

#[test]
fn init_enables_import_sorting_and_recommended_linting() {
    let init = PartialConfiguration::init();
    assert_eq!(init.organize_imports, Some(PartialOrganizeImports { enabled: Some(true) }));
    let linter = init.linter.as_ref().unwrap();
    assert_eq!(linter.enabled, Some(true));
    let rules = linter.rules.as_ref().unwrap();
    assert_eq!(rules.recommended, Some(true));
    assert_eq!(rules.all, None);
    assert!(init.schema.is_none() && init.vcs.is_none() && init.files.is_none());
    assert!(init.formatter.is_none() && init.javascript.is_none() && init.json.is_none());
    assert!(init.css.is_none() && init.extends.is_none() && init.overrides.is_none());

    let resolved = init.resolve();
    assert!(resolved.organize_imports.enabled);
    assert!(resolved.linter.enabled);
    assert!(resolved.linter.rules.recommended);
    let default = Configuration::default();
    assert_eq!(resolved.schema, default.schema);
    assert_eq!(resolved.vcs, default.vcs);
    assert_eq!(resolved.files, default.files);
    assert_eq!(resolved.formatter, default.formatter);
    assert_eq!(resolved.javascript, default.javascript);
    assert_eq!(resolved.json, default.json);
    assert_eq!(resolved.css, default.css);
    assert_eq!(resolved.extends, default.extends);
    assert_eq!(resolved.overrides, default.overrides);
    assert!(!resolved.linter.rules.all);
    assert_eq!(resolved.linter.rules.table.get("noDebugger"), None);
}

#[test]
fn default_file_size_limit_is_one_mebibyte() {
    assert_eq!(DEFAULT_FILE_SIZE_LIMIT, 1_048_576);
    assert_eq!(FilesConfiguration::default().max_size.get(), 1_048_576);
    assert_eq!(PartialConfiguration::default().resolve().files.max_size.get(), 1_048_576);
    let fragment = PartialFilesConfiguration {
        max_size: None,
        ignore: None,
        includes: None,
        ignore_unknown: Some(true),
    };
    let resolved = fragment.get_files_configuration();
    assert_eq!(resolved.max_size.get(), 1_048_576);
    assert!(resolved.ignore_unknown);
}

#[test]
fn file_size_limit_is_never_zero() {
    assert_eq!(FileSizeLimit::new(0), None);
    assert_eq!(FileSizeLimit::new(1).unwrap().get(), 1);
    assert_eq!(FileSizeLimit::new(u64::MAX).unwrap().get(), u64::MAX);
    assert_eq!(FileSizeLimit::default().get(), 1024 * 1024);
}

#[test]
fn files_fragment_resolves_each_field() {
    let fragment = PartialFilesConfiguration {
        max_size: FileSizeLimit::new(2048),
        ignore: Some(from_strings(vec!["dist/**".to_string(), "*.min.js".to_string()])),
        includes: None,
        ignore_unknown: None,
    };
    let resolved = fragment.get_files_configuration();
    assert_eq!(resolved.max_size.get(), 2048);
    assert_eq!(to_strings(&resolved.ignore), vec!["dist/**".to_string(), "*.min.js".to_string()]);
    assert!(to_strings(&resolved.includes).is_empty());
    assert!(!resolved.ignore_unknown);
}

#[test]
fn string_set_keeps_first_occurrences_in_order() {
    let set = from_strings(vec![
        "b".to_string(),
        "a".to_string(),
        "b".to_string(),
        "c".to_string(),
        "a".to_string(),
    ]);
    assert_eq!(to_strings(&set), vec!["b".to_string(), "a".to_string(), "c".to_string()]);
    assert!(to_strings(&from_strings(Vec::new())).is_empty());
}

#[test]
fn disabled_predicates_on_absent_aggregates() {
    let absent = PartialConfiguration::default();
    assert!(absent.is_formatter_disabled());
    assert!(absent.is_linter_disabled());
    assert!(absent.is_organize_imports_disabled());
    assert!(absent.is_vcs_disabled());
    assert!(!absent.is_vcs_enabled());
}

#[test]
fn disabled_predicates_on_present_aggregates() {
    let mut fragment = PartialConfiguration::default();
    fragment.formatter = Some(formatter_fragment());
    fragment.linter = Some(PartialLinterConfiguration { enabled: None, rules: None });
    fragment.organize_imports = Some(PartialOrganizeImports { enabled: None });
    fragment.vcs =
        Some(PartialVcsConfiguration { enabled: None, client_kind: None, use_ignore_file: None });
    assert!(!fragment.is_formatter_disabled());
    assert!(!fragment.is_linter_disabled());
    assert!(!fragment.is_organize_imports_disabled());
    assert!(fragment.is_vcs_disabled());
    assert!(!fragment.is_vcs_enabled());

    fragment.formatter = Some(PartialFormatterConfiguration {
        enabled: Some(false),
        ..formatter_fragment()
    });
    fragment.linter = Some(PartialLinterConfiguration { enabled: Some(false), rules: None });
    fragment.organize_imports = Some(PartialOrganizeImports { enabled: Some(false) });
    fragment.vcs = Some(PartialVcsConfiguration {
        enabled: Some(false),
        client_kind: None,
        use_ignore_file: None,
    });
    assert!(fragment.is_formatter_disabled());
    assert!(fragment.is_linter_disabled());
    assert!(fragment.is_organize_imports_disabled());
    assert!(fragment.is_vcs_disabled());

    fragment.formatter = Some(PartialFormatterConfiguration {
        enabled: Some(true),
        ..formatter_fragment()
    });
    fragment.linter = Some(PartialLinterConfiguration { enabled: Some(true), rules: None });
    fragment.organize_imports = Some(PartialOrganizeImports { enabled: Some(true) });
    fragment.vcs = Some(PartialVcsConfiguration {
        enabled: Some(true),
        client_kind: Some(VcsClientKind::Git),
        use_ignore_file: Some(true),
    });
    assert!(!fragment.is_formatter_disabled());
    assert!(!fragment.is_linter_disabled());
    assert!(!fragment.is_organize_imports_disabled());
    assert!(!fragment.is_vcs_disabled());
    assert!(fragment.is_vcs_enabled());
    let resolved = fragment.resolve();
    assert!(resolved.vcs.enabled);
    assert!(resolved.vcs.use_ignore_file);
}

#[test]
fn formatter_configuration_fills_in_defaults() {
    let mut fragment = PartialConfiguration::default();
    assert_eq!(fragment.get_formatter_configuration(), FormatterConfiguration::default());
    fragment.formatter = Some(PartialFormatterConfiguration {
        indent_style: Some(PlainIndentStyle::Space),
        line_width: Some(120),
        ..formatter_fragment()
    });
    assert_eq!(
        fragment.get_formatter_configuration(),
        FormatterConfiguration {
            enabled: true,
            format_with_errors: false,
            indent_style: PlainIndentStyle::Space,
            indent_width: 2,
            line_ending: LineEnding::Lf,
            line_width: 120,
        }
    );
}

#[test]
fn javascript_formatter_inherits_from_the_top_level_formatter() {
    let mut fragment = PartialConfiguration::default();
    assert_eq!(fragment.get_javascript_formatter_configuration(), JavascriptFormatter::default());

    fragment.formatter = Some(PartialFormatterConfiguration {
        indent_style: Some(PlainIndentStyle::Space),
        indent_width: Some(4),
        line_width: Some(100),
        ..formatter_fragment()
    });
    fragment.javascript = Some(PartialJavascriptConfiguration {
        formatter: Some(PartialJavascriptFormatter {
            indent_width: Some(8),
            quote_style: Some(QuoteStyle::Single),
            ..javascript_fragment()
        }),
    });
    assert_eq!(
        fragment.get_javascript_formatter_configuration(),
        JavascriptFormatter {
            enabled: true,
            indent_style: PlainIndentStyle::Space,
            indent_width: 8,
            line_ending: LineEnding::Lf,
            line_width: 100,
            quote_style: QuoteStyle::Single,
            semicolons: Semicolons::Always,
        }
    );
    assert_eq!(
        fragment.resolve().javascript.formatter,
        fragment.get_javascript_formatter_configuration()
    );

    fragment.javascript = None;
    let inherited = fragment.get_javascript_formatter_configuration();
    assert_eq!(inherited.indent_style, PlainIndentStyle::Space);
    assert_eq!(inherited.indent_width, 4);
    assert_eq!(inherited.line_width, 100);
    assert_eq!(inherited.quote_style, QuoteStyle::Double);
}

#[test]
fn json_formatter_inherits_from_the_top_level_formatter() {
    let mut fragment = PartialConfiguration::default();
    assert_eq!(fragment.get_json_formatter_configuration(), JsonFormatter::default());
    fragment.formatter = Some(PartialFormatterConfiguration {
        enabled: Some(false),
        line_ending: Some(LineEnding::Crlf),
        ..formatter_fragment()
    });
    fragment.json = Some(PartialJsonConfiguration {
        parser: None,
        formatter: Some(PartialJsonFormatter {
            enabled: Some(true),
            indent_style: None,
            indent_width: None,
            line_ending: None,
            line_width: Some(60),
        }),
    });
    assert_eq!(
        fragment.get_json_formatter_configuration(),
        JsonFormatter {
            enabled: true,
            indent_style: PlainIndentStyle::Tab,
            indent_width: 2,
            line_ending: LineEnding::Crlf,
            line_width: 60,
        }
    );
    assert_eq!(fragment.resolve().json.formatter, fragment.get_json_formatter_configuration());
    let css = fragment.resolve().css.formatter;
    assert!(!css.enabled);
    assert_eq!(css.line_ending, LineEnding::Crlf);
}

#[test]
fn linter_rules_resolve_with_their_table() {
    let mut fragment = PartialConfiguration::default();
    let rules = fragment.get_linter_rules();
    assert!(rules.recommended);
    assert!(!rules.all);

    let mut table = RuleTable::new();
    table.set("noDebugger".to_string(), RulePlainConfiguration::Error);
    table.set("noConsoleLog".to_string(), RulePlainConfiguration::Off);
    fragment.linter = Some(PartialLinterConfiguration {
        enabled: None,
        rules: Some(PartialRules { recommended: Some(false), all: None, table }),
    });
    let rules = fragment.get_linter_rules();
    assert!(!rules.recommended);
    assert!(!rules.all);
    assert_eq!(rules.table.get("noDebugger"), Some(RulePlainConfiguration::Error));
    assert_eq!(rules.table.get("noConsoleLog"), Some(RulePlainConfiguration::Off));
    assert_eq!(rules.table.get("noVar"), None);
    assert_eq!(fragment.resolve().linter.rules, rules);
}

#[test]
fn rule_table_keeps_one_setting_for_each_rule() {
    let mut table = RuleTable::new();
    assert_eq!(table.get("a"), None);
    table.set("a".to_string(), RulePlainConfiguration::Warn);
    table.set("b".to_string(), RulePlainConfiguration::Error);
    table.set("a".to_string(), RulePlainConfiguration::Off);
    assert_eq!(table.get("a"), Some(RulePlainConfiguration::Off));
    assert_eq!(table.get("b"), Some(RulePlainConfiguration::Error));
    assert_eq!(table.get(""), None);
    let copy = table.clone();
    assert_eq!(copy.get("a"), Some(RulePlainConfiguration::Off));
    assert_eq!(copy.get("b"), Some(RulePlainConfiguration::Error));
}

#[test]
fn path_hint_predicates() {
    assert!(!ConfigurationPathHint::NoHint.is_from_user());
    assert!(!ConfigurationPathHint::NoHint.is_from_lsp());
    assert!(ConfigurationPathHint::FromUser("biome.json".to_string()).is_from_user());
    assert!(!ConfigurationPathHint::FromUser("biome.json".to_string()).is_from_lsp());
    assert!(ConfigurationPathHint::FromLsp("/work".to_string()).is_from_lsp());
    assert!(!ConfigurationPathHint::FromLsp("/work".to_string()).is_from_user());
    assert_eq!(ConfigurationPathHint::default(), ConfigurationPathHint::NoHint);
}

#[test]
fn clones_are_equal_to_what_they_copy() {
    let mut fragment = PartialConfiguration::init();
    fragment.schema = Some("https://biomejs.dev/schemas/1.6.0/schema.json".to_string());
    fragment.extends = Some(from_strings(vec!["./base.json".to_string()]));
    fragment.files = Some(PartialFilesConfiguration {
        max_size: FileSizeLimit::new(10),
        ignore: Some(from_strings(vec!["target".to_string()])),
        includes: None,
        ignore_unknown: Some(true),
    });
    assert_eq!(fragment.clone(), fragment);
    let resolved = fragment.resolve();
    assert_eq!(resolved.clone(), resolved);
    assert_eq!(resolved.schema, "https://biomejs.dev/schemas/1.6.0/schema.json");
    assert_eq!(to_strings(&resolved.extends), vec!["./base.json".to_string()]);
    assert_eq!(resolved.files.max_size.get(), 10);
}
