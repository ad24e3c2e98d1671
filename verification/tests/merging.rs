use biome_configuration::{
    FileSizeLimit, LineEnding, PartialConfiguration, PartialFilesConfiguration,
    PartialFormatterConfiguration, PartialLinterConfiguration, PartialOrganizeImports,
    PartialRules, PartialVcsConfiguration, PlainIndentStyle, RulePlainConfiguration, RuleTable,
};
use biome_deserialize::StringSet;

fn from_strings(strings: Vec<String>) -> StringSet {
    strings.into_iter().collect()
}

fn to_strings(set: &StringSet) -> Vec<String> {
    set.iter().cloned().collect()
}

fn formatter(indent_width: Option<u8>, line_width: Option<u16>) -> PartialFormatterConfiguration {
    PartialFormatterConfiguration {
        enabled: None,
        format_with_errors: None,
        indent_style: None,
        indent_width,
        line_ending: None,
        line_width,
    }
}

fn with_formatter(f: PartialFormatterConfiguration) -> PartialConfiguration {
    let mut fragment = PartialConfiguration::default();
    fragment.formatter = Some(f);
    fragment
}

#[test]
fn later_scalar_wins_and_absent_resolves_to_default() {
    let a = with_formatter(PartialFormatterConfiguration {
        indent_style: Some(PlainIndentStyle::Space),
        ..formatter(Some(4), Some(100))
    });
    let b = with_formatter(formatter(Some(8), None));
    let resolved = PartialConfiguration::resolve_all(vec![a, b]);
    assert_eq!(resolved.formatter.indent_width, 8);
    assert_eq!(resolved.formatter.line_width, 100);
    assert_eq!(resolved.formatter.indent_style, PlainIndentStyle::Space);
    assert_eq!(resolved.formatter.line_ending, LineEnding::Lf);
    assert!(resolved.formatter.enabled);
    assert!(!resolved.formatter.format_with_errors);
}

#[test]
fn merge_order_decides() {
    let first = PartialConfiguration::resolve_all(vec![
        with_formatter(formatter(Some(4), None)),
        with_formatter(formatter(Some(8), None)),
    ]);
    let second = PartialConfiguration::resolve_all(vec![
        with_formatter(formatter(Some(8), None)),
        with_formatter(formatter(Some(4), None)),
    ]);
    assert_eq!(first.formatter.indent_width, 8);
    assert_eq!(second.formatter.indent_width, 4);
}

#[test]
fn merging_nothing_gives_the_absent_fragment() {
    assert_eq!(PartialConfiguration::merge_all(Vec::new()), PartialConfiguration::default());
    let one = PartialConfiguration::merge_all(vec![PartialConfiguration::init()]);
    assert_eq!(one, PartialConfiguration::init());
}

#[test]
fn absent_aggregate_leaves_the_earlier_one_untouched() {
    let mut a = with_formatter(formatter(Some(4), Some(100)));
    a.merge_with(PartialConfiguration::default());
    assert_eq!(a, with_formatter(formatter(Some(4), Some(100))));
    let mut b = PartialConfiguration::default();
    b.merge_with(with_formatter(formatter(Some(4), Some(100))));
    assert_eq!(b, with_formatter(formatter(Some(4), Some(100))));
}

#[test]
fn top_level_scalars_and_lists_are_replaced_whole() {
    let mut a = PartialConfiguration::default();
    a.schema = Some("a.json".to_string());
    a.extends = Some(from_strings(vec!["one".to_string(), "two".to_string()]));
    let mut b = PartialConfiguration::default();
    b.extends = Some(from_strings(vec!["three".to_string()]));
    a.merge_with(b);
    assert_eq!(a.schema, Some("a.json".to_string()));
    assert_eq!(to_strings(a.extends.as_ref().unwrap()), vec!["three".to_string()]);
}

#[test]
fn files_merge_field_by_field_and_replace_pattern_sets() {
    let mut a = PartialFilesConfiguration {
        max_size: FileSizeLimit::new(100),
        ignore: Some(from_strings(vec!["a".to_string(), "b".to_string()])),
        includes: Some(from_strings(vec!["src/**".to_string()])),
        ignore_unknown: None,
    };
    let b = PartialFilesConfiguration {
        max_size: None,
        ignore: Some(from_strings(vec!["c".to_string()])),
        includes: None,
        ignore_unknown: Some(true),
    };
    a.merge_with(b);
    assert_eq!(a.max_size, FileSizeLimit::new(100));
    assert_eq!(to_strings(a.ignore.as_ref().unwrap()), vec!["c".to_string()]);
    assert_eq!(to_strings(a.includes.as_ref().unwrap()), vec!["src/**".to_string()]);
    assert_eq!(a.ignore_unknown, Some(true));
}

#[test]
fn rule_tables_merge_key_by_key() {
    let mut earlier = RuleTable::new();
    earlier.set("noDebugger".to_string(), RulePlainConfiguration::Error);
    earlier.set("noVar".to_string(), RulePlainConfiguration::Warn);
    let mut later = RuleTable::new();
    later.set("noVar".to_string(), RulePlainConfiguration::Off);
    later.set("useConst".to_string(), RulePlainConfiguration::Error);

    let mut a = PartialConfiguration::default();
    a.linter = Some(PartialLinterConfiguration {
        enabled: Some(true),
        rules: Some(PartialRules { recommended: Some(false), all: None, table: earlier }),
    });
    let mut b = PartialConfiguration::default();
    b.linter = Some(PartialLinterConfiguration {
        enabled: None,
        rules: Some(PartialRules { recommended: Some(true), all: None, table: later }),
    });
    a.merge_with(b);
    let linter = a.linter.as_ref().unwrap();
    assert_eq!(linter.enabled, Some(true));
    let rules = linter.rules.as_ref().unwrap();
    assert_eq!(rules.recommended, Some(true));
    assert_eq!(rules.table.get("noDebugger"), Some(RulePlainConfiguration::Error));
    assert_eq!(rules.table.get("noVar"), Some(RulePlainConfiguration::Off));
    assert_eq!(rules.table.get("useConst"), Some(RulePlainConfiguration::Error));
    assert_eq!(rules.table.get("noConsoleLog"), None);
}

#[test]
fn setting_only_recommended_keeps_earlier_rules() {
    let mut earlier = RuleTable::new();
    earlier.set("noDebugger".to_string(), RulePlainConfiguration::Off);
    let mut a = PartialConfiguration::default();
    a.linter = Some(PartialLinterConfiguration {
        enabled: None,
        rules: Some(PartialRules { recommended: None, all: None, table: earlier }),
    });
    let mut b = PartialConfiguration::default();
    b.linter = Some(PartialLinterConfiguration {
        enabled: None,
        rules: Some(PartialRules { recommended: Some(true), all: None, table: RuleTable::new() }),
    });
    let resolved = PartialConfiguration::resolve_all(vec![a, b]);
    assert!(resolved.linter.rules.recommended);
    assert_eq!(resolved.linter.rules.table.get("noDebugger"), Some(RulePlainConfiguration::Off));
}

#[test]
fn precedence_runs_from_defaults_to_command_line() {
    let defaults = PartialConfiguration::default();
    let mut extended = with_formatter(formatter(Some(4), Some(100)));
    extended.vcs = Some(PartialVcsConfiguration {
        enabled: Some(true),
        client_kind: None,
        use_ignore_file: Some(true),
    });
    let mut local = with_formatter(formatter(None, Some(120)));
    local.organize_imports = Some(PartialOrganizeImports { enabled: Some(false) });
    let mut cli = PartialConfiguration::default();
    cli.files = Some(PartialFilesConfiguration {
        max_size: FileSizeLimit::new(4096),
        ignore: None,
        includes: None,
        ignore_unknown: Some(true),
    });
    cli.vcs = Some(PartialVcsConfiguration {
        enabled: None,
        client_kind: None,
        use_ignore_file: Some(false),
    });
    let resolved = PartialConfiguration::resolve_all(vec![defaults, extended, local, cli]);
    assert_eq!(resolved.formatter.indent_width, 4);
    assert_eq!(resolved.formatter.line_width, 120);
    assert!(resolved.vcs.enabled);
    assert!(!resolved.vcs.use_ignore_file);
    assert!(!resolved.organize_imports.enabled);
    assert_eq!(resolved.files.max_size.get(), 4096);
    assert!(resolved.files.ignore_unknown);
    assert!(resolved.linter.enabled);
}
