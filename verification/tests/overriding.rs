use biome_configuration::matcher::{Pattern, PatternError};
use biome_configuration::overrides::InvalidOverridePattern;
use biome_configuration::{
    OverridePattern, Overrides, PartialConfiguration, PartialFormatterConfiguration,
    PartialLinterConfiguration,
};
use biome_deserialize::StringSet;

fn from_strings(strings: Vec<String>) -> StringSet {
    strings.into_iter().collect()
}

fn matches(glob: &str, path: &str) -> bool {
    Pattern::new(glob).unwrap().matches(path)
}

fn entry(includes: &[&str], ignore: &[&str]) -> OverridePattern {
    OverridePattern {
        ignore: from_strings(ignore.iter().map(|s| s.to_string()).collect()),
        includes: from_strings(includes.iter().map(|s| s.to_string()).collect()),
        formatter: None,
        linter: None,
        organize_imports: None,
    }
}

fn width(indent_width: u8) -> PartialFormatterConfiguration {
    PartialFormatterConfiguration {
        enabled: None,
        format_with_errors: None,
        indent_style: None,
        indent_width: Some(indent_width),
        line_ending: None,
        line_width: None,
    }
}

fn linter(enabled: bool) -> PartialLinterConfiguration {
    PartialLinterConfiguration { enabled: Some(enabled), rules: None }
}

#[test]
fn literal_patterns() {
    assert!(matches("a.js", "a.js"));
    assert!(!matches("a.js", "b.js"));
    assert!(!matches("a.js", "a.jsx"));
    assert!(!matches("a.js", "a.j"));
    assert!(matches("", ""));
    assert!(!matches("", "a"));
    assert!(!matches("a", ""));
}

#[test]
fn question_mark_takes_one_character_but_no_separator() {
    assert!(matches("a?c", "abc"));
    assert!(matches("a?c", "aéc"));
    assert!(!matches("a?c", "ac"));
    assert!(!matches("a?c", "abbc"));
    assert!(!matches("a?c", "a/c"));
    assert!(matches("???", "abc"));
    assert!(!matches("???", "ab"));
}

#[test]
fn star_takes_any_run_within_a_component() {
    assert!(matches("*.test.js", "a.test.js"));
    assert!(!matches("*.test.js", "a.js"));
    assert!(matches("*.test.js", ".test.js"));
    assert!(!matches("*.test.js", "src/a.test.js"));
    assert!(matches("*", ""));
    assert!(matches("*", "anything"));
    assert!(!matches("*", "a/b"));
    assert!(matches("a*b*c", "abc"));
    assert!(matches("a*b*c", "a-b-b-c"));
    assert!(!matches("a*b*c", "a-c"));
    assert!(matches("src/*.rs", "src/lib.rs"));
    assert!(!matches("src/*.rs", "src/a/lib.rs"));
    assert!(matches("*a", "aaa"));
    assert!(!matches("*a", "aab"));
}

#[test]
fn double_star_crosses_components() {
    assert!(matches("**", ""));
    assert!(matches("**", "a/b/c"));
    assert!(matches("**/*.js", "a.js"));
    assert!(matches("**/*.js", "src/a.js"));
    assert!(matches("**/*.js", "src/deep/er/a.js"));
    assert!(!matches("**/*.js", "src/a.ts"));
    assert!(matches("src/**", "src/"));
    assert!(matches("src/**", "src/a/b"));
    assert!(!matches("src/**", "src"));
    assert!(!matches("src/**", "lib/a"));
    assert!(matches("a/**/b", "a/b"));
    assert!(matches("a/**/b", "a/x/b"));
    assert!(matches("a/**/b", "a/x/y/b"));
    assert!(!matches("a/**/b", "a/xb"));
    assert!(!matches("a/**/b", "ab"));
    assert!(matches("**/test/**", "test/"));
    assert!(matches("**/test/**", "a/test/b/c"));
}

#[test]
fn classes_take_one_listed_character() {
    assert!(matches("[abc].js", "a.js"));
    assert!(matches("[abc].js", "c.js"));
    assert!(!matches("[abc].js", "d.js"));
    assert!(!matches("[abc].js", "ab.js"));
    assert!(matches("[a-c]x", "bx"));
    assert!(!matches("[a-c]x", "dx"));
    assert!(matches("[a-cx-z]", "y"));
    assert!(!matches("[a-cx-z]", "m"));
    assert!(matches("[!a-c]", "d"));
    assert!(!matches("[!a-c]", "b"));
    assert!(!matches("[!a-c]", "/"));
    assert!(matches("[]]", "]"));
    assert!(matches("[!]]", "a"));
    assert!(!matches("[!]]", "]"));
    assert!(matches("[a-]", "-"));
    assert!(matches("[a-]", "a"));
    assert!(!matches("[a-]", "b"));
    assert!(matches("[0-9][0-9]", "42"));
    assert!(!matches("[0-9][0-9]", "4"));
}

#[test]
fn malformed_patterns_are_refused() {
    assert_eq!(Pattern::new("***").err(), Some(PatternError::Wildcards { at: 0 }));
    assert_eq!(Pattern::new("a/****/b").err(), Some(PatternError::Wildcards { at: 2 }));
    assert_eq!(Pattern::new("a**").err(), Some(PatternError::RecursiveWildcards { at: 1 }));
    assert_eq!(Pattern::new("**a").err(), Some(PatternError::RecursiveWildcards { at: 0 }));
    assert_eq!(Pattern::new("a/**b").err(), Some(PatternError::RecursiveWildcards { at: 2 }));
    assert_eq!(Pattern::new("[abc").err(), Some(PatternError::UnclosedClass { at: 0 }));
    assert_eq!(Pattern::new("x[").err(), Some(PatternError::UnclosedClass { at: 1 }));
    assert_eq!(Pattern::new("x[!").err(), Some(PatternError::UnclosedClass { at: 1 }));
    assert_eq!(Pattern::new("[]").err(), Some(PatternError::UnclosedClass { at: 0 }));
    assert_eq!(Pattern::new("ok[a]*[").err(), Some(PatternError::UnclosedClass { at: 6 }));
    assert!(Pattern::new("**/*.[jt]s?").is_ok());
}

#[test]
fn override_disables_linter_for_matching_files_only() {
    let mut pattern = entry(&["*.test.js"], &[]);
    pattern.linter = Some(linter(false));
    let overrides = Overrides(vec![pattern]);
    let mut base = PartialConfiguration::default();
    base.linter = Some(linter(true));

    let matched = overrides.apply("a.test.js", base.clone()).unwrap();
    assert!(matched.is_linter_disabled());
    assert!(!matched.resolve().linter.enabled);

    let unmatched = overrides.apply("a.js", base.clone()).unwrap();
    assert_eq!(unmatched, base);
    assert!(!unmatched.is_linter_disabled());
    assert!(unmatched.resolve().linter.enabled);
}

#[test]
fn later_declared_override_wins() {
    let mut four = entry(&["*.js"], &[]);
    four.formatter = Some(width(4));
    let mut eight = entry(&["a.*"], &[]);
    eight.formatter = Some(width(8));

    let forward = Overrides(vec![four.clone(), eight.clone()]);
    let backward = Overrides(vec![eight, four]);
    let base = PartialConfiguration::default();
    let first = forward.apply("a.js", base.clone()).unwrap().resolve();
    let second = backward.apply("a.js", base.clone()).unwrap().resolve();
    assert_eq!(first.formatter.indent_width, 8);
    assert_eq!(second.formatter.indent_width, 4);
    // A file that only one of the two entries is for does not depend on the order.
    assert_eq!(forward.apply("b.js", base.clone()).unwrap().resolve().formatter.indent_width, 4);
    assert_eq!(backward.apply("b.js", base.clone()).unwrap().resolve().formatter.indent_width, 4);
    assert_eq!(forward.apply("a.ts", base.clone()).unwrap().resolve().formatter.indent_width, 8);
}

#[test]
fn ignored_files_are_left_alone() {
    let mut pattern = entry(&["src/**"], &["src/vendor/**", "**/*.min.js"]);
    pattern.formatter = Some(width(4));
    let overrides = Overrides(vec![pattern]);
    let base = PartialConfiguration::default();
    assert_eq!(
        overrides.apply("src/a.js", base.clone()).unwrap().formatter,
        Some(width(4))
    );
    assert_eq!(overrides.apply("src/vendor/a.js", base.clone()).unwrap(), base);
    assert_eq!(overrides.apply("src/x/a.min.js", base.clone()).unwrap(), base);
    assert_eq!(overrides.apply("lib/a.js", base.clone()).unwrap(), base);
}

#[test]
fn entry_without_selecting_patterns_is_for_no_file() {
    let mut pattern = entry(&[], &[]);
    pattern.formatter = Some(width(4));
    let overrides = Overrides(vec![pattern]);
    let base = PartialConfiguration::default();
    assert_eq!(overrides.apply("a.js", base.clone()).unwrap(), base);
    assert_eq!(Overrides(Vec::new()).apply("a.js", base.clone()).unwrap(), base);
}

#[test]
fn override_merges_onto_the_base_field_by_field() {
    let mut pattern = entry(&["*.js"], &[]);
    pattern.formatter = Some(width(4));
    let overrides = Overrides(vec![pattern]);
    let mut base = PartialConfiguration::default();
    base.formatter = Some(PartialFormatterConfiguration { line_width: Some(100), ..width(2) });
    base.schema = Some("schema".to_string());
    let effective = overrides.apply("a.js", base).unwrap();
    assert_eq!(
        effective.formatter,
        Some(PartialFormatterConfiguration { line_width: Some(100), ..width(4) })
    );
    assert_eq!(effective.schema, Some("schema".to_string()));
}

#[test]
fn malformed_override_pattern_fails_the_application() {
    let good = entry(&["*.js"], &[]);
    let bad = entry(&["*.ts", "a**"], &["[x"]);
    let overrides = Overrides(vec![good, bad]);
    let err = overrides.apply("README.md", PartialConfiguration::default()).unwrap_err();
    assert_eq!(
        err,
        InvalidOverridePattern {
            entry: 1,
            pattern: "a**".to_string(),
            error: PatternError::RecursiveWildcards { at: 1 },
        }
    );
    let only_ignore = Overrides(vec![entry(&["*.js"], &["ok", "[x"])]);
    let err = only_ignore.apply("a.js", PartialConfiguration::default()).unwrap_err();
    assert_eq!(
        err,
        InvalidOverridePattern {
            entry: 0,
            pattern: "[x".to_string(),
            error: PatternError::UnclosedClass { at: 0 },
        }
    );
}

#[test]
fn validation_finds_the_first_malformed_pattern() {
    let good = entry(&["*.js", "**/*.[jt]s"], &["vendor/**"]);
    assert_eq!(Overrides(vec![good.clone()]).validate(), Ok(()));
    assert_eq!(Overrides(Vec::new()).validate(), Ok(()));
    let bad = entry(&["*.ts"], &["ok", "***"]);
    let worse = entry(&["[", "a**"], &[]);
    assert_eq!(
        Overrides(vec![good, bad, worse]).validate(),
        Err(InvalidOverridePattern {
            entry: 1,
            pattern: "***".to_string(),
            error: PatternError::Wildcards { at: 0 },
        })
    );
}

#[test]
fn entry_says_whether_it_is_for_a_file() {
    let pattern = entry(&["src/**", "*.md"], &["**/*.snap"]);
    assert_eq!(pattern.is_for("src/a/b.rs"), Ok(true));
    assert_eq!(pattern.is_for("README.md"), Ok(true));
    assert_eq!(pattern.is_for("src/a/b.snap"), Ok(false));
    assert_eq!(pattern.is_for("lib/a.rs"), Ok(false));
    assert_eq!(
        entry(&["x", "[a"], &["***"]).is_for("x"),
        Err(("[a".to_string(), PatternError::UnclosedClass { at: 0 }))
    );
}

#[test]
fn entry_delta_holds_what_the_entry_changes() {
    let mut pattern = entry(&["*.js"], &[]);
    pattern.formatter = Some(width(4));
    pattern.linter = Some(linter(false));
    let delta = pattern.delta();
    assert_eq!(delta.formatter, Some(width(4)));
    assert_eq!(delta.linter, Some(linter(false)));
    assert_eq!(delta.organize_imports, None);
    assert_eq!(delta.schema, None);
    assert!(delta.files.is_none() && delta.extends.is_none() && delta.overrides.is_none());
}
