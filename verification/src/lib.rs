//! Layered configuration for a source-code analysis toolchain.
//!
//! Every configuration aggregate exists in two forms: a *full* form, in which
//! every field has a value, and a *partial* form, in which every field may be
//! absent. A source (a configuration file, a file it extends, the command
//! line) supplies a partial fragment. The fragments of one load are merged in
//! their order of precedence, and the outcome is resolved against the built-in
//! defaults into the one [`Configuration`] that the tools go by.
//!
//! - The aggregates, each with its merge and its resolution: this module for
//!   the whole configuration, [`files`], [`formatter`], [`linter`],
//!   [`organize_imports`], [`vcs`], and [`javascript`], [`json`], [`css`] for
//!   the languages. [`merge`] holds the rules for a single field, [`laws`]
//!   what follows for whole fragments.
//! - [`document`] and [`schema`] read a fragment out of a parsed document and
//!   hold the document to the closed schema.
//! - [`extends`] walks the chain of the files that a file extends; [`chain`]
//!   says what the walk arrives at.
//! - [`overrides`] applies the settings that hold for some files only, by the
//!   patterns of [`matcher`].
//! - [`loader`] decides what a missing or broken file means, and in which
//!   order the sources combine.
//!
//! The library reads no file and parses no text. Contracts are stated over
//! the views of the types: a string is the sequence of its characters, a set
//! of strings the sequence of its items, the rule table a map from rule names
//! to settings.

pub mod chain;
pub mod css;
pub mod diagnostics;
pub mod document;
pub mod extends;
pub mod files;
pub mod formatter;
pub mod javascript;
pub mod json;
pub mod laws;
pub mod linter;
pub mod loader;
pub mod matcher;
pub mod merge;
pub mod organize_imports;
pub mod overrides;
pub mod schema;
pub mod string_set;
pub mod vcs;

pub use crate::diagnostics::{CantLoadExtendFile, ConfigurationDiagnostic};
pub use crate::css::{CssConfiguration, CssFormatter, PartialCssConfiguration, PartialCssFormatter};
pub use crate::files::{
    FileSizeLimit, FilesConfiguration, FilesConfigurationView, PartialFilesConfiguration,
    PartialFilesConfigurationView, DEFAULT_FILE_SIZE_LIMIT,
};
pub use crate::formatter::{
    FormatterConfiguration, LineEnding, PartialFormatterConfiguration, PlainIndentStyle, QuoteStyle,
};
pub use crate::javascript::{
    JavascriptConfiguration, JavascriptFormatter, PartialJavascriptConfiguration,
    PartialJavascriptFormatter, Semicolons,
};
pub use crate::json::{
    JsonConfiguration, JsonFormatter, JsonParser, PartialJsonConfiguration, PartialJsonFormatter,
    PartialJsonParser,
};
pub use crate::linter::{
    LinterConfiguration, LinterConfigurationView, PartialLinterConfiguration,
    PartialLinterConfigurationView, PartialRules, PartialRulesView, RuleEntry,
    RulePlainConfiguration, RuleTable, Rules, RulesView,
};
use crate::merge::{later_wins, option_view, or_default};
pub use crate::organize_imports::{OrganizeImports, PartialOrganizeImports};
pub use crate::overrides::{OverridePattern, OverridePatternView, Overrides};
use crate::string_set::{
    clone_option, items_option, resolve_set, string_set_clone, string_set_empty, string_set_items,
};
pub use crate::vcs::{PartialVcsConfiguration, VcsClientKind, VcsConfiguration};
use biome_deserialize::StringSet;
use vstd::prelude::*;

verus! {

/// What a [`Configuration`] value stands for.
#[verifier::ext_equal]
pub struct ConfigurationView {
    pub schema: Seq<char>,
    pub vcs: VcsConfiguration,
    pub files: FilesConfigurationView,
    pub formatter: FormatterConfiguration,
    pub organize_imports: OrganizeImports,
    pub linter: LinterConfigurationView,
    pub javascript: JavascriptConfiguration,
    pub json: JsonConfiguration,
    pub css: CssConfiguration,
    pub extends: Seq<Seq<char>>,
    pub overrides: Seq<OverridePatternView>,
}

impl ConfigurationView {
    /// The built-in configuration: what the toolchain does when no source
    /// says anything.
    pub open spec fn hard_default() -> Self {
        ConfigurationView {
            schema: Seq::empty(),
            vcs: VcsConfiguration::hard_default(),
            files: FilesConfigurationView::hard_default(),
            formatter: FormatterConfiguration::hard_default(),
            organize_imports: OrganizeImports::hard_default(),
            linter: LinterConfigurationView::hard_default(),
            javascript: JavascriptConfiguration::hard_default(),
            json: JsonConfiguration::hard_default(),
            css: CssConfiguration::hard_default(),
            extends: Seq::empty(),
            overrides: Seq::empty(),
        }
    }
}

/// What a [`PartialConfiguration`] value stands for.
#[verifier::ext_equal]
pub struct PartialConfigurationView {
    pub schema: Option<Seq<char>>,
    pub vcs: Option<PartialVcsConfiguration>,
    pub files: Option<PartialFilesConfigurationView>,
    pub formatter: Option<PartialFormatterConfiguration>,
    pub organize_imports: Option<PartialOrganizeImports>,
    pub linter: Option<PartialLinterConfigurationView>,
    pub javascript: Option<PartialJavascriptConfiguration>,
    pub json: Option<PartialJsonConfiguration>,
    pub css: Option<PartialCssConfiguration>,
    pub extends: Option<Seq<Seq<char>>>,
    pub overrides: Option<Seq<OverridePatternView>>,
}

impl PartialConfigurationView {
    /// The fragment that sets nothing.
    pub open spec fn absent() -> Self {
        PartialConfigurationView {
            schema: None,
            vcs: None,
            files: None,
            formatter: None,
            organize_imports: None,
            linter: None,
            javascript: None,
            json: None,
            css: None,
            extends: None,
            overrides: None,
        }
    }

    /// The fragment written for a new project: the import sorter on, the
    /// linter on with the recommended rules, nothing else set.
    pub open spec fn initial() -> Self {
        PartialConfigurationView {
            organize_imports: Some(PartialOrganizeImports { enabled: Some(true) }),
            linter: Some(
                PartialLinterConfigurationView {
                    enabled: Some(true),
                    rules: Some(
                        PartialRulesView {
                            recommended: Some(true),
                            all: None,
                            table: Map::empty(),
                        },
                    ),
                },
            ),
            ..Self::absent()
        }
    }

    /// `self` overlaid with `later`, the fragment of higher precedence. A
    /// scalar of `later` replaces the earlier one; an aggregate merges with its
    /// counterpart; a list (`extends`, `overrides`) is one value and is
    /// replaced whole; the rule table merges key by key.
    pub open spec fn merged(self, later: Self) -> Self {
        PartialConfigurationView {
            schema: later_wins(self.schema, later.schema),
            vcs: PartialVcsConfiguration::merged_option(self.vcs, later.vcs),
            files: PartialFilesConfigurationView::merged_option(self.files, later.files),
            formatter: PartialFormatterConfiguration::merged_option(
                self.formatter,
                later.formatter,
            ),
            organize_imports: PartialOrganizeImports::merged_option(
                self.organize_imports,
                later.organize_imports,
            ),
            linter: PartialLinterConfigurationView::merged_option(self.linter, later.linter),
            javascript: PartialJavascriptConfiguration::merged_option(
                self.javascript,
                later.javascript,
            ),
            json: PartialJsonConfiguration::merged_option(self.json, later.json),
            css: PartialCssConfiguration::merged_option(self.css, later.css),
            extends: later_wins(self.extends, later.extends),
            overrides: later_wins(self.overrides, later.overrides),
        }
    }

    /// The fragments folded from left to right, each overlaid on what came
    /// before it; no fragment gives the fragment that sets nothing.
    pub open spec fn merged_all(fragments: Seq<Self>) -> Self
        decreases fragments.len(),
    {
        if fragments.len() == 0 {
            Self::absent()
        } else {
            Self::merged_all(fragments.drop_last()).merged(fragments.last())
        }
    }

    /// The top-level formatter fragment, from which the formatters of the
    /// languages inherit.
    pub open spec fn top_formatter(self) -> PartialFormatterConfiguration {
        or_default(self.formatter, PartialFormatterConfiguration::absent())
    }

    /// The full configuration this fragment stands for: every absent field
    /// takes its built-in default, but a shared field of a language's formatter
    /// takes the value of the top-level formatter fragment first.
    pub open spec fn resolved(self) -> ConfigurationView {
        ConfigurationView {
            schema: or_default(self.schema, Seq::empty()),
            vcs: PartialVcsConfiguration::resolved_option(self.vcs),
            files: PartialFilesConfigurationView::resolved_option(self.files),
            formatter: PartialFormatterConfiguration::resolved_option(self.formatter),
            organize_imports: PartialOrganizeImports::resolved_option(self.organize_imports),
            linter: PartialLinterConfigurationView::resolved_option(self.linter),
            javascript: PartialJavascriptConfiguration::resolved_option(
                self.javascript,
                self.top_formatter(),
            ),
            json: PartialJsonConfiguration::resolved_option(self.json, self.top_formatter()),
            css: PartialCssConfiguration::resolved_option(self.css, self.top_formatter()),
            extends: or_default(self.extends, Seq::empty()),
            overrides: or_default(self.overrides, Seq::empty()),
        }
    }

    /// The VCS part, an absent one read as one that sets nothing.
    pub open spec fn vcs_part(self) -> PartialVcsConfiguration {
        or_default(self.vcs, PartialVcsConfiguration::absent())
    }

    /// The filesystem part, an absent one read as one that sets nothing.
    pub open spec fn files_part(self) -> PartialFilesConfigurationView {
        or_default(self.files, PartialFilesConfigurationView::absent())
    }

    /// The import sorter's part, an absent one read as one that sets nothing.
    pub open spec fn organize_imports_part(self) -> PartialOrganizeImports {
        or_default(self.organize_imports, PartialOrganizeImports::absent())
    }

    /// The linter part, an absent one read as one that sets nothing.
    pub open spec fn linter_part(self) -> PartialLinterConfigurationView {
        or_default(self.linter, PartialLinterConfigurationView::absent())
    }

    /// The rule selection of the fragment, if it has one.
    pub open spec fn linter_rules(self) -> Option<PartialRulesView> {
        match self.linter {
            Some(l) => l.rules,
            None => None,
        }
    }

    /// The rule selection, an absent one read as one that sets nothing.
    pub open spec fn rules_part(self) -> PartialRulesView {
        or_default(self.linter_rules(), PartialRulesView::absent())
    }

    /// The formatter fragment for JavaScript, absent parts read as unset.
    pub open spec fn javascript_formatter(self) -> PartialJavascriptFormatter {
        match self.javascript {
            Some(PartialJavascriptConfiguration { formatter: Some(f) }) => f,
            _ => PartialJavascriptFormatter::absent(),
        }
    }

    /// The parser fragment for JSON, absent parts read as unset.
    pub open spec fn json_parser(self) -> PartialJsonParser {
        match self.json {
            Some(PartialJsonConfiguration { parser: Some(p), .. }) => p,
            _ => PartialJsonParser::absent(),
        }
    }

    /// The formatter fragment for JSON, absent parts read as unset.
    pub open spec fn json_formatter(self) -> PartialJsonFormatter {
        match self.json {
            Some(PartialJsonConfiguration { formatter: Some(f), .. }) => f,
            _ => PartialJsonFormatter::absent(),
        }
    }

    /// The formatter fragment for CSS, absent parts read as unset.
    pub open spec fn css_formatter(self) -> PartialCssFormatter {
        match self.css {
            Some(PartialCssConfiguration { formatter: Some(f) }) => f,
            _ => PartialCssFormatter::absent(),
        }
    }
}

/// The configuration that the file `biome.json` describes, every field with a
/// value.
#[derive(Debug, PartialEq, Eq)]
pub struct Configuration {
    /// The address of the JSON schema the file names under `$schema`.
    pub schema: String,
    /// The configuration of the VCS integration.
    pub vcs: VcsConfiguration,
    /// The configuration of the filesystem.
    pub files: FilesConfiguration,
    /// The configuration of the formatter.
    pub formatter: FormatterConfiguration,
    /// The configuration of the import sorting.
    pub organize_imports: OrganizeImports,
    /// The configuration of the linter.
    pub linter: LinterConfiguration,
    /// Specific configuration for the JavaScript language.
    pub javascript: JavascriptConfiguration,
    /// Specific configuration for the JSON language.
    pub json: JsonConfiguration,
    /// Specific configuration for the CSS language.
    pub css: CssConfiguration,
    /// Other configuration files, or packages that export one, that this
    /// configuration builds on.
    pub extends: StringSet,
    /// Settings that hold only for a subset of the files.
    pub overrides: Overrides,
}

impl View for Configuration {
    type V = ConfigurationView;

    open spec fn view(&self) -> ConfigurationView {
        ConfigurationView {
            schema: self.schema@,
            vcs: self.vcs,
            files: self.files@,
            formatter: self.formatter,
            organize_imports: self.organize_imports,
            linter: self.linter@,
            javascript: self.javascript,
            json: self.json,
            css: self.css,
            extends: string_set_items(self.extends),
            overrides: self.overrides@,
        }
    }
}

impl Default for Configuration {
    fn default() -> (r: Self)
        ensures
            r@ == ConfigurationView::hard_default(),
            r@.files.max_size == 1_048_576,
    {
        Configuration {
            schema: String::new(),
            vcs: VcsConfiguration::default(),
            files: FilesConfiguration::default(),
            formatter: FormatterConfiguration::default(),
            organize_imports: OrganizeImports::default(),
            linter: LinterConfiguration::default(),
            javascript: JavascriptConfiguration::default(),
            json: JsonConfiguration::default(),
            css: CssConfiguration::default(),
            extends: string_set_empty(),
            overrides: Overrides::default(),
        }
    }
}

impl Clone for Configuration {
    fn clone(&self) -> (r: Self)
        ensures
            r@ == self@,
    {
        Configuration {
            schema: self.schema.clone(),
            vcs: self.vcs,
            files: self.files.clone(),
            formatter: self.formatter,
            organize_imports: self.organize_imports,
            linter: self.linter.clone(),
            javascript: self.javascript,
            json: self.json,
            css: self.css,
            extends: string_set_clone(&self.extends),
            overrides: self.overrides.clone(),
        }
    }
}

/// The configuration as one source supplies it: every field may be absent,
/// and an absent field is left to the sources of lower precedence or to the
/// built-in default.
#[derive(Debug, PartialEq, Eq)]
pub struct PartialConfiguration {
    pub schema: Option<String>,
    pub vcs: Option<PartialVcsConfiguration>,
    pub files: Option<PartialFilesConfiguration>,
    pub formatter: Option<PartialFormatterConfiguration>,
    pub organize_imports: Option<PartialOrganizeImports>,
    pub linter: Option<PartialLinterConfiguration>,
    pub javascript: Option<PartialJavascriptConfiguration>,
    pub json: Option<PartialJsonConfiguration>,
    pub css: Option<PartialCssConfiguration>,
    pub extends: Option<StringSet>,
    pub overrides: Option<Overrides>,
}

impl View for PartialConfiguration {
    type V = PartialConfigurationView;

    open spec fn view(&self) -> PartialConfigurationView {
        PartialConfigurationView {
            schema: option_view(self.schema),
            vcs: self.vcs,
            files: option_view(self.files),
            formatter: self.formatter,
            organize_imports: self.organize_imports,
            linter: option_view(self.linter),
            javascript: self.javascript,
            json: self.json,
            css: self.css,
            extends: items_option(self.extends),
            overrides: option_view(self.overrides),
        }
    }
}

impl Default for PartialConfiguration {
    fn default() -> (r: Self)
        ensures
            r@ == PartialConfigurationView::absent(),
    {
        PartialConfiguration {
            schema: None,
            vcs: None,
            files: None,
            formatter: None,
            organize_imports: None,
            linter: None,
            javascript: None,
            json: None,
            css: None,
            extends: None,
            overrides: None,
        }
    }
}

impl Clone for PartialConfiguration {
    fn clone(&self) -> (r: Self)
        ensures
            r@ == self@,
    {
        PartialConfiguration {
            schema: match &self.schema {
                Some(s) => Some(s.clone()),
                None => None,
            },
            vcs: self.vcs,
            files: PartialFilesConfiguration::clone_option(&self.files),
            formatter: self.formatter,
            organize_imports: self.organize_imports,
            linter: PartialLinterConfiguration::clone_option(&self.linter),
            javascript: self.javascript,
            json: self.json,
            css: self.css,
            extends: clone_option(&self.extends),
            overrides: Overrides::clone_option(&self.overrides),
        }
    }
}

/// The views of a sequence of fragments.
pub open spec fn fragment_views(fragments: Seq<PartialConfiguration>) -> Seq<
    PartialConfigurationView,
> {
    fragments.map_values(|f: PartialConfiguration| f@)
}

impl PartialConfiguration {
    /// The configuration that `biome init` writes for a new project.
    pub fn init() -> (r: Self)
        ensures
            r@ == PartialConfigurationView::initial(),
    {
        PartialConfiguration {
            schema: None,
            vcs: None,
            files: None,
            formatter: None,
            organize_imports: Some(PartialOrganizeImports { enabled: Some(true) }),
            linter: Some(
                PartialLinterConfiguration {
                    enabled: Some(true),
                    rules: Some(
                        PartialRules {
                            recommended: Some(true),
                            all: None,
                            table: RuleTable::new(),
                        },
                    ),
                },
            ),
            javascript: None,
            json: None,
            css: None,
            extends: None,
            overrides: None,
        }
    }

    /// The formatter counts as off where the fragment has no formatter part,
    /// and where that part switches it off in so many words.
    pub fn is_formatter_disabled(&self) -> (r: bool)
        ensures
            r == match self@.formatter {
                Some(f) => f.enabled == Some(false),
                None => true,
            },
    {
        match &self.formatter {
            Some(f) => f.is_disabled(),
            None => true,
        }
    }

    /// The full formatter settings this fragment stands for.
    pub fn get_formatter_configuration(&self) -> (r: FormatterConfiguration)
        ensures
            r == PartialFormatterConfiguration::resolved_option(self@.formatter),
            r == self@.resolved().formatter,
    {
        PartialFormatterConfiguration::resolve_option(&self.formatter)
    }

    /// The full formatter settings for JavaScript this fragment stands for: a
    /// shared field takes the value of the JavaScript part, else that of the
    /// top-level formatter part, else the built-in default.
    pub fn get_javascript_formatter_configuration(&self) -> (r: JavascriptFormatter)
        ensures
            r == self@.javascript_formatter().resolved(self@.top_formatter()),
            r == self@.resolved().javascript.formatter,
    {
        let top = match self.formatter {
            Some(f) => f,
            None => PartialFormatterConfiguration::default(),
        };
        match &self.javascript {
            Some(javascript) => PartialJavascriptFormatter::resolve_option(
                &javascript.formatter,
                &top,
            ),
            None => PartialJavascriptFormatter::default().get_formatter_configuration(&top),
        }
    }

    /// The full formatter settings for JSON this fragment stands for: a shared
    /// field takes the value of the JSON part, else that of the top-level
    /// formatter part, else the built-in default.
    pub fn get_json_formatter_configuration(&self) -> (r: JsonFormatter)
        ensures
            r == self@.json_formatter().resolved(self@.top_formatter()),
            r == self@.resolved().json.formatter,
    {
        let top = match self.formatter {
            Some(f) => f,
            None => PartialFormatterConfiguration::default(),
        };
        match &self.json {
            Some(json) => PartialJsonFormatter::resolve_option(&json.formatter, &top),
            None => PartialJsonFormatter::default().get_formatter_configuration(&top),
        }
    }

    /// The linter counts as off where the fragment has no linter part, and
    /// where that part switches it off in so many words.
    pub fn is_linter_disabled(&self) -> (r: bool)
        ensures
            r == match self@.linter {
                Some(l) => l.enabled == Some(false),
                None => true,
            },
    {
        match &self.linter {
            Some(l) => l.is_disabled(),
            None => true,
        }
    }

    /// The full rule selection this fragment stands for.
    pub fn get_linter_rules(&self) -> (r: Rules)
        ensures
            r@ == PartialRulesView::resolved_option(self@.linter_rules()),
            r@ == self@.resolved().linter.rules,
    {
        match &self.linter {
            Some(l) => l.get_rules(),
            None => Rules::default(),
        }
    }

    /// The import sorter counts as off where the fragment has no part for it,
    /// and where that part switches it off in so many words.
    pub fn is_organize_imports_disabled(&self) -> (r: bool)
        ensures
            r == match self@.organize_imports {
                Some(o) => o.enabled == Some(false),
                None => true,
            },
    {
        match &self.organize_imports {
            Some(o) => o.is_disabled(),
            None => true,
        }
    }

    /// The VCS integration counts as off unless the fragment has a part for it
    /// that switches it on in so many words.
    pub fn is_vcs_disabled(&self) -> (r: bool)
        ensures
            r == match self@.vcs {
                Some(v) => v.enabled != Some(true),
                None => true,
            },
    {
        match &self.vcs {
            Some(v) => v.is_disabled(),
            None => true,
        }
    }

    /// The negation of [`Self::is_vcs_disabled`].
    pub fn is_vcs_enabled(&self) -> (r: bool)
        ensures
            r == match self@.vcs {
                Some(v) => v.enabled == Some(true),
                None => false,
            },
    {
        !self.is_vcs_disabled()
    }

    /// The full configuration this fragment stands for. Its file size limit is
    /// positive.
    pub fn resolve(&self) -> (r: Configuration)
        ensures
            r@ == self@.resolved(),
            r@.files.max_size > 0,
    {
        let top = match self.formatter {
            Some(f) => f,
            None => PartialFormatterConfiguration::default(),
        };
        Configuration {
            schema: match &self.schema {
                Some(s) => s.clone(),
                None => String::new(),
            },
            vcs: PartialVcsConfiguration::resolve_option(&self.vcs),
            files: PartialFilesConfiguration::resolve_option(&self.files),
            formatter: PartialFormatterConfiguration::resolve_option(&self.formatter),
            organize_imports: PartialOrganizeImports::resolve_option(&self.organize_imports),
            linter: PartialLinterConfiguration::resolve_option(&self.linter),
            javascript: PartialJavascriptConfiguration::resolve_option(&self.javascript, &top),
            json: PartialJsonConfiguration::resolve_option(&self.json, &top),
            css: PartialCssConfiguration::resolve_option(&self.css, &top),
            extends: resolve_set(&self.extends),
            overrides: match &self.overrides {
                Some(o) => o.clone(),
                None => Overrides::default(),
            },
        }
    }

    /// Overlays `other`, the fragment of higher precedence, on `self`.
    pub fn merge_with(&mut self, other: Self)
        ensures
            final(self)@ == old(self)@.merged(other@),
    {
        if other.schema.is_some() {
            self.schema = other.schema;
        }
        PartialVcsConfiguration::merge_option(&mut self.vcs, other.vcs);
        PartialFilesConfiguration::merge_option(&mut self.files, other.files);
        PartialFormatterConfiguration::merge_option(&mut self.formatter, other.formatter);
        PartialOrganizeImports::merge_option(&mut self.organize_imports, other.organize_imports);
        PartialLinterConfiguration::merge_option(&mut self.linter, other.linter);
        PartialJavascriptConfiguration::merge_option(&mut self.javascript, other.javascript);
        PartialJsonConfiguration::merge_option(&mut self.json, other.json);
        PartialCssConfiguration::merge_option(&mut self.css, other.css);
        if other.extends.is_some() {
            self.extends = other.extends;
        }
        if other.overrides.is_some() {
            self.overrides = other.overrides;
        }
    }
}

impl PartialConfiguration {
    /// Folds the fragments into one, from left to right: each fragment has
    /// precedence over all that come before it.
    pub fn merge_all(fragments: Vec<PartialConfiguration>) -> (r: PartialConfiguration)
        ensures
            r@ == PartialConfigurationView::merged_all(fragment_views(fragments@)),
    {
        let ghost all = fragments@;
        let mut merged = PartialConfiguration::default();
        assert(fragment_views(all.subrange(0, 0)) =~= Seq::empty());
        for fragment in it: fragments.into_iter()
            invariant
                it.seq() == all,
                merged@ == PartialConfigurationView::merged_all(
                    fragment_views(all.subrange(0, it.index() as int)),
                ),
        {
            let ghost i = it.index() as int;
            merged.merge_with(fragment);
            proof {
                let next = fragment_views(all.subrange(0, i + 1));
                assert(next.drop_last() =~= fragment_views(all.subrange(0, i)));
                assert(next.last() == all[i]@);
            }
        }
        assert(all.subrange(0, all.len() as int) =~= all);
        merged
    }

    /// The configuration that the sources describe together: the fragments
    /// merged in the order given, then resolved against the built-in defaults.
    pub fn resolve_all(fragments: Vec<PartialConfiguration>) -> (r: Configuration)
        ensures
            r@ == PartialConfigurationView::merged_all(fragment_views(fragments@)).resolved(),
            r@.files.max_size > 0,
    {
        Self::merge_all(fragments).resolve()
    }
}

/// The deserialized configuration of one file, and where it came from.
#[derive(Debug, PartialEq, Eq)]
pub struct ConfigurationPayload {
    /// The result of the deserialization.
    pub deserialized: PartialConfiguration,
    /// The path of the file the configuration was found in, file name and all.
    pub configuration_file_path: String,
    /// The path from which the `extends` entries of this file are resolved.
    /// For a file that came out of a package it lies in that package.
    pub external_resolution_base_path: String,
}

/// What a [`ConfigurationPayload`] value stands for.
#[verifier::ext_equal]
pub struct ConfigurationPayloadView {
    pub deserialized: PartialConfigurationView,
    pub configuration_file_path: Seq<char>,
    pub external_resolution_base_path: Seq<char>,
}

impl View for ConfigurationPayload {
    type V = ConfigurationPayloadView;

    open spec fn view(&self) -> ConfigurationPayloadView {
        ConfigurationPayloadView {
            deserialized: self.deserialized@,
            configuration_file_path: self.configuration_file_path@,
            external_resolution_base_path: self.external_resolution_base_path@,
        }
    }
}

/// Where to look for the configuration file, and how much a missing file
/// matters.
#[derive(Debug, PartialEq, Eq)]
pub enum ConfigurationPathHint {
    /// The default mode, not having a configuration file is not an error.
    /// The working directory is searched.
    NoHint,
    /// The configuration path provided by the LSP, not having a configuration
    /// file is not an error. The path is always a directory path.
    FromLsp(String),
    /// The configuration path provided by the user, not having a configuration
    /// file is an error. The path can either be a directory path or a file
    /// path. Every I/O error is reported.
    FromUser(String),
}

impl Default for ConfigurationPathHint {
    fn default() -> (r: Self)
        ensures
            r is NoHint,
    {
        ConfigurationPathHint::NoHint
    }
}

impl ConfigurationPathHint {
    pub fn is_from_user(&self) -> (r: bool)
        ensures
            r == (self is FromUser),
    {
        matches!(self, Self::FromUser(_))
    }

    pub fn is_from_lsp(&self) -> (r: bool)
        ensures
            r == (self is FromLsp),
    {
        matches!(self, Self::FromLsp(_))
    }
}

} // verus!
