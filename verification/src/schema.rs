//! The schema of the configuration document: which keys each object may
//! hold, what is read from each, and what a document is refused for.

use crate::css::{PartialCssConfiguration, PartialCssFormatter};
use crate::document::{
    bool_at, check_keys, keys_checked, law_unknown_key_is_refused, list_at, number_at, object_at,
    read_bool, read_list, read_number, read_object, read_strings, read_text, read_u16, read_u8,
    strings_at, text_at, text_is, u16_at, u8_at, Member, SchemaError, SchemaErrorView, Value,
};
use crate::files::{FileSizeLimit, PartialFilesConfiguration, PartialFilesConfigurationView};
use crate::formatter::{LineEnding, PartialFormatterConfiguration, PlainIndentStyle, QuoteStyle};
use crate::javascript::{
    PartialJavascriptConfiguration, PartialJavascriptFormatter, Semicolons,
};
use crate::json::{PartialJsonConfiguration, PartialJsonFormatter, PartialJsonParser};
use crate::linter::{
    PartialLinterConfiguration, PartialLinterConfigurationView, PartialRules, PartialRulesView,
    RulePlainConfiguration, RuleTable,
};
use crate::merge::or_default;
use crate::organize_imports::PartialOrganizeImports;
use crate::overrides::{pattern_views, OverridePattern, OverridePatternView, Overrides};
use crate::string_set::{resolve_set, views};
use crate::vcs::{PartialVcsConfiguration, VcsClientKind};
use crate::{PartialConfiguration, PartialConfigurationView};
use vstd::prelude::*;

verus! {

/// The part under `key`, if there is a member with this key: the object
/// there, read by `decode`.
pub open spec fn part_at<T>(
    members: Seq<Member>,
    key: Seq<char>,
    decode: spec_fn(Seq<Member>) -> Result<T, SchemaErrorView>,
) -> Result<Option<T>, SchemaErrorView> {
    match object_at(members, key) {
        Err(e) => Err(e),
        Ok(None) => Ok(None),
        Ok(Some(inner)) => match decode(inner) {
            Ok(v) => Ok(Some(v)),
            Err(e) => Err(e),
        },
    }
}

/// The indent style that `name` names, if it names one.
pub open spec fn indent_style_named(name: Seq<char>) -> Option<PlainIndentStyle> {
    if name == "tab"@ {
        Some(PlainIndentStyle::Tab)
    } else if name == "space"@ {
        Some(PlainIndentStyle::Space)
    } else {
        None
    }
}

/// The indent style under `key`, if there is a member with this key.
pub open spec fn indent_style_at(members: Seq<Member>, key: Seq<char>) -> Result<
    Option<PlainIndentStyle>,
    SchemaErrorView,
> {
    match text_at(members, key) {
        Err(e) => Err(e),
        Ok(None) => Ok(None),
        Ok(Some(name)) => match indent_style_named(name) {
            Some(v) => Ok(Some(v)),
            None => Err(SchemaErrorView::UnknownVariant { key, value: name }),
        },
    }
}

/// Executable form of [`indent_style_named`].
pub fn indent_style_of(name: &String) -> (r: Option<PlainIndentStyle>)
    ensures
        r == indent_style_named(name@),
{
    if text_is(name, "tab") {
        Some(PlainIndentStyle::Tab)
    } else if text_is(name, "space") {
        Some(PlainIndentStyle::Space)
    } else {
        None
    }
}

/// Executable form of [`indent_style_at`].
pub fn read_indent_style(
    members: &Vec<Member>,
    key: &str,
) -> (r: Result<Option<PlainIndentStyle>, SchemaError>)
    ensures
        match r {
            Ok(v) => indent_style_at(members@, key@) == Ok::<
                Option<PlainIndentStyle>,
                SchemaErrorView,
            >(v),
            Err(e) => indent_style_at(members@, key@) == Err::<
                Option<PlainIndentStyle>,
                SchemaErrorView,
            >(e@),
        },
{
    match read_text(members, key) {
        Err(e) => Err(e),
        Ok(None) => Ok(None),
        Ok(Some(name)) => match indent_style_of(&name) {
            Some(v) => Ok(Some(v)),
            None => Err(SchemaError::UnknownVariant { key: key.to_owned(), value: name }),
        },
    }
}

/// The line ending that `name` names, if it names one.
pub open spec fn line_ending_named(name: Seq<char>) -> Option<LineEnding> {
    if name == "lf"@ {
        Some(LineEnding::Lf)
    } else if name == "crlf"@ {
        Some(LineEnding::Crlf)
    } else if name == "cr"@ {
        Some(LineEnding::Cr)
    } else {
        None
    }
}

/// The line ending under `key`, if there is a member with this key.
pub open spec fn line_ending_at(members: Seq<Member>, key: Seq<char>) -> Result<
    Option<LineEnding>,
    SchemaErrorView,
> {
    match text_at(members, key) {
        Err(e) => Err(e),
        Ok(None) => Ok(None),
        Ok(Some(name)) => match line_ending_named(name) {
            Some(v) => Ok(Some(v)),
            None => Err(SchemaErrorView::UnknownVariant { key, value: name }),
        },
    }
}

/// Executable form of [`line_ending_named`].
pub fn line_ending_of(name: &String) -> (r: Option<LineEnding>)
    ensures
        r == line_ending_named(name@),
{
    if text_is(name, "lf") {
        Some(LineEnding::Lf)
    } else if text_is(name, "crlf") {
        Some(LineEnding::Crlf)
    } else if text_is(name, "cr") {
        Some(LineEnding::Cr)
    } else {
        None
    }
}

/// Executable form of [`line_ending_at`].
pub fn read_line_ending(
    members: &Vec<Member>,
    key: &str,
) -> (r: Result<Option<LineEnding>, SchemaError>)
    ensures
        match r {
            Ok(v) => line_ending_at(members@, key@) == Ok::<Option<LineEnding>, SchemaErrorView>(v),
            Err(e) => line_ending_at(members@, key@) == Err::<
                Option<LineEnding>,
                SchemaErrorView,
            >(e@),
        },
{
    match read_text(members, key) {
        Err(e) => Err(e),
        Ok(None) => Ok(None),
        Ok(Some(name)) => match line_ending_of(&name) {
            Some(v) => Ok(Some(v)),
            None => Err(SchemaError::UnknownVariant { key: key.to_owned(), value: name }),
        },
    }
}

/// The quote style that `name` names, if it names one.
pub open spec fn quote_style_named(name: Seq<char>) -> Option<QuoteStyle> {
    if name == "double"@ {
        Some(QuoteStyle::Double)
    } else if name == "single"@ {
        Some(QuoteStyle::Single)
    } else {
        None
    }
}

/// The quote style under `key`, if there is a member with this key.
pub open spec fn quote_style_at(members: Seq<Member>, key: Seq<char>) -> Result<
    Option<QuoteStyle>,
    SchemaErrorView,
> {
    match text_at(members, key) {
        Err(e) => Err(e),
        Ok(None) => Ok(None),
        Ok(Some(name)) => match quote_style_named(name) {
            Some(v) => Ok(Some(v)),
            None => Err(SchemaErrorView::UnknownVariant { key, value: name }),
        },
    }
}

/// Executable form of [`quote_style_named`].
pub fn quote_style_of(name: &String) -> (r: Option<QuoteStyle>)
    ensures
        r == quote_style_named(name@),
{
    if text_is(name, "double") {
        Some(QuoteStyle::Double)
    } else if text_is(name, "single") {
        Some(QuoteStyle::Single)
    } else {
        None
    }
}

/// Executable form of [`quote_style_at`].
pub fn read_quote_style(
    members: &Vec<Member>,
    key: &str,
) -> (r: Result<Option<QuoteStyle>, SchemaError>)
    ensures
        match r {
            Ok(v) => quote_style_at(members@, key@) == Ok::<Option<QuoteStyle>, SchemaErrorView>(v),
            Err(e) => quote_style_at(members@, key@) == Err::<
                Option<QuoteStyle>,
                SchemaErrorView,
            >(e@),
        },
{
    match read_text(members, key) {
        Err(e) => Err(e),
        Ok(None) => Ok(None),
        Ok(Some(name)) => match quote_style_of(&name) {
            Some(v) => Ok(Some(v)),
            None => Err(SchemaError::UnknownVariant { key: key.to_owned(), value: name }),
        },
    }
}

/// The way with semicolons that `name` names, if it names one.
pub open spec fn semicolons_named(name: Seq<char>) -> Option<Semicolons> {
    if name == "always"@ {
        Some(Semicolons::Always)
    } else if name == "asNeeded"@ {
        Some(Semicolons::AsNeeded)
    } else {
        None
    }
}

/// The way with semicolons under `key`, if there is a member with this key.
pub open spec fn semicolons_at(members: Seq<Member>, key: Seq<char>) -> Result<
    Option<Semicolons>,
    SchemaErrorView,
> {
    match text_at(members, key) {
        Err(e) => Err(e),
        Ok(None) => Ok(None),
        Ok(Some(name)) => match semicolons_named(name) {
            Some(v) => Ok(Some(v)),
            None => Err(SchemaErrorView::UnknownVariant { key, value: name }),
        },
    }
}

/// Executable form of [`semicolons_named`].
pub fn semicolons_of(name: &String) -> (r: Option<Semicolons>)
    ensures
        r == semicolons_named(name@),
{
    if text_is(name, "always") {
        Some(Semicolons::Always)
    } else if text_is(name, "asNeeded") {
        Some(Semicolons::AsNeeded)
    } else {
        None
    }
}

/// Executable form of [`semicolons_at`].
pub fn read_semicolons(
    members: &Vec<Member>,
    key: &str,
) -> (r: Result<Option<Semicolons>, SchemaError>)
    ensures
        match r {
            Ok(v) => semicolons_at(members@, key@) == Ok::<Option<Semicolons>, SchemaErrorView>(v),
            Err(e) => semicolons_at(members@, key@) == Err::<
                Option<Semicolons>,
                SchemaErrorView,
            >(e@),
        },
{
    match read_text(members, key) {
        Err(e) => Err(e),
        Ok(None) => Ok(None),
        Ok(Some(name)) => match semicolons_of(&name) {
            Some(v) => Ok(Some(v)),
            None => Err(SchemaError::UnknownVariant { key: key.to_owned(), value: name }),
        },
    }
}

/// The VCS client that `name` names, if it names one.
pub open spec fn client_kind_named(name: Seq<char>) -> Option<VcsClientKind> {
    if name == "git"@ {
        Some(VcsClientKind::Git)
    } else {
        None
    }
}

/// The VCS client under `key`, if there is a member with this key.
pub open spec fn client_kind_at(members: Seq<Member>, key: Seq<char>) -> Result<
    Option<VcsClientKind>,
    SchemaErrorView,
> {
    match text_at(members, key) {
        Err(e) => Err(e),
        Ok(None) => Ok(None),
        Ok(Some(name)) => match client_kind_named(name) {
            Some(v) => Ok(Some(v)),
            None => Err(SchemaErrorView::UnknownVariant { key, value: name }),
        },
    }
}

/// Executable form of [`client_kind_named`].
pub fn client_kind_of(name: &String) -> (r: Option<VcsClientKind>)
    ensures
        r == client_kind_named(name@),
{
    if text_is(name, "git") {
        Some(VcsClientKind::Git)
    } else {
        None
    }
}

/// Executable form of [`client_kind_at`].
pub fn read_client_kind(
    members: &Vec<Member>,
    key: &str,
) -> (r: Result<Option<VcsClientKind>, SchemaError>)
    ensures
        match r {
            Ok(v) => client_kind_at(members@, key@) == Ok::<
                Option<VcsClientKind>,
                SchemaErrorView,
            >(v),
            Err(e) => client_kind_at(members@, key@) == Err::<
                Option<VcsClientKind>,
                SchemaErrorView,
            >(e@),
        },
{
    match read_text(members, key) {
        Err(e) => Err(e),
        Ok(None) => Ok(None),
        Ok(Some(name)) => match client_kind_of(&name) {
            Some(v) => Ok(Some(v)),
            None => Err(SchemaError::UnknownVariant { key: key.to_owned(), value: name }),
        },
    }
}

/// The rule setting that `name` names, if it names one.
pub open spec fn rule_level_named(name: Seq<char>) -> Option<RulePlainConfiguration> {
    if name == "warn"@ {
        Some(RulePlainConfiguration::Warn)
    } else if name == "error"@ {
        Some(RulePlainConfiguration::Error)
    } else if name == "off"@ {
        Some(RulePlainConfiguration::Off)
    } else {
        None
    }
}

/// The rule setting under `key`, if there is a member with this key.
pub open spec fn rule_level_at(members: Seq<Member>, key: Seq<char>) -> Result<
    Option<RulePlainConfiguration>,
    SchemaErrorView,
> {
    match text_at(members, key) {
        Err(e) => Err(e),
        Ok(None) => Ok(None),
        Ok(Some(name)) => match rule_level_named(name) {
            Some(v) => Ok(Some(v)),
            None => Err(SchemaErrorView::UnknownVariant { key, value: name }),
        },
    }
}

/// Executable form of [`rule_level_named`].
pub fn rule_level_of(name: &String) -> (r: Option<RulePlainConfiguration>)
    ensures
        r == rule_level_named(name@),
{
    if text_is(name, "warn") {
        Some(RulePlainConfiguration::Warn)
    } else if text_is(name, "error") {
        Some(RulePlainConfiguration::Error)
    } else if text_is(name, "off") {
        Some(RulePlainConfiguration::Off)
    } else {
        None
    }
}

/// Executable form of [`rule_level_at`].
pub fn read_rule_level(
    members: &Vec<Member>,
    key: &str,
) -> (r: Result<Option<RulePlainConfiguration>, SchemaError>)
    ensures
        match r {
            Ok(v) => rule_level_at(members@, key@) == Ok::<
                Option<RulePlainConfiguration>,
                SchemaErrorView,
            >(v),
            Err(e) => rule_level_at(members@, key@) == Err::<
                Option<RulePlainConfiguration>,
                SchemaErrorView,
            >(e@),
        },
{
    match read_text(members, key) {
        Err(e) => Err(e),
        Ok(None) => Ok(None),
        Ok(Some(name)) => match rule_level_of(&name) {
            Some(v) => Ok(Some(v)),
            None => Err(SchemaError::UnknownVariant { key: key.to_owned(), value: name }),
        },
    }
}

/// The keys of the VCS part.
pub open spec fn vcs_keys() -> Seq<Seq<char>> {
    seq!["enabled"@, "clientKind"@, "useIgnoreFile"@]
}

/// Executable form of [`vcs_keys`].
fn vcs_key_list() -> (r: Vec<String>)
    ensures
        views(r@) == vcs_keys(),
{
    let mut r: Vec<String> = Vec::new();
    r.push("enabled".to_owned());
    r.push("clientKind".to_owned());
    r.push("useIgnoreFile".to_owned());
    assert(views(r@) =~= vcs_keys());
    r
}

/// What an object says of the VCS part: the object is held to the closed schema
/// first, then the fields are read in the order of the schema, and the first
/// thing amiss is the error.
pub open spec fn vcs_of(members: Seq<Member>) -> Result<PartialVcsConfiguration, SchemaErrorView> {
    if keys_checked(members, vcs_keys()) is Err {
        Err(keys_checked(members, vcs_keys())->Err_0)
    } else if bool_at(members, "enabled"@) is Err {
        Err(bool_at(members, "enabled"@)->Err_0)
    } else if client_kind_at(members, "clientKind"@) is Err {
        Err(client_kind_at(members, "clientKind"@)->Err_0)
    } else if bool_at(members, "useIgnoreFile"@) is Err {
        Err(bool_at(members, "useIgnoreFile"@)->Err_0)
    } else {
        Ok(
            PartialVcsConfiguration {
                enabled: bool_at(members, "enabled"@)->Ok_0,
                client_kind: client_kind_at(members, "clientKind"@)->Ok_0,
                use_ignore_file: bool_at(members, "useIgnoreFile"@)->Ok_0,
            },
        )
    }
}

/// Executable form of [`vcs_of`].
pub fn decode_vcs(members: &Vec<Member>) -> (r: Result<PartialVcsConfiguration, SchemaError>)
    ensures
        match r {
            Ok(v) => vcs_of(members@) == Ok::<PartialVcsConfiguration, SchemaErrorView>(v),
            Err(e) => vcs_of(members@) == Err::<PartialVcsConfiguration, SchemaErrorView>(e@),
        },
{
    let known = vcs_key_list();
    match check_keys(members, &known) {
        Err(e) => {
            return Err(e);
        },
        Ok(_) => {},
    }
    let enabled = match read_bool(members, "enabled") {
        Ok(v) => v,
        Err(e) => {
            return Err(e);
        },
    };
    let client_kind = match read_client_kind(members, "clientKind") {
        Ok(v) => v,
        Err(e) => {
            return Err(e);
        },
    };
    let use_ignore_file = match read_bool(members, "useIgnoreFile") {
        Ok(v) => v,
        Err(e) => {
            return Err(e);
        },
    };
    Ok(PartialVcsConfiguration { enabled, client_kind, use_ignore_file })
}

/// The keys of the formatter part.
pub open spec fn formatter_keys() -> Seq<Seq<char>> {
    seq![
        "enabled"@,
        "formatWithErrors"@,
        "indentStyle"@,
        "indentWidth"@,
        "lineEnding"@,
        "lineWidth"@,
    ]
}

/// Executable form of [`formatter_keys`].
fn formatter_key_list() -> (r: Vec<String>)
    ensures
        views(r@) == formatter_keys(),
{
    let mut r: Vec<String> = Vec::new();
    r.push("enabled".to_owned());
    r.push("formatWithErrors".to_owned());
    r.push("indentStyle".to_owned());
    r.push("indentWidth".to_owned());
    r.push("lineEnding".to_owned());
    r.push("lineWidth".to_owned());
    assert(views(r@) =~= formatter_keys());
    r
}

/// What an object says of the formatter part: the object is held to the closed schema
/// first, then the fields are read in the order of the schema, and the first
/// thing amiss is the error.
pub open spec fn formatter_of(
    members: Seq<Member>,
) -> Result<PartialFormatterConfiguration, SchemaErrorView> {
    if keys_checked(members, formatter_keys()) is Err {
        Err(keys_checked(members, formatter_keys())->Err_0)
    } else if bool_at(members, "enabled"@) is Err {
        Err(bool_at(members, "enabled"@)->Err_0)
    } else if bool_at(members, "formatWithErrors"@) is Err {
        Err(bool_at(members, "formatWithErrors"@)->Err_0)
    } else if indent_style_at(members, "indentStyle"@) is Err {
        Err(indent_style_at(members, "indentStyle"@)->Err_0)
    } else if u8_at(members, "indentWidth"@) is Err {
        Err(u8_at(members, "indentWidth"@)->Err_0)
    } else if line_ending_at(members, "lineEnding"@) is Err {
        Err(line_ending_at(members, "lineEnding"@)->Err_0)
    } else if u16_at(members, "lineWidth"@) is Err {
        Err(u16_at(members, "lineWidth"@)->Err_0)
    } else {
        Ok(
            PartialFormatterConfiguration {
                enabled: bool_at(members, "enabled"@)->Ok_0,
                format_with_errors: bool_at(members, "formatWithErrors"@)->Ok_0,
                indent_style: indent_style_at(members, "indentStyle"@)->Ok_0,
                indent_width: u8_at(members, "indentWidth"@)->Ok_0,
                line_ending: line_ending_at(members, "lineEnding"@)->Ok_0,
                line_width: u16_at(members, "lineWidth"@)->Ok_0,
            },
        )
    }
}

/// Executable form of [`formatter_of`].
pub fn decode_formatter(
    members: &Vec<Member>,
) -> (r: Result<PartialFormatterConfiguration, SchemaError>)
    ensures
        match r {
            Ok(v) => formatter_of(members@) == Ok::<
                PartialFormatterConfiguration,
                SchemaErrorView,
            >(v),
            Err(e) => formatter_of(members@) == Err::<
                PartialFormatterConfiguration,
                SchemaErrorView,
            >(e@),
        },
{
    let known = formatter_key_list();
    match check_keys(members, &known) {
        Err(e) => {
            return Err(e);
        },
        Ok(_) => {},
    }
    let enabled = match read_bool(members, "enabled") {
        Ok(v) => v,
        Err(e) => {
            return Err(e);
        },
    };
    let format_with_errors = match read_bool(members, "formatWithErrors") {
        Ok(v) => v,
        Err(e) => {
            return Err(e);
        },
    };
    let indent_style = match read_indent_style(members, "indentStyle") {
        Ok(v) => v,
        Err(e) => {
            return Err(e);
        },
    };
    let indent_width = match read_u8(members, "indentWidth") {
        Ok(v) => v,
        Err(e) => {
            return Err(e);
        },
    };
    let line_ending = match read_line_ending(members, "lineEnding") {
        Ok(v) => v,
        Err(e) => {
            return Err(e);
        },
    };
    let line_width = match read_u16(members, "lineWidth") {
        Ok(v) => v,
        Err(e) => {
            return Err(e);
        },
    };
    Ok(
        PartialFormatterConfiguration {
            enabled,
            format_with_errors,
            indent_style,
            indent_width,
            line_ending,
            line_width,
        },
    )
}

/// The keys of the import sorter's part.
pub open spec fn organize_imports_keys() -> Seq<Seq<char>> {
    seq!["enabled"@]
}

/// Executable form of [`organize_imports_keys`].
fn organize_imports_key_list() -> (r: Vec<String>)
    ensures
        views(r@) == organize_imports_keys(),
{
    let mut r: Vec<String> = Vec::new();
    r.push("enabled".to_owned());
    assert(views(r@) =~= organize_imports_keys());
    r
}

/// What an object says of the import sorter's part: the object is held to the closed schema
/// first, then the fields are read in the order of the schema, and the first
/// thing amiss is the error.
pub open spec fn organize_imports_of(
    members: Seq<Member>,
) -> Result<PartialOrganizeImports, SchemaErrorView> {
    if keys_checked(members, organize_imports_keys()) is Err {
        Err(keys_checked(members, organize_imports_keys())->Err_0)
    } else if bool_at(members, "enabled"@) is Err {
        Err(bool_at(members, "enabled"@)->Err_0)
    } else {
        Ok(
            PartialOrganizeImports {
                enabled: bool_at(members, "enabled"@)->Ok_0,
            },
        )
    }
}

/// Executable form of [`organize_imports_of`].
pub fn decode_organize_imports(
    members: &Vec<Member>,
) -> (r: Result<PartialOrganizeImports, SchemaError>)
    ensures
        match r {
            Ok(v) => organize_imports_of(members@) == Ok::<
                PartialOrganizeImports,
                SchemaErrorView,
            >(v),
            Err(e) => organize_imports_of(members@) == Err::<
                PartialOrganizeImports,
                SchemaErrorView,
            >(e@),
        },
{
    let known = organize_imports_key_list();
    match check_keys(members, &known) {
        Err(e) => {
            return Err(e);
        },
        Ok(_) => {},
    }
    let enabled = match read_bool(members, "enabled") {
        Ok(v) => v,
        Err(e) => {
            return Err(e);
        },
    };
    Ok(PartialOrganizeImports { enabled })
}

/// The keys of the formatter part for JavaScript.
pub open spec fn javascript_formatter_keys() -> Seq<Seq<char>> {
    seq![
        "enabled"@,
        "indentStyle"@,
        "indentWidth"@,
        "lineEnding"@,
        "lineWidth"@,
        "quoteStyle"@,
        "semicolons"@,
    ]
}

/// Executable form of [`javascript_formatter_keys`].
fn javascript_formatter_key_list() -> (r: Vec<String>)
    ensures
        views(r@) == javascript_formatter_keys(),
{
    let mut r: Vec<String> = Vec::new();
    r.push("enabled".to_owned());
    r.push("indentStyle".to_owned());
    r.push("indentWidth".to_owned());
    r.push("lineEnding".to_owned());
    r.push("lineWidth".to_owned());
    r.push("quoteStyle".to_owned());
    r.push("semicolons".to_owned());
    assert(views(r@) =~= javascript_formatter_keys());
    r
}

/// What an object says of the formatter part for JavaScript: the object is
/// held to the closed schema
/// first, then the fields are read in the order of the schema, and the first
/// thing amiss is the error.
pub open spec fn javascript_formatter_of(
    members: Seq<Member>,
) -> Result<PartialJavascriptFormatter, SchemaErrorView> {
    if keys_checked(members, javascript_formatter_keys()) is Err {
        Err(keys_checked(members, javascript_formatter_keys())->Err_0)
    } else if bool_at(members, "enabled"@) is Err {
        Err(bool_at(members, "enabled"@)->Err_0)
    } else if indent_style_at(members, "indentStyle"@) is Err {
        Err(indent_style_at(members, "indentStyle"@)->Err_0)
    } else if u8_at(members, "indentWidth"@) is Err {
        Err(u8_at(members, "indentWidth"@)->Err_0)
    } else if line_ending_at(members, "lineEnding"@) is Err {
        Err(line_ending_at(members, "lineEnding"@)->Err_0)
    } else if u16_at(members, "lineWidth"@) is Err {
        Err(u16_at(members, "lineWidth"@)->Err_0)
    } else if quote_style_at(members, "quoteStyle"@) is Err {
        Err(quote_style_at(members, "quoteStyle"@)->Err_0)
    } else if semicolons_at(members, "semicolons"@) is Err {
        Err(semicolons_at(members, "semicolons"@)->Err_0)
    } else {
        Ok(
            PartialJavascriptFormatter {
                enabled: bool_at(members, "enabled"@)->Ok_0,
                indent_style: indent_style_at(members, "indentStyle"@)->Ok_0,
                indent_width: u8_at(members, "indentWidth"@)->Ok_0,
                line_ending: line_ending_at(members, "lineEnding"@)->Ok_0,
                line_width: u16_at(members, "lineWidth"@)->Ok_0,
                quote_style: quote_style_at(members, "quoteStyle"@)->Ok_0,
                semicolons: semicolons_at(members, "semicolons"@)->Ok_0,
            },
        )
    }
}

/// Executable form of [`javascript_formatter_of`].
pub fn decode_javascript_formatter(
    members: &Vec<Member>,
) -> (r: Result<PartialJavascriptFormatter, SchemaError>)
    ensures
        match r {
            Ok(v) => javascript_formatter_of(members@) == Ok::<
                PartialJavascriptFormatter,
                SchemaErrorView,
            >(v),
            Err(e) => javascript_formatter_of(members@) == Err::<
                PartialJavascriptFormatter,
                SchemaErrorView,
            >(e@),
        },
{
    let known = javascript_formatter_key_list();
    match check_keys(members, &known) {
        Err(e) => {
            return Err(e);
        },
        Ok(_) => {},
    }
    let enabled = match read_bool(members, "enabled") {
        Ok(v) => v,
        Err(e) => {
            return Err(e);
        },
    };
    let indent_style = match read_indent_style(members, "indentStyle") {
        Ok(v) => v,
        Err(e) => {
            return Err(e);
        },
    };
    let indent_width = match read_u8(members, "indentWidth") {
        Ok(v) => v,
        Err(e) => {
            return Err(e);
        },
    };
    let line_ending = match read_line_ending(members, "lineEnding") {
        Ok(v) => v,
        Err(e) => {
            return Err(e);
        },
    };
    let line_width = match read_u16(members, "lineWidth") {
        Ok(v) => v,
        Err(e) => {
            return Err(e);
        },
    };
    let quote_style = match read_quote_style(members, "quoteStyle") {
        Ok(v) => v,
        Err(e) => {
            return Err(e);
        },
    };
    let semicolons = match read_semicolons(members, "semicolons") {
        Ok(v) => v,
        Err(e) => {
            return Err(e);
        },
    };
    Ok(
        PartialJavascriptFormatter {
            enabled,
            indent_style,
            indent_width,
            line_ending,
            line_width,
            quote_style,
            semicolons,
        },
    )
}

/// The keys of the JavaScript part.
pub open spec fn javascript_keys() -> Seq<Seq<char>> {
    seq!["formatter"@]
}

/// Executable form of [`javascript_keys`].
fn javascript_key_list() -> (r: Vec<String>)
    ensures
        views(r@) == javascript_keys(),
{
    let mut r: Vec<String> = Vec::new();
    r.push("formatter".to_owned());
    assert(views(r@) =~= javascript_keys());
    r
}

/// What an object says of the JavaScript part: the object is held to the closed schema
/// first, then the fields are read in the order of the schema, and the first
/// thing amiss is the error.
pub open spec fn javascript_of(
    members: Seq<Member>,
) -> Result<PartialJavascriptConfiguration, SchemaErrorView> {
    if keys_checked(members, javascript_keys()) is Err {
        Err(keys_checked(members, javascript_keys())->Err_0)
    } else if part_at(members, "formatter"@, |m: Seq<Member>| javascript_formatter_of(m)) is Err {
        Err(part_at(members, "formatter"@, |m: Seq<Member>| javascript_formatter_of(m))->Err_0)
    } else {
        Ok(
            PartialJavascriptConfiguration {
                formatter: part_at(
                    members,
                    "formatter"@,
                    |m: Seq<Member>| javascript_formatter_of(m),
                )->Ok_0,
            },
        )
    }
}

/// Executable form of [`javascript_of`].
pub fn decode_javascript(
    members: &Vec<Member>,
) -> (r: Result<PartialJavascriptConfiguration, SchemaError>)
    ensures
        match r {
            Ok(v) => javascript_of(members@) == Ok::<
                PartialJavascriptConfiguration,
                SchemaErrorView,
            >(v),
            Err(e) => javascript_of(members@) == Err::<
                PartialJavascriptConfiguration,
                SchemaErrorView,
            >(e@),
        },
{
    let known = javascript_key_list();
    match check_keys(members, &known) {
        Err(e) => {
            return Err(e);
        },
        Ok(_) => {},
    }
    let formatter = match read_object(members, "formatter") {
        Err(e) => {
            return Err(e);
        },
        Ok(None) => None,
        Ok(Some(inner)) => match decode_javascript_formatter(inner) {
            Ok(v) => Some(v),
            Err(e) => {
                return Err(e);
            },
        },
    };
    Ok(PartialJavascriptConfiguration { formatter })
}

/// The keys of the parser part for JSON.
pub open spec fn json_parser_keys() -> Seq<Seq<char>> {
    seq!["allowComments"@, "allowTrailingCommas"@]
}

/// Executable form of [`json_parser_keys`].
fn json_parser_key_list() -> (r: Vec<String>)
    ensures
        views(r@) == json_parser_keys(),
{
    let mut r: Vec<String> = Vec::new();
    r.push("allowComments".to_owned());
    r.push("allowTrailingCommas".to_owned());
    assert(views(r@) =~= json_parser_keys());
    r
}

/// What an object says of the parser part for JSON: the object is held to the closed schema
/// first, then the fields are read in the order of the schema, and the first
/// thing amiss is the error.
pub open spec fn json_parser_of(
    members: Seq<Member>,
) -> Result<PartialJsonParser, SchemaErrorView> {
    if keys_checked(members, json_parser_keys()) is Err {
        Err(keys_checked(members, json_parser_keys())->Err_0)
    } else if bool_at(members, "allowComments"@) is Err {
        Err(bool_at(members, "allowComments"@)->Err_0)
    } else if bool_at(members, "allowTrailingCommas"@) is Err {
        Err(bool_at(members, "allowTrailingCommas"@)->Err_0)
    } else {
        Ok(
            PartialJsonParser {
                allow_comments: bool_at(members, "allowComments"@)->Ok_0,
                allow_trailing_commas: bool_at(members, "allowTrailingCommas"@)->Ok_0,
            },
        )
    }
}

/// Executable form of [`json_parser_of`].
pub fn decode_json_parser(members: &Vec<Member>) -> (r: Result<PartialJsonParser, SchemaError>)
    ensures
        match r {
            Ok(v) => json_parser_of(members@) == Ok::<PartialJsonParser, SchemaErrorView>(v),
            Err(e) => json_parser_of(members@) == Err::<PartialJsonParser, SchemaErrorView>(e@),
        },
{
    let known = json_parser_key_list();
    match check_keys(members, &known) {
        Err(e) => {
            return Err(e);
        },
        Ok(_) => {},
    }
    let allow_comments = match read_bool(members, "allowComments") {
        Ok(v) => v,
        Err(e) => {
            return Err(e);
        },
    };
    let allow_trailing_commas = match read_bool(members, "allowTrailingCommas") {
        Ok(v) => v,
        Err(e) => {
            return Err(e);
        },
    };
    Ok(PartialJsonParser { allow_comments, allow_trailing_commas })
}

/// The keys of the formatter part for JSON.
pub open spec fn json_formatter_keys() -> Seq<Seq<char>> {
    seq!["enabled"@, "indentStyle"@, "indentWidth"@, "lineEnding"@, "lineWidth"@]
}

/// Executable form of [`json_formatter_keys`].
fn json_formatter_key_list() -> (r: Vec<String>)
    ensures
        views(r@) == json_formatter_keys(),
{
    let mut r: Vec<String> = Vec::new();
    r.push("enabled".to_owned());
    r.push("indentStyle".to_owned());
    r.push("indentWidth".to_owned());
    r.push("lineEnding".to_owned());
    r.push("lineWidth".to_owned());
    assert(views(r@) =~= json_formatter_keys());
    r
}

/// What an object says of the formatter part for JSON: the object is held to the closed schema
/// first, then the fields are read in the order of the schema, and the first
/// thing amiss is the error.
pub open spec fn json_formatter_of(
    members: Seq<Member>,
) -> Result<PartialJsonFormatter, SchemaErrorView> {
    if keys_checked(members, json_formatter_keys()) is Err {
        Err(keys_checked(members, json_formatter_keys())->Err_0)
    } else if bool_at(members, "enabled"@) is Err {
        Err(bool_at(members, "enabled"@)->Err_0)
    } else if indent_style_at(members, "indentStyle"@) is Err {
        Err(indent_style_at(members, "indentStyle"@)->Err_0)
    } else if u8_at(members, "indentWidth"@) is Err {
        Err(u8_at(members, "indentWidth"@)->Err_0)
    } else if line_ending_at(members, "lineEnding"@) is Err {
        Err(line_ending_at(members, "lineEnding"@)->Err_0)
    } else if u16_at(members, "lineWidth"@) is Err {
        Err(u16_at(members, "lineWidth"@)->Err_0)
    } else {
        Ok(
            PartialJsonFormatter {
                enabled: bool_at(members, "enabled"@)->Ok_0,
                indent_style: indent_style_at(members, "indentStyle"@)->Ok_0,
                indent_width: u8_at(members, "indentWidth"@)->Ok_0,
                line_ending: line_ending_at(members, "lineEnding"@)->Ok_0,
                line_width: u16_at(members, "lineWidth"@)->Ok_0,
            },
        )
    }
}

/// Executable form of [`json_formatter_of`].
pub fn decode_json_formatter(
    members: &Vec<Member>,
) -> (r: Result<PartialJsonFormatter, SchemaError>)
    ensures
        match r {
            Ok(v) => json_formatter_of(members@) == Ok::<PartialJsonFormatter, SchemaErrorView>(v),
            Err(e) => json_formatter_of(members@) == Err::<
                PartialJsonFormatter,
                SchemaErrorView,
            >(e@),
        },
{
    let known = json_formatter_key_list();
    match check_keys(members, &known) {
        Err(e) => {
            return Err(e);
        },
        Ok(_) => {},
    }
    let enabled = match read_bool(members, "enabled") {
        Ok(v) => v,
        Err(e) => {
            return Err(e);
        },
    };
    let indent_style = match read_indent_style(members, "indentStyle") {
        Ok(v) => v,
        Err(e) => {
            return Err(e);
        },
    };
    let indent_width = match read_u8(members, "indentWidth") {
        Ok(v) => v,
        Err(e) => {
            return Err(e);
        },
    };
    let line_ending = match read_line_ending(members, "lineEnding") {
        Ok(v) => v,
        Err(e) => {
            return Err(e);
        },
    };
    let line_width = match read_u16(members, "lineWidth") {
        Ok(v) => v,
        Err(e) => {
            return Err(e);
        },
    };
    Ok(PartialJsonFormatter { enabled, indent_style, indent_width, line_ending, line_width })
}

/// The keys of the JSON part.
pub open spec fn json_keys() -> Seq<Seq<char>> {
    seq!["parser"@, "formatter"@]
}

/// Executable form of [`json_keys`].
fn json_key_list() -> (r: Vec<String>)
    ensures
        views(r@) == json_keys(),
{
    let mut r: Vec<String> = Vec::new();
    r.push("parser".to_owned());
    r.push("formatter".to_owned());
    assert(views(r@) =~= json_keys());
    r
}

/// What an object says of the JSON part: the object is held to the closed schema
/// first, then the fields are read in the order of the schema, and the first
/// thing amiss is the error.
pub open spec fn json_of(
    members: Seq<Member>,
) -> Result<PartialJsonConfiguration, SchemaErrorView> {
    if keys_checked(members, json_keys()) is Err {
        Err(keys_checked(members, json_keys())->Err_0)
    } else if part_at(members, "parser"@, |m: Seq<Member>| json_parser_of(m)) is Err {
        Err(part_at(members, "parser"@, |m: Seq<Member>| json_parser_of(m))->Err_0)
    } else if part_at(members, "formatter"@, |m: Seq<Member>| json_formatter_of(m)) is Err {
        Err(part_at(members, "formatter"@, |m: Seq<Member>| json_formatter_of(m))->Err_0)
    } else {
        Ok(
            PartialJsonConfiguration {
                parser: part_at(members, "parser"@, |m: Seq<Member>| json_parser_of(m))->Ok_0,
                formatter: part_at(
                    members,
                    "formatter"@,
                    |m: Seq<Member>| json_formatter_of(m),
                )->Ok_0,
            },
        )
    }
}

/// Executable form of [`json_of`].
pub fn decode_json(members: &Vec<Member>) -> (r: Result<PartialJsonConfiguration, SchemaError>)
    ensures
        match r {
            Ok(v) => json_of(members@) == Ok::<PartialJsonConfiguration, SchemaErrorView>(v),
            Err(e) => json_of(members@) == Err::<PartialJsonConfiguration, SchemaErrorView>(e@),
        },
{
    let known = json_key_list();
    match check_keys(members, &known) {
        Err(e) => {
            return Err(e);
        },
        Ok(_) => {},
    }
    let parser = match read_object(members, "parser") {
        Err(e) => {
            return Err(e);
        },
        Ok(None) => None,
        Ok(Some(inner)) => match decode_json_parser(inner) {
            Ok(v) => Some(v),
            Err(e) => {
                return Err(e);
            },
        },
    };
    let formatter = match read_object(members, "formatter") {
        Err(e) => {
            return Err(e);
        },
        Ok(None) => None,
        Ok(Some(inner)) => match decode_json_formatter(inner) {
            Ok(v) => Some(v),
            Err(e) => {
                return Err(e);
            },
        },
    };
    Ok(PartialJsonConfiguration { parser, formatter })
}

/// The keys of the formatter part for CSS.
pub open spec fn css_formatter_keys() -> Seq<Seq<char>> {
    seq![
        "enabled"@,
        "indentStyle"@,
        "indentWidth"@,
        "lineEnding"@,
        "lineWidth"@,
        "quoteStyle"@,
    ]
}

/// Executable form of [`css_formatter_keys`].
fn css_formatter_key_list() -> (r: Vec<String>)
    ensures
        views(r@) == css_formatter_keys(),
{
    let mut r: Vec<String> = Vec::new();
    r.push("enabled".to_owned());
    r.push("indentStyle".to_owned());
    r.push("indentWidth".to_owned());
    r.push("lineEnding".to_owned());
    r.push("lineWidth".to_owned());
    r.push("quoteStyle".to_owned());
    assert(views(r@) =~= css_formatter_keys());
    r
}

/// What an object says of the formatter part for CSS: the object is held to the closed schema
/// first, then the fields are read in the order of the schema, and the first
/// thing amiss is the error.
pub open spec fn css_formatter_of(
    members: Seq<Member>,
) -> Result<PartialCssFormatter, SchemaErrorView> {
    if keys_checked(members, css_formatter_keys()) is Err {
        Err(keys_checked(members, css_formatter_keys())->Err_0)
    } else if bool_at(members, "enabled"@) is Err {
        Err(bool_at(members, "enabled"@)->Err_0)
    } else if indent_style_at(members, "indentStyle"@) is Err {
        Err(indent_style_at(members, "indentStyle"@)->Err_0)
    } else if u8_at(members, "indentWidth"@) is Err {
        Err(u8_at(members, "indentWidth"@)->Err_0)
    } else if line_ending_at(members, "lineEnding"@) is Err {
        Err(line_ending_at(members, "lineEnding"@)->Err_0)
    } else if u16_at(members, "lineWidth"@) is Err {
        Err(u16_at(members, "lineWidth"@)->Err_0)
    } else if quote_style_at(members, "quoteStyle"@) is Err {
        Err(quote_style_at(members, "quoteStyle"@)->Err_0)
    } else {
        Ok(
            PartialCssFormatter {
                enabled: bool_at(members, "enabled"@)->Ok_0,
                indent_style: indent_style_at(members, "indentStyle"@)->Ok_0,
                indent_width: u8_at(members, "indentWidth"@)->Ok_0,
                line_ending: line_ending_at(members, "lineEnding"@)->Ok_0,
                line_width: u16_at(members, "lineWidth"@)->Ok_0,
                quote_style: quote_style_at(members, "quoteStyle"@)->Ok_0,
            },
        )
    }
}

/// Executable form of [`css_formatter_of`].
pub fn decode_css_formatter(members: &Vec<Member>) -> (r: Result<PartialCssFormatter, SchemaError>)
    ensures
        match r {
            Ok(v) => css_formatter_of(members@) == Ok::<PartialCssFormatter, SchemaErrorView>(v),
            Err(e) => css_formatter_of(members@) == Err::<PartialCssFormatter, SchemaErrorView>(e@),
        },
{
    let known = css_formatter_key_list();
    match check_keys(members, &known) {
        Err(e) => {
            return Err(e);
        },
        Ok(_) => {},
    }
    let enabled = match read_bool(members, "enabled") {
        Ok(v) => v,
        Err(e) => {
            return Err(e);
        },
    };
    let indent_style = match read_indent_style(members, "indentStyle") {
        Ok(v) => v,
        Err(e) => {
            return Err(e);
        },
    };
    let indent_width = match read_u8(members, "indentWidth") {
        Ok(v) => v,
        Err(e) => {
            return Err(e);
        },
    };
    let line_ending = match read_line_ending(members, "lineEnding") {
        Ok(v) => v,
        Err(e) => {
            return Err(e);
        },
    };
    let line_width = match read_u16(members, "lineWidth") {
        Ok(v) => v,
        Err(e) => {
            return Err(e);
        },
    };
    let quote_style = match read_quote_style(members, "quoteStyle") {
        Ok(v) => v,
        Err(e) => {
            return Err(e);
        },
    };
    Ok(
        PartialCssFormatter {
            enabled,
            indent_style,
            indent_width,
            line_ending,
            line_width,
            quote_style,
        },
    )
}

/// The keys of the CSS part.
pub open spec fn css_keys() -> Seq<Seq<char>> {
    seq!["formatter"@]
}

/// Executable form of [`css_keys`].
fn css_key_list() -> (r: Vec<String>)
    ensures
        views(r@) == css_keys(),
{
    let mut r: Vec<String> = Vec::new();
    r.push("formatter".to_owned());
    assert(views(r@) =~= css_keys());
    r
}

/// What an object says of the CSS part: the object is held to the closed schema
/// first, then the fields are read in the order of the schema, and the first
/// thing amiss is the error.
pub open spec fn css_of(members: Seq<Member>) -> Result<PartialCssConfiguration, SchemaErrorView> {
    if keys_checked(members, css_keys()) is Err {
        Err(keys_checked(members, css_keys())->Err_0)
    } else if part_at(members, "formatter"@, |m: Seq<Member>| css_formatter_of(m)) is Err {
        Err(part_at(members, "formatter"@, |m: Seq<Member>| css_formatter_of(m))->Err_0)
    } else {
        Ok(
            PartialCssConfiguration {
                formatter: part_at(
                    members,
                    "formatter"@,
                    |m: Seq<Member>| css_formatter_of(m),
                )->Ok_0,
            },
        )
    }
}

/// Executable form of [`css_of`].
pub fn decode_css(members: &Vec<Member>) -> (r: Result<PartialCssConfiguration, SchemaError>)
    ensures
        match r {
            Ok(v) => css_of(members@) == Ok::<PartialCssConfiguration, SchemaErrorView>(v),
            Err(e) => css_of(members@) == Err::<PartialCssConfiguration, SchemaErrorView>(e@),
        },
{
    let known = css_key_list();
    match check_keys(members, &known) {
        Err(e) => {
            return Err(e);
        },
        Ok(_) => {},
    }
    let formatter = match read_object(members, "formatter") {
        Err(e) => {
            return Err(e);
        },
        Ok(None) => None,
        Ok(Some(inner)) => match decode_css_formatter(inner) {
            Ok(v) => Some(v),
            Err(e) => {
                return Err(e);
            },
        },
    };
    Ok(PartialCssConfiguration { formatter })
}

/// The size limit under `key`, if there is a member with this key. It is not
/// zero.
pub open spec fn file_size_at(members: Seq<Member>, key: Seq<char>) -> Result<
    Option<u64>,
    SchemaErrorView,
> {
    match number_at(members, key, u64::MAX) {
        Err(e) => Err(e),
        Ok(None) => Ok(None),
        Ok(Some(n)) => if n == 0 {
            Err(SchemaErrorView::OutOfRange { key })
        } else {
            Ok(Some(n))
        },
    }
}

/// Executable form of [`file_size_at`].
pub fn read_file_size(members: &Vec<Member>, key: &str) -> (r: Result<
    Option<FileSizeLimit>,
    SchemaError,
>)
    ensures
        match r {
            Ok(v) => file_size_at(members@, key@) == Ok::<Option<u64>, SchemaErrorView>(
                FileSizeLimit::view_option(v),
            ),
            Err(e) => file_size_at(members@, key@) == Err::<Option<u64>, SchemaErrorView>(e@),
        },
{
    match read_number(members, key, u64::MAX) {
        Err(e) => Err(e),
        Ok(None) => Ok(None),
        Ok(Some(n)) => match FileSizeLimit::new(n) {
            Some(limit) => Ok(Some(limit)),
            None => Err(SchemaError::OutOfRange { key: key.to_owned() }),
        },
    }
}

/// The keys of the filesystem part.
pub open spec fn files_keys() -> Seq<Seq<char>> {
    seq!["maxSize"@, "ignore"@, "include"@, "ignoreUnknown"@]
}

/// Executable form of [`files_keys`].
fn files_key_list() -> (r: Vec<String>)
    ensures
        views(r@) == files_keys(),
{
    let mut r: Vec<String> = Vec::new();
    r.push("maxSize".to_owned());
    r.push("ignore".to_owned());
    r.push("include".to_owned());
    r.push("ignoreUnknown".to_owned());
    assert(views(r@) =~= files_keys());
    r
}

/// What an object says of the filesystem part: the object is held to the
/// closed schema first, then the fields are read in the order of the schema,
/// and the first thing amiss is the error.
pub open spec fn files_of(members: Seq<Member>) -> Result<
    PartialFilesConfigurationView,
    SchemaErrorView,
> {
    if keys_checked(members, files_keys()) is Err {
        Err(keys_checked(members, files_keys())->Err_0)
    } else if file_size_at(members, "maxSize"@) is Err {
        Err(file_size_at(members, "maxSize"@)->Err_0)
    } else if strings_at(members, "ignore"@) is Err {
        Err(strings_at(members, "ignore"@)->Err_0)
    } else if strings_at(members, "include"@) is Err {
        Err(strings_at(members, "include"@)->Err_0)
    } else if bool_at(members, "ignoreUnknown"@) is Err {
        Err(bool_at(members, "ignoreUnknown"@)->Err_0)
    } else {
        Ok(
            PartialFilesConfigurationView {
                max_size: file_size_at(members, "maxSize"@)->Ok_0,
                ignore: strings_at(members, "ignore"@)->Ok_0,
                includes: strings_at(members, "include"@)->Ok_0,
                ignore_unknown: bool_at(members, "ignoreUnknown"@)->Ok_0,
            },
        )
    }
}

/// Executable form of [`files_of`].
pub fn decode_files(members: &Vec<Member>) -> (r: Result<PartialFilesConfiguration, SchemaError>)
    ensures
        match r {
            Ok(v) => files_of(members@) == Ok::<PartialFilesConfigurationView, SchemaErrorView>(v@),
            Err(e) => files_of(members@) == Err::<PartialFilesConfigurationView, SchemaErrorView>(
                e@,
            ),
        },
{
    let known = files_key_list();
    match check_keys(members, &known) {
        Err(e) => {
            return Err(e);
        },
        Ok(_) => {},
    }
    let max_size = match read_file_size(members, "maxSize") {
        Ok(v) => v,
        Err(e) => {
            return Err(e);
        },
    };
    let ignore = match read_strings(members, "ignore") {
        Ok(v) => v,
        Err(e) => {
            return Err(e);
        },
    };
    let includes = match read_strings(members, "include") {
        Ok(v) => v,
        Err(e) => {
            return Err(e);
        },
    };
    let ignore_unknown = match read_bool(members, "ignoreUnknown") {
        Ok(v) => v,
        Err(e) => {
            return Err(e);
        },
    };
    Ok(PartialFilesConfiguration { max_size, ignore, includes, ignore_unknown })
}

/// Whether `key` is one of the two switches of the rule selection. Every
/// other key of it is the name of a rule.
pub open spec fn is_rules_switch(key: Seq<char>) -> bool {
    key == "recommended"@ || key == "all"@
}

/// The rule table that the members of a rule selection make up, taken in
/// their order: each member that is no switch sets the rule of its key to the
/// setting that its text names. The first member that names no setting is the
/// error.
pub open spec fn rule_table_of(members: Seq<Member>) -> Result<
    Map<Seq<char>, RulePlainConfiguration>,
    SchemaErrorView,
>
    decreases members.len(),
{
    if members.len() == 0 {
        Ok(Map::empty())
    } else {
        let member = members.last();
        match rule_table_of(members.drop_last()) {
            Err(e) => Err(e),
            Ok(table) => if is_rules_switch(member.key@) {
                Ok(table)
            } else {
                match member.value {
                    Value::Text(name) => match rule_level_named(name@) {
                        Some(level) => Ok(table.insert(member.key@, level)),
                        None => Err(
                            SchemaErrorView::UnknownVariant { key: member.key@, value: name@ },
                        ),
                    },
                    _ => Err(SchemaErrorView::WrongType { key: member.key@ }),
                }
            },
        }
    }
}

/// Executable form of [`rule_table_of`].
pub fn decode_rule_table(members: &Vec<Member>) -> (r: Result<RuleTable, SchemaError>)
    ensures
        match r {
            Ok(v) => rule_table_of(members@) == Ok::<
                Map<Seq<char>, RulePlainConfiguration>,
                SchemaErrorView,
            >(v@),
            Err(e) => rule_table_of(members@) == Err::<
                Map<Seq<char>, RulePlainConfiguration>,
                SchemaErrorView,
            >(e@),
        },
{
    let mut table = RuleTable::new();
    let mut i: usize = 0;
    assert(members@.subrange(0, 0) =~= Seq::<Member>::empty());
    while i < members.len()
        invariant
            i <= members@.len(),
            rule_table_of(members@.subrange(0, i as int)) == Ok::<
                Map<Seq<char>, RulePlainConfiguration>,
                SchemaErrorView,
            >(table@),
        decreases members@.len() - i,
    {
        let ghost upto = members@.subrange(0, i + 1);
        assert(upto.drop_last() =~= members@.subrange(0, i as int));
        assert(upto.last() == members@[i as int]);
        let member = &members[i];
        if !(text_is(&member.key, "recommended") || text_is(&member.key, "all")) {
            match &member.value {
                Value::Text(name) => match rule_level_of(name) {
                    Some(level) => {
                        table.set(member.key.clone(), level);
                    },
                    None => {
                        proof {
                            lemma_rule_table_prefix(members@, i + 1);
                        }
                        return Err(
                            SchemaError::UnknownVariant {
                                key: member.key.clone(),
                                value: name.clone(),
                            },
                        );
                    },
                },
                _ => {
                    proof {
                        lemma_rule_table_prefix(members@, i + 1);
                    }
                    return Err(SchemaError::WrongType { key: member.key.clone() });
                },
            }
        }
        i += 1;
    }
    assert(members@.subrange(0, i as int) =~= members@);
    Ok(table)
}

/// The error of the first members is the error of all of them.
proof fn lemma_rule_table_prefix(members: Seq<Member>, upto: int)
    requires
        0 <= upto <= members.len(),
        rule_table_of(members.subrange(0, upto)) is Err,
    ensures
        rule_table_of(members) == rule_table_of(members.subrange(0, upto)),
    decreases members.len() - upto,
{
    if upto < members.len() {
        let next = members.subrange(0, upto + 1);
        assert(next.drop_last() =~= members.subrange(0, upto));
        lemma_rule_table_prefix(members, upto + 1);
    } else {
        assert(members.subrange(0, upto) =~= members);
    }
}

/// What an object says of the rule selection: the two switches are read
/// first, then the rules.
pub open spec fn rules_of(members: Seq<Member>) -> Result<PartialRulesView, SchemaErrorView> {
    if bool_at(members, "recommended"@) is Err {
        Err(bool_at(members, "recommended"@)->Err_0)
    } else if bool_at(members, "all"@) is Err {
        Err(bool_at(members, "all"@)->Err_0)
    } else if rule_table_of(members) is Err {
        Err(rule_table_of(members)->Err_0)
    } else {
        Ok(
            PartialRulesView {
                recommended: bool_at(members, "recommended"@)->Ok_0,
                all: bool_at(members, "all"@)->Ok_0,
                table: rule_table_of(members)->Ok_0,
            },
        )
    }
}

/// Executable form of [`rules_of`].
pub fn decode_rules(members: &Vec<Member>) -> (r: Result<PartialRules, SchemaError>)
    ensures
        match r {
            Ok(v) => rules_of(members@) == Ok::<PartialRulesView, SchemaErrorView>(v@),
            Err(e) => rules_of(members@) == Err::<PartialRulesView, SchemaErrorView>(e@),
        },
{
    let recommended = match read_bool(members, "recommended") {
        Ok(v) => v,
        Err(e) => {
            return Err(e);
        },
    };
    let all = match read_bool(members, "all") {
        Ok(v) => v,
        Err(e) => {
            return Err(e);
        },
    };
    let table = match decode_rule_table(members) {
        Ok(v) => v,
        Err(e) => {
            return Err(e);
        },
    };
    Ok(PartialRules { recommended, all, table })
}

/// The keys of the linter part.
pub open spec fn linter_keys() -> Seq<Seq<char>> {
    seq!["enabled"@, "rules"@]
}

/// Executable form of [`linter_keys`].
fn linter_key_list() -> (r: Vec<String>)
    ensures
        views(r@) == linter_keys(),
{
    let mut r: Vec<String> = Vec::new();
    r.push("enabled".to_owned());
    r.push("rules".to_owned());
    assert(views(r@) =~= linter_keys());
    r
}

/// What an object says of the linter part: the object is held to the closed
/// schema first, then the fields are read in the order of the schema, and the
/// first thing amiss is the error.
pub open spec fn linter_of(members: Seq<Member>) -> Result<
    PartialLinterConfigurationView,
    SchemaErrorView,
> {
    if keys_checked(members, linter_keys()) is Err {
        Err(keys_checked(members, linter_keys())->Err_0)
    } else if bool_at(members, "enabled"@) is Err {
        Err(bool_at(members, "enabled"@)->Err_0)
    } else if part_at(members, "rules"@, |m: Seq<Member>| rules_of(m)) is Err {
        Err(part_at(members, "rules"@, |m: Seq<Member>| rules_of(m))->Err_0)
    } else {
        Ok(
            PartialLinterConfigurationView {
                enabled: bool_at(members, "enabled"@)->Ok_0,
                rules: part_at(members, "rules"@, |m: Seq<Member>| rules_of(m))->Ok_0,
            },
        )
    }
}

/// Executable form of [`linter_of`].
pub fn decode_linter(members: &Vec<Member>) -> (r: Result<PartialLinterConfiguration, SchemaError>)
    ensures
        match r {
            Ok(v) => linter_of(members@) == Ok::<PartialLinterConfigurationView, SchemaErrorView>(
                v@,
            ),
            Err(e) => linter_of(members@) == Err::<PartialLinterConfigurationView, SchemaErrorView>(
                e@,
            ),
        },
{
    let known = linter_key_list();
    match check_keys(members, &known) {
        Err(e) => {
            return Err(e);
        },
        Ok(_) => {},
    }
    let enabled = match read_bool(members, "enabled") {
        Ok(v) => v,
        Err(e) => {
            return Err(e);
        },
    };
    let rules = match read_object(members, "rules") {
        Err(e) => {
            return Err(e);
        },
        Ok(None) => None,
        Ok(Some(inner)) => match decode_rules(inner) {
            Ok(v) => Some(v),
            Err(e) => {
                return Err(e);
            },
        },
    };
    Ok(PartialLinterConfiguration { enabled, rules })
}

/// The keys of an entry of the `overrides` list.
pub open spec fn override_keys() -> Seq<Seq<char>> {
    seq!["include"@, "ignore"@, "formatter"@, "linter"@, "organizeImports"@]
}

/// Executable form of [`override_keys`].
fn override_key_list() -> (r: Vec<String>)
    ensures
        views(r@) == override_keys(),
{
    let mut r: Vec<String> = Vec::new();
    r.push("include".to_owned());
    r.push("ignore".to_owned());
    r.push("formatter".to_owned());
    r.push("linter".to_owned());
    r.push("organizeImports".to_owned());
    assert(views(r@) =~= override_keys());
    r
}

/// What an object says of an entry of the `overrides` list: the object is
/// held to the closed schema first, then the fields are read in the order of
/// the schema, and the first thing amiss is the error. An entry without
/// patterns has the empty set of them.
pub open spec fn override_of(members: Seq<Member>) -> Result<OverridePatternView, SchemaErrorView> {
    if keys_checked(members, override_keys()) is Err {
        Err(keys_checked(members, override_keys())->Err_0)
    } else if strings_at(members, "include"@) is Err {
        Err(strings_at(members, "include"@)->Err_0)
    } else if strings_at(members, "ignore"@) is Err {
        Err(strings_at(members, "ignore"@)->Err_0)
    } else if part_at(members, "formatter"@, |m: Seq<Member>| formatter_of(m)) is Err {
        Err(part_at(members, "formatter"@, |m: Seq<Member>| formatter_of(m))->Err_0)
    } else if part_at(members, "linter"@, |m: Seq<Member>| linter_of(m)) is Err {
        Err(part_at(members, "linter"@, |m: Seq<Member>| linter_of(m))->Err_0)
    } else if part_at(members, "organizeImports"@, |m: Seq<Member>| organize_imports_of(m)) is Err {
        Err(part_at(members, "organizeImports"@, |m: Seq<Member>| organize_imports_of(m))->Err_0)
    } else {
        Ok(
            OverridePatternView {
                includes: or_default(strings_at(members, "include"@)->Ok_0, Seq::empty()),
                ignore: or_default(strings_at(members, "ignore"@)->Ok_0, Seq::empty()),
                formatter: part_at(members, "formatter"@, |m: Seq<Member>| formatter_of(m))->Ok_0,
                linter: part_at(members, "linter"@, |m: Seq<Member>| linter_of(m))->Ok_0,
                organize_imports: part_at(
                    members,
                    "organizeImports"@,
                    |m: Seq<Member>| organize_imports_of(m),
                )->Ok_0,
            },
        )
    }
}

/// Executable form of [`override_of`].
pub fn decode_override(members: &Vec<Member>) -> (r: Result<OverridePattern, SchemaError>)
    ensures
        match r {
            Ok(v) => override_of(members@) == Ok::<OverridePatternView, SchemaErrorView>(v@),
            Err(e) => override_of(members@) == Err::<OverridePatternView, SchemaErrorView>(e@),
        },
{
    let known = override_key_list();
    match check_keys(members, &known) {
        Err(e) => {
            return Err(e);
        },
        Ok(_) => {},
    }
    let includes = match read_strings(members, "include") {
        Ok(v) => resolve_set(&v),
        Err(e) => {
            return Err(e);
        },
    };
    let ignore = match read_strings(members, "ignore") {
        Ok(v) => resolve_set(&v),
        Err(e) => {
            return Err(e);
        },
    };
    let formatter = match read_object(members, "formatter") {
        Err(e) => {
            return Err(e);
        },
        Ok(None) => None,
        Ok(Some(inner)) => match decode_formatter(inner) {
            Ok(v) => Some(v),
            Err(e) => {
                return Err(e);
            },
        },
    };
    let linter = match read_object(members, "linter") {
        Err(e) => {
            return Err(e);
        },
        Ok(None) => None,
        Ok(Some(inner)) => match decode_linter(inner) {
            Ok(v) => Some(v),
            Err(e) => {
                return Err(e);
            },
        },
    };
    let organize_imports = match read_object(members, "organizeImports") {
        Err(e) => {
            return Err(e);
        },
        Ok(None) => None,
        Ok(Some(inner)) => match decode_organize_imports(inner) {
            Ok(v) => Some(v),
            Err(e) => {
                return Err(e);
            },
        },
    };
    Ok(OverridePattern { ignore, includes, formatter, linter, organize_imports })
}

/// The entries that the items of the `overrides` list are, in their order.
/// Each item is an object that reads as an entry; the first that does not is
/// the error.
pub open spec fn overrides_of(items: Seq<Value>) -> Result<
    Seq<OverridePatternView>,
    SchemaErrorView,
>
    decreases items.len(),
{
    if items.len() == 0 {
        Ok(Seq::empty())
    } else {
        match overrides_of(items.drop_last()) {
            Err(e) => Err(e),
            Ok(front) => match items.last() {
                Value::Object(members) => match override_of(members@) {
                    Ok(entry) => Ok(front.push(entry)),
                    Err(e) => Err(e),
                },
                _ => Err(SchemaErrorView::WrongType { key: "overrides"@ }),
            },
        }
    }
}

/// The error of the first items is the error of all of them.
proof fn lemma_overrides_prefix(items: Seq<Value>, upto: int)
    requires
        0 <= upto <= items.len(),
        overrides_of(items.subrange(0, upto)) is Err,
    ensures
        overrides_of(items) == overrides_of(items.subrange(0, upto)),
    decreases items.len() - upto,
{
    if upto < items.len() {
        let next = items.subrange(0, upto + 1);
        assert(next.drop_last() =~= items.subrange(0, upto));
        lemma_overrides_prefix(items, upto + 1);
    } else {
        assert(items.subrange(0, upto) =~= items);
    }
}

/// Executable form of [`overrides_of`].
pub fn decode_overrides(items: &Vec<Value>) -> (r: Result<Overrides, SchemaError>)
    ensures
        match r {
            Ok(v) => overrides_of(items@) == Ok::<Seq<OverridePatternView>, SchemaErrorView>(v@),
            Err(e) => overrides_of(items@) == Err::<Seq<OverridePatternView>, SchemaErrorView>(e@),
        },
{
    let mut entries: Vec<OverridePattern> = Vec::new();
    let mut i: usize = 0;
    assert(items@.subrange(0, 0) =~= Seq::<Value>::empty());
    assert(pattern_views(entries@) =~= Seq::<OverridePatternView>::empty());
    while i < items.len()
        invariant
            i <= items@.len(),
            overrides_of(items@.subrange(0, i as int)) == Ok::<
                Seq<OverridePatternView>,
                SchemaErrorView,
            >(pattern_views(entries@)),
        decreases items@.len() - i,
    {
        let ghost upto = items@.subrange(0, i + 1);
        assert(upto.drop_last() =~= items@.subrange(0, i as int));
        assert(upto.last() == items@[i as int]);
        match &items[i] {
            Value::Object(members) => match decode_override(members) {
                Ok(entry) => {
                    let ghost before = entries@;
                    let ghost added = entry@;
                    entries.push(entry);
                    assert(pattern_views(entries@) =~= pattern_views(before).push(added));
                },
                Err(e) => {
                    proof {
                        lemma_overrides_prefix(items@, i + 1);
                    }
                    return Err(e);
                },
            },
            _ => {
                proof {
                    lemma_overrides_prefix(items@, i + 1);
                }
                return Err(SchemaError::WrongType { key: "overrides".to_owned() });
            },
        }
        i += 1;
    }
    assert(items@.subrange(0, i as int) =~= items@);
    Ok(Overrides(entries))
}

/// The `overrides` list under `key`, if there is a member with this key.
pub open spec fn overrides_at(members: Seq<Member>, key: Seq<char>) -> Result<
    Option<Seq<OverridePatternView>>,
    SchemaErrorView,
> {
    match list_at(members, key) {
        Err(e) => Err(e),
        Ok(None) => Ok(None),
        Ok(Some(items)) => match overrides_of(items) {
            Ok(v) => Ok(Some(v)),
            Err(e) => Err(e),
        },
    }
}

/// The keys of the document.
pub open spec fn configuration_keys() -> Seq<Seq<char>> {
    seq![
        "$schema"@,
        "vcs"@,
        "files"@,
        "formatter"@,
        "organizeImports"@,
        "linter"@,
        "javascript"@,
        "json"@,
        "css"@,
        "extends"@,
        "overrides"@,
    ]
}

/// Executable form of [`configuration_keys`].
fn configuration_key_list() -> (r: Vec<String>)
    ensures
        views(r@) == configuration_keys(),
{
    let mut r: Vec<String> = Vec::new();
    r.push("$schema".to_owned());
    r.push("vcs".to_owned());
    r.push("files".to_owned());
    r.push("formatter".to_owned());
    r.push("organizeImports".to_owned());
    r.push("linter".to_owned());
    r.push("javascript".to_owned());
    r.push("json".to_owned());
    r.push("css".to_owned());
    r.push("extends".to_owned());
    r.push("overrides".to_owned());
    assert(views(r@) =~= configuration_keys());
    r
}

/// What the members of a document say of the configuration: the document is
/// held to the closed schema first, then the parts are read in the order of
/// the schema, and the first thing amiss is the error.
pub open spec fn configuration_of(members: Seq<Member>) -> Result<
    PartialConfigurationView,
    SchemaErrorView,
> {
    if keys_checked(members, configuration_keys()) is Err {
        Err(keys_checked(members, configuration_keys())->Err_0)
    } else if text_at(members, "$schema"@) is Err {
        Err(text_at(members, "$schema"@)->Err_0)
    } else if part_at(members, "vcs"@, |m: Seq<Member>| vcs_of(m)) is Err {
        Err(part_at(members, "vcs"@, |m: Seq<Member>| vcs_of(m))->Err_0)
    } else if part_at(members, "files"@, |m: Seq<Member>| files_of(m)) is Err {
        Err(part_at(members, "files"@, |m: Seq<Member>| files_of(m))->Err_0)
    } else if part_at(members, "formatter"@, |m: Seq<Member>| formatter_of(m)) is Err {
        Err(part_at(members, "formatter"@, |m: Seq<Member>| formatter_of(m))->Err_0)
    } else if part_at(members, "organizeImports"@, |m: Seq<Member>| organize_imports_of(m)) is Err {
        Err(part_at(members, "organizeImports"@, |m: Seq<Member>| organize_imports_of(m))->Err_0)
    } else if part_at(members, "linter"@, |m: Seq<Member>| linter_of(m)) is Err {
        Err(part_at(members, "linter"@, |m: Seq<Member>| linter_of(m))->Err_0)
    } else if part_at(members, "javascript"@, |m: Seq<Member>| javascript_of(m)) is Err {
        Err(part_at(members, "javascript"@, |m: Seq<Member>| javascript_of(m))->Err_0)
    } else if part_at(members, "json"@, |m: Seq<Member>| json_of(m)) is Err {
        Err(part_at(members, "json"@, |m: Seq<Member>| json_of(m))->Err_0)
    } else if part_at(members, "css"@, |m: Seq<Member>| css_of(m)) is Err {
        Err(part_at(members, "css"@, |m: Seq<Member>| css_of(m))->Err_0)
    } else if strings_at(members, "extends"@) is Err {
        Err(strings_at(members, "extends"@)->Err_0)
    } else if overrides_at(members, "overrides"@) is Err {
        Err(overrides_at(members, "overrides"@)->Err_0)
    } else {
        Ok(
            PartialConfigurationView {
                schema: text_at(members, "$schema"@)->Ok_0,
                vcs: part_at(members, "vcs"@, |m: Seq<Member>| vcs_of(m))->Ok_0,
                files: part_at(members, "files"@, |m: Seq<Member>| files_of(m))->Ok_0,
                formatter: part_at(members, "formatter"@, |m: Seq<Member>| formatter_of(m))->Ok_0,
                organize_imports: part_at(
                    members,
                    "organizeImports"@,
                    |m: Seq<Member>| organize_imports_of(m),
                )->Ok_0,
                linter: part_at(members, "linter"@, |m: Seq<Member>| linter_of(m))->Ok_0,
                javascript: part_at(
                    members,
                    "javascript"@,
                    |m: Seq<Member>| javascript_of(m),
                )->Ok_0,
                json: part_at(members, "json"@, |m: Seq<Member>| json_of(m))->Ok_0,
                css: part_at(members, "css"@, |m: Seq<Member>| css_of(m))->Ok_0,
                extends: strings_at(members, "extends"@)->Ok_0,
                overrides: overrides_at(members, "overrides"@)->Ok_0,
            },
        )
    }
}

/// Executable form of [`configuration_of`].
pub fn decode_configuration(members: &Vec<Member>) -> (r: Result<PartialConfiguration, SchemaError>)
    ensures
        match r {
            Ok(v) => configuration_of(members@) == Ok::<PartialConfigurationView, SchemaErrorView>(
                v@,
            ),
            Err(e) => configuration_of(members@) == Err::<
                PartialConfigurationView,
                SchemaErrorView,
            >(e@),
        },
{
    let known = configuration_key_list();
    match check_keys(members, &known) {
        Err(e) => {
            return Err(e);
        },
        Ok(_) => {},
    }
    let schema = match read_text(members, "$schema") {
        Ok(v) => v,
        Err(e) => {
            return Err(e);
        },
    };
    let vcs = match read_object(members, "vcs") {
        Err(e) => {
            return Err(e);
        },
        Ok(None) => None,
        Ok(Some(inner)) => match decode_vcs(inner) {
            Ok(v) => Some(v),
            Err(e) => {
                return Err(e);
            },
        },
    };
    let files = match read_object(members, "files") {
        Err(e) => {
            return Err(e);
        },
        Ok(None) => None,
        Ok(Some(inner)) => match decode_files(inner) {
            Ok(v) => Some(v),
            Err(e) => {
                return Err(e);
            },
        },
    };
    let formatter = match read_object(members, "formatter") {
        Err(e) => {
            return Err(e);
        },
        Ok(None) => None,
        Ok(Some(inner)) => match decode_formatter(inner) {
            Ok(v) => Some(v),
            Err(e) => {
                return Err(e);
            },
        },
    };
    let organize_imports = match read_object(members, "organizeImports") {
        Err(e) => {
            return Err(e);
        },
        Ok(None) => None,
        Ok(Some(inner)) => match decode_organize_imports(inner) {
            Ok(v) => Some(v),
            Err(e) => {
                return Err(e);
            },
        },
    };
    let linter = match read_object(members, "linter") {
        Err(e) => {
            return Err(e);
        },
        Ok(None) => None,
        Ok(Some(inner)) => match decode_linter(inner) {
            Ok(v) => Some(v),
            Err(e) => {
                return Err(e);
            },
        },
    };
    let javascript = match read_object(members, "javascript") {
        Err(e) => {
            return Err(e);
        },
        Ok(None) => None,
        Ok(Some(inner)) => match decode_javascript(inner) {
            Ok(v) => Some(v),
            Err(e) => {
                return Err(e);
            },
        },
    };
    let json = match read_object(members, "json") {
        Err(e) => {
            return Err(e);
        },
        Ok(None) => None,
        Ok(Some(inner)) => match decode_json(inner) {
            Ok(v) => Some(v),
            Err(e) => {
                return Err(e);
            },
        },
    };
    let css = match read_object(members, "css") {
        Err(e) => {
            return Err(e);
        },
        Ok(None) => None,
        Ok(Some(inner)) => match decode_css(inner) {
            Ok(v) => Some(v),
            Err(e) => {
                return Err(e);
            },
        },
    };
    let extends = match read_strings(members, "extends") {
        Ok(v) => v,
        Err(e) => {
            return Err(e);
        },
    };
    let overrides = match read_list(members, "overrides") {
        Err(e) => {
            return Err(e);
        },
        Ok(None) => None,
        Ok(Some(items)) => match decode_overrides(items) {
            Ok(v) => Some(v),
            Err(e) => {
                return Err(e);
            },
        },
    };
    Ok(
        PartialConfiguration {
            schema,
            vcs,
            files,
            formatter,
            organize_imports,
            linter,
            javascript,
            json,
            css,
            extends,
            overrides,
        },
    )
}

/// What a document says of the configuration. A document that is no object
/// is refused as of the wrong type, under the empty key.
pub open spec fn document_of(document: Value) -> Result<PartialConfigurationView, SchemaErrorView> {
    match document {
        Value::Object(members) => configuration_of(members@),
        _ => Err(SchemaErrorView::WrongType { key: ""@ }),
    }
}

/// Reads the configuration fragment that a document holds, or says why the
/// document is no configuration.
pub fn from_document(document: &Value) -> (r: Result<PartialConfiguration, SchemaError>)
    ensures
        match r {
            Ok(v) => document_of(*document) == Ok::<PartialConfigurationView, SchemaErrorView>(v@),
            Err(e) => document_of(*document) == Err::<PartialConfigurationView, SchemaErrorView>(
                e@,
            ),
        },
{
    match document {
        Value::Object(members) => decode_configuration(members),
        _ => Err(SchemaError::WrongType { key: "".to_owned() }),
    }
}

/// A document with a top-level key that the schema does not name is refused
/// for an unknown key: for the first such key of the document.
pub proof fn law_unknown_top_level_key_is_refused(members: Seq<Member>, at: int)
    requires
        0 <= at < members.len(),
        !configuration_keys().contains(members[at].key@),
    ensures
        configuration_of(members) is Err,
        configuration_of(members)->Err_0 is UnknownKey,
        (forall|i: int| 0 <= i < at ==> configuration_keys().contains((#[trigger] members[i]).key@))
            ==> configuration_of(members) == Err::<PartialConfigurationView, SchemaErrorView>(
            SchemaErrorView::UnknownKey { key: members[at].key@ },
        ),
{
    law_unknown_key_is_refused(members, configuration_keys(), at);
}

} // verus!
