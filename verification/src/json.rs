//! Settings specific to JSON sources.

use crate::formatter::{
    LineEnding, PartialFormatterConfiguration, PlainIndentStyle, DEFAULT_INDENT_WIDTH,
    DEFAULT_LINE_WIDTH,
};
use crate::merge::{later_wins, or_default, resolve_scalar, resolve_two_level, two_level};
use vstd::prelude::*;

verus! {

/// The parser settings for JSON, every field with a value.
#[derive(Clone, Copy, Debug, PartialEq, Eq)]
pub struct JsonParser {
    /// Accept comments in JSON files.
    pub allow_comments: bool,
    /// Accept a comma after the last item.
    pub allow_trailing_commas: bool,
}

impl JsonParser {
    /// The built-in parser settings for JSON.
    pub open spec fn hard_default() -> Self {
        JsonParser {
            allow_comments: false,
            allow_trailing_commas: false,
        }
    }
}

impl Default for JsonParser {
    fn default() -> (r: Self)
        ensures
            r == Self::hard_default(),
    {
        JsonParser {
            allow_comments: false,
            allow_trailing_commas: false,
        }
    }
}

/// The parser settings for JSON as a fragment supplies them: every field may be absent.
#[derive(Clone, Copy, Debug, PartialEq, Eq)]
pub struct PartialJsonParser {
    /// Accept comments in JSON files.
    pub allow_comments: Option<bool>,
    /// Accept a comma after the last item.
    pub allow_trailing_commas: Option<bool>,
}

impl PartialJsonParser {
    /// The fragment that sets nothing.
    pub open spec fn absent() -> Self {
        PartialJsonParser {
            allow_comments: None,
            allow_trailing_commas: None,
        }
    }

    /// `self` overlaid with `later`, field by field.
    pub open spec fn merged(self, later: Self) -> Self {
        PartialJsonParser {
            allow_comments: later_wins(self.allow_comments, later.allow_comments),
            allow_trailing_commas: later_wins(
                self.allow_trailing_commas,
                later.allow_trailing_commas,
            ),
        }
    }

    /// Overlays an optional fragment on another: where both are present they
    /// merge field by field, otherwise the one that is present stays.
    pub open spec fn merged_option(earlier: Option<Self>, later: Option<Self>) -> Option<Self> {
        match (earlier, later) {
            (Some(a), Some(b)) => Some(a.merged(b)),
            (None, Some(b)) => Some(b),
            (_, None) => earlier,
        }
    }

    /// Every absent field replaced by its built-in default.
    pub open spec fn resolved(self) -> JsonParser {
        let d = JsonParser::hard_default();
        JsonParser {
            allow_comments: or_default(self.allow_comments, d.allow_comments),
            allow_trailing_commas: or_default(self.allow_trailing_commas, d.allow_trailing_commas),
        }
    }

    /// What an optional fragment resolves to: an absent one gives the built-in
    /// defaults.
    pub open spec fn resolved_option(fragment: Option<Self>) -> JsonParser {
        match fragment {
            Some(f) => f.resolved(),
            None => JsonParser::hard_default(),
        }
    }

    /// Of two fragments merged in this order, the later one decides every field
    /// it sets and the earlier one every other. A field that neither sets
    /// resolves to its built-in default.
    pub proof fn law_later_wins(a: Self, b: Self)
        ensures
            b.allow_comments is Some ==> a.merged(b).allow_comments == b.allow_comments,
            b.allow_comments is None ==> a.merged(b).allow_comments == a.allow_comments,
            a.allow_comments is None && b.allow_comments is None
                ==> a.merged(b).resolved().allow_comments
                == JsonParser::hard_default().allow_comments,
            b.allow_trailing_commas is Some
                ==> a.merged(b).allow_trailing_commas == b.allow_trailing_commas,
            b.allow_trailing_commas is None
                ==> a.merged(b).allow_trailing_commas == a.allow_trailing_commas,
            a.allow_trailing_commas is None && b.allow_trailing_commas is None
                ==> a.merged(b).resolved().allow_trailing_commas
                == JsonParser::hard_default().allow_trailing_commas,
    {
    }

    /// The full parser settings for JSON this fragment stands for.
    pub fn get_parser_configuration(&self) -> (r: JsonParser)
        ensures
            r == self.resolved(),
    {
        let d = JsonParser::default();
        JsonParser {
            allow_comments: resolve_scalar(self.allow_comments, d.allow_comments),
            allow_trailing_commas: resolve_scalar(
                self.allow_trailing_commas,
                d.allow_trailing_commas,
            ),
        }
    }

    /// Executable form of [`Self::resolved_option`].
    pub fn resolve_option(fragment: &Option<Self>) -> (r: JsonParser)
        ensures
            r == Self::resolved_option(*fragment),
    {
        match fragment {
            Some(f) => f.get_parser_configuration(),
            None => JsonParser::default(),
        }
    }

    /// Overlays `other`, the fragment of higher precedence, on `self`.
    pub fn merge_with(&mut self, other: Self)
        ensures
            *final(self) == old(self).merged(other),
    {
        if other.allow_comments.is_some() {
            self.allow_comments = other.allow_comments;
        }
        if other.allow_trailing_commas.is_some() {
            self.allow_trailing_commas = other.allow_trailing_commas;
        }
    }

    /// Executable form of [`Self::merged_option`].
    pub fn merge_option(earlier: &mut Option<Self>, later: Option<Self>)
        ensures
            *final(earlier) == Self::merged_option(*old(earlier), later),
    {
        if let Some(b) = later {
            match earlier {
                Some(a) => a.merge_with(b),
                None => {
                    *earlier = Some(b);
                },
            }
        }
    }
}

impl Default for PartialJsonParser {
    fn default() -> (r: Self)
        ensures
            r == Self::absent(),
    {
        PartialJsonParser {
            allow_comments: None,
            allow_trailing_commas: None,
        }
    }
}

/// The formatter settings for JSON, every field with a value.
#[derive(Clone, Copy, Debug, PartialEq, Eq)]
pub struct JsonFormatter {
    pub enabled: bool,
    pub indent_style: PlainIndentStyle,
    pub indent_width: u8,
    pub line_ending: LineEnding,
    pub line_width: u16,
}

impl JsonFormatter {
    /// The built-in formatter settings for JSON.
    pub open spec fn hard_default() -> Self {
        JsonFormatter {
            enabled: true,
            indent_style: PlainIndentStyle::Tab,
            indent_width: DEFAULT_INDENT_WIDTH,
            line_ending: LineEnding::Lf,
            line_width: DEFAULT_LINE_WIDTH,
        }
    }
}

impl Default for JsonFormatter {
    fn default() -> (r: Self)
        ensures
            r == Self::hard_default(),
    {
        JsonFormatter {
            enabled: true,
            indent_style: PlainIndentStyle::Tab,
            indent_width: DEFAULT_INDENT_WIDTH,
            line_ending: LineEnding::Lf,
            line_width: DEFAULT_LINE_WIDTH,
        }
    }
}

/// The formatter settings for JSON as a fragment supplies them: every field may be absent.
#[derive(Clone, Copy, Debug, PartialEq, Eq)]
pub struct PartialJsonFormatter {
    pub enabled: Option<bool>,
    pub indent_style: Option<PlainIndentStyle>,
    pub indent_width: Option<u8>,
    pub line_ending: Option<LineEnding>,
    pub line_width: Option<u16>,
}

impl PartialJsonFormatter {
    /// The fragment that sets nothing.
    pub open spec fn absent() -> Self {
        PartialJsonFormatter {
            enabled: None,
            indent_style: None,
            indent_width: None,
            line_ending: None,
            line_width: None,
        }
    }

    /// `self` overlaid with `later`, field by field.
    pub open spec fn merged(self, later: Self) -> Self {
        PartialJsonFormatter {
            enabled: later_wins(self.enabled, later.enabled),
            indent_style: later_wins(self.indent_style, later.indent_style),
            indent_width: later_wins(self.indent_width, later.indent_width),
            line_ending: later_wins(self.line_ending, later.line_ending),
            line_width: later_wins(self.line_width, later.line_width),
        }
    }

    /// Overlays an optional fragment on another: where both are present they
    /// merge field by field, otherwise the one that is present stays.
    pub open spec fn merged_option(earlier: Option<Self>, later: Option<Self>) -> Option<Self> {
        match (earlier, later) {
            (Some(a), Some(b)) => Some(a.merged(b)),
            (None, Some(b)) => Some(b),
            (_, None) => earlier,
        }
    }

    /// Every field given a value: a shared field takes the fragment's own value,
    /// else the value of the top-level formatter fragment `top`, else the
    /// built-in default; the other fields take their own value or the default.
    pub open spec fn resolved(self, top: PartialFormatterConfiguration) -> JsonFormatter {
        let d = JsonFormatter::hard_default();
        JsonFormatter {
            enabled: two_level(self.enabled, top.enabled, d.enabled),
            indent_style: two_level(self.indent_style, top.indent_style, d.indent_style),
            indent_width: two_level(self.indent_width, top.indent_width, d.indent_width),
            line_ending: two_level(self.line_ending, top.line_ending, d.line_ending),
            line_width: two_level(self.line_width, top.line_width, d.line_width),
        }
    }

    /// What an optional fragment resolves to under the top-level formatter
    /// fragment `top`; an absent fragment resolves as one that sets nothing.
    pub open spec fn resolved_option(
        fragment: Option<Self>,
        top: PartialFormatterConfiguration,
    ) -> JsonFormatter {
        match fragment {
            Some(f) => f.resolved(top),
            None => Self::absent().resolved(top),
        }
    }

    /// Of two fragments merged in this order, the later one decides every field
    /// it sets and the earlier one every other. A field that neither sets
    /// resolves to the value of the top-level formatter fragment `top` where it
    /// is a shared field that `top` sets, and to its built-in default otherwise.
    pub proof fn law_later_wins(a: Self, b: Self, top: PartialFormatterConfiguration)
        ensures
            b.enabled is Some ==> a.merged(b).enabled == b.enabled,
            b.enabled is None ==> a.merged(b).enabled == a.enabled,
            a.enabled is None && b.enabled is None
                ==> a.merged(b).resolved(top).enabled == or_default(
                top.enabled,
                JsonFormatter::hard_default().enabled,
            ),
            b.indent_style is Some ==> a.merged(b).indent_style == b.indent_style,
            b.indent_style is None ==> a.merged(b).indent_style == a.indent_style,
            a.indent_style is None && b.indent_style is None
                ==> a.merged(b).resolved(top).indent_style == or_default(
                top.indent_style,
                JsonFormatter::hard_default().indent_style,
            ),
            b.indent_width is Some ==> a.merged(b).indent_width == b.indent_width,
            b.indent_width is None ==> a.merged(b).indent_width == a.indent_width,
            a.indent_width is None && b.indent_width is None
                ==> a.merged(b).resolved(top).indent_width == or_default(
                top.indent_width,
                JsonFormatter::hard_default().indent_width,
            ),
            b.line_ending is Some ==> a.merged(b).line_ending == b.line_ending,
            b.line_ending is None ==> a.merged(b).line_ending == a.line_ending,
            a.line_ending is None && b.line_ending is None
                ==> a.merged(b).resolved(top).line_ending == or_default(
                top.line_ending,
                JsonFormatter::hard_default().line_ending,
            ),
            b.line_width is Some ==> a.merged(b).line_width == b.line_width,
            b.line_width is None ==> a.merged(b).line_width == a.line_width,
            a.line_width is None && b.line_width is None
                ==> a.merged(b).resolved(top).line_width == or_default(
                top.line_width,
                JsonFormatter::hard_default().line_width,
            ),
    {
    }

    /// The full formatter settings for JSON this fragment stands for.
    pub fn get_formatter_configuration(
        &self,
        top: &PartialFormatterConfiguration,
    ) -> (r: JsonFormatter)
        ensures
            r == self.resolved(*top),
    {
        let d = JsonFormatter::default();
        JsonFormatter {
            enabled: resolve_two_level(self.enabled, top.enabled, d.enabled),
            indent_style: resolve_two_level(self.indent_style, top.indent_style, d.indent_style),
            indent_width: resolve_two_level(self.indent_width, top.indent_width, d.indent_width),
            line_ending: resolve_two_level(self.line_ending, top.line_ending, d.line_ending),
            line_width: resolve_two_level(self.line_width, top.line_width, d.line_width),
        }
    }

    /// Executable form of [`Self::resolved_option`].
    pub fn resolve_option(
        fragment: &Option<Self>,
        top: &PartialFormatterConfiguration,
    ) -> (r: JsonFormatter)
        ensures
            r == Self::resolved_option(*fragment, *top),
    {
        match fragment {
            Some(f) => f.get_formatter_configuration(top),
            None => Self::default().get_formatter_configuration(top),
        }
    }

    /// Overlays `other`, the fragment of higher precedence, on `self`.
    pub fn merge_with(&mut self, other: Self)
        ensures
            *final(self) == old(self).merged(other),
    {
        if other.enabled.is_some() {
            self.enabled = other.enabled;
        }
        if other.indent_style.is_some() {
            self.indent_style = other.indent_style;
        }
        if other.indent_width.is_some() {
            self.indent_width = other.indent_width;
        }
        if other.line_ending.is_some() {
            self.line_ending = other.line_ending;
        }
        if other.line_width.is_some() {
            self.line_width = other.line_width;
        }
    }

    /// Executable form of [`Self::merged_option`].
    pub fn merge_option(earlier: &mut Option<Self>, later: Option<Self>)
        ensures
            *final(earlier) == Self::merged_option(*old(earlier), later),
    {
        if let Some(b) = later {
            match earlier {
                Some(a) => a.merge_with(b),
                None => {
                    *earlier = Some(b);
                },
            }
        }
    }
}

impl Default for PartialJsonFormatter {
    fn default() -> (r: Self)
        ensures
            r == Self::absent(),
    {
        PartialJsonFormatter {
            enabled: None,
            indent_style: None,
            indent_width: None,
            line_ending: None,
            line_width: None,
        }
    }
}

/// The settings for JSON, every field with a value.
#[derive(Clone, Copy, Debug, PartialEq, Eq)]
pub struct JsonConfiguration {
    pub parser: JsonParser,
    pub formatter: JsonFormatter,
}

impl JsonConfiguration {
    /// The built-in settings for JSON.
    pub open spec fn hard_default() -> Self {
        JsonConfiguration {
            parser: JsonParser::hard_default(),
            formatter: JsonFormatter::hard_default(),
        }
    }
}

impl Default for JsonConfiguration {
    fn default() -> (r: Self)
        ensures
            r == Self::hard_default(),
    {
        JsonConfiguration {
            parser: JsonParser::default(),
            formatter: JsonFormatter::default(),
        }
    }
}

/// The settings for JSON as a fragment supplies them: every part may be absent.
#[derive(Clone, Copy, Debug, PartialEq, Eq)]
pub struct PartialJsonConfiguration {
    pub parser: Option<PartialJsonParser>,
    pub formatter: Option<PartialJsonFormatter>,
}

impl PartialJsonConfiguration {
    /// The fragment that sets nothing.
    pub open spec fn absent() -> Self {
        PartialJsonConfiguration {
            parser: None,
            formatter: None,
        }
    }

    /// `self` overlaid with `later`: each part merges with its counterpart.
    pub open spec fn merged(self, later: Self) -> Self {
        PartialJsonConfiguration {
            parser: PartialJsonParser::merged_option(self.parser, later.parser),
            formatter: PartialJsonFormatter::merged_option(self.formatter, later.formatter),
        }
    }

    /// Overlays an optional fragment on another: where both are present they
    /// merge part by part, otherwise the one that is present stays.
    pub open spec fn merged_option(earlier: Option<Self>, later: Option<Self>) -> Option<Self> {
        match (earlier, later) {
            (Some(a), Some(b)) => Some(a.merged(b)),
            (None, Some(b)) => Some(b),
            (_, None) => earlier,
        }
    }

    /// Every part resolved, the formatter part under the top-level formatter
    /// fragment `top`.
    pub open spec fn resolved(self, top: PartialFormatterConfiguration) -> JsonConfiguration {
        JsonConfiguration {
            parser: PartialJsonParser::resolved_option(self.parser),
            formatter: PartialJsonFormatter::resolved_option(self.formatter, top),
        }
    }

    /// What an optional fragment resolves to; an absent fragment resolves as one
    /// that sets nothing.
    pub open spec fn resolved_option(
        fragment: Option<Self>,
        top: PartialFormatterConfiguration,
    ) -> JsonConfiguration {
        match fragment {
            Some(f) => f.resolved(top),
            None => Self::absent().resolved(top),
        }
    }

    /// The full settings for JSON this fragment stands for.
    pub fn get_json_configuration(
        &self,
        top: &PartialFormatterConfiguration,
    ) -> (r: JsonConfiguration)
        ensures
            r == self.resolved(*top),
    {
        JsonConfiguration {
            parser: PartialJsonParser::resolve_option(&self.parser),
            formatter: PartialJsonFormatter::resolve_option(&self.formatter, top),
        }
    }

    /// Executable form of [`Self::resolved_option`].
    pub fn resolve_option(
        fragment: &Option<Self>,
        top: &PartialFormatterConfiguration,
    ) -> (r: JsonConfiguration)
        ensures
            r == Self::resolved_option(*fragment, *top),
    {
        match fragment {
            Some(f) => f.get_json_configuration(top),
            None => Self::default().get_json_configuration(top),
        }
    }

    /// Overlays `other`, the fragment of higher precedence, on `self`.
    pub fn merge_with(&mut self, other: Self)
        ensures
            *final(self) == old(self).merged(other),
    {
        PartialJsonParser::merge_option(&mut self.parser, other.parser);
        PartialJsonFormatter::merge_option(&mut self.formatter, other.formatter);
    }

    /// Executable form of [`Self::merged_option`].
    pub fn merge_option(earlier: &mut Option<Self>, later: Option<Self>)
        ensures
            *final(earlier) == Self::merged_option(*old(earlier), later),
    {
        if let Some(b) = later {
            match earlier {
                Some(a) => a.merge_with(b),
                None => {
                    *earlier = Some(b);
                },
            }
        }
    }
}

impl Default for PartialJsonConfiguration {
    fn default() -> (r: Self)
        ensures
            r == Self::absent(),
    {
        PartialJsonConfiguration {
            parser: None,
            formatter: None,
        }
    }
}

} // verus!
