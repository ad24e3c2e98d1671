//! Settings specific to JavaScript and TypeScript sources.

use crate::formatter::{
    LineEnding, PartialFormatterConfiguration, PlainIndentStyle, QuoteStyle, DEFAULT_INDENT_WIDTH,
    DEFAULT_LINE_WIDTH,
};
use crate::merge::{later_wins, or_default, resolve_scalar, resolve_two_level, two_level};
use vstd::prelude::*;

verus! {

/// Where the formatter writes semicolons.
#[derive(Clone, Copy, Debug, PartialEq, Eq)]
pub enum Semicolons {
    Always,
    AsNeeded,
}

/// The formatter settings for JavaScript, every field with a value.
#[derive(Clone, Copy, Debug, PartialEq, Eq)]
pub struct JavascriptFormatter {
    pub enabled: bool,
    pub indent_style: PlainIndentStyle,
    pub indent_width: u8,
    pub line_ending: LineEnding,
    pub line_width: u16,
    /// The quotation mark for string literals.
    pub quote_style: QuoteStyle,
    pub semicolons: Semicolons,
}

impl JavascriptFormatter {
    /// The built-in formatter settings for JavaScript.
    pub open spec fn hard_default() -> Self {
        JavascriptFormatter {
            enabled: true,
            indent_style: PlainIndentStyle::Tab,
            indent_width: DEFAULT_INDENT_WIDTH,
            line_ending: LineEnding::Lf,
            line_width: DEFAULT_LINE_WIDTH,
            quote_style: QuoteStyle::Double,
            semicolons: Semicolons::Always,
        }
    }
}

impl Default for JavascriptFormatter {
    fn default() -> (r: Self)
        ensures
            r == Self::hard_default(),
    {
        JavascriptFormatter {
            enabled: true,
            indent_style: PlainIndentStyle::Tab,
            indent_width: DEFAULT_INDENT_WIDTH,
            line_ending: LineEnding::Lf,
            line_width: DEFAULT_LINE_WIDTH,
            quote_style: QuoteStyle::Double,
            semicolons: Semicolons::Always,
        }
    }
}

/// The formatter settings for JavaScript as a fragment supplies them: every field may be absent.
#[derive(Clone, Copy, Debug, PartialEq, Eq)]
pub struct PartialJavascriptFormatter {
    pub enabled: Option<bool>,
    pub indent_style: Option<PlainIndentStyle>,
    pub indent_width: Option<u8>,
    pub line_ending: Option<LineEnding>,
    pub line_width: Option<u16>,
    /// The quotation mark for string literals.
    pub quote_style: Option<QuoteStyle>,
    pub semicolons: Option<Semicolons>,
}

impl PartialJavascriptFormatter {
    /// The fragment that sets nothing.
    pub open spec fn absent() -> Self {
        PartialJavascriptFormatter {
            enabled: None,
            indent_style: None,
            indent_width: None,
            line_ending: None,
            line_width: None,
            quote_style: None,
            semicolons: None,
        }
    }

    /// `self` overlaid with `later`, field by field.
    pub open spec fn merged(self, later: Self) -> Self {
        PartialJavascriptFormatter {
            enabled: later_wins(self.enabled, later.enabled),
            indent_style: later_wins(self.indent_style, later.indent_style),
            indent_width: later_wins(self.indent_width, later.indent_width),
            line_ending: later_wins(self.line_ending, later.line_ending),
            line_width: later_wins(self.line_width, later.line_width),
            quote_style: later_wins(self.quote_style, later.quote_style),
            semicolons: later_wins(self.semicolons, later.semicolons),
        }
    }

    /// Overlays an optional fragment on another: where both are present they
    /// merge field by field, otherwise the one that is present stays.
    pub open spec fn merged_option(earlier: Option<Self>, later: Option<Self>) -> Option<Self> {
        match (earlier, later) {
            (Some(a), Some(b)) => Some(a.merged(b)),
            (None, Some(b)) => Some(b),
            (_, None) => earlier,
        }
    }

    /// Every field given a value: a shared field takes the fragment's own value,
    /// else the value of the top-level formatter fragment `top`, else the
    /// built-in default; the other fields take their own value or the default.
    pub open spec fn resolved(self, top: PartialFormatterConfiguration) -> JavascriptFormatter {
        let d = JavascriptFormatter::hard_default();
        JavascriptFormatter {
            enabled: two_level(self.enabled, top.enabled, d.enabled),
            indent_style: two_level(self.indent_style, top.indent_style, d.indent_style),
            indent_width: two_level(self.indent_width, top.indent_width, d.indent_width),
            line_ending: two_level(self.line_ending, top.line_ending, d.line_ending),
            line_width: two_level(self.line_width, top.line_width, d.line_width),
            quote_style: or_default(self.quote_style, d.quote_style),
            semicolons: or_default(self.semicolons, d.semicolons),
        }
    }

    /// What an optional fragment resolves to under the top-level formatter
    /// fragment `top`; an absent fragment resolves as one that sets nothing.
    pub open spec fn resolved_option(
        fragment: Option<Self>,
        top: PartialFormatterConfiguration,
    ) -> JavascriptFormatter {
        match fragment {
            Some(f) => f.resolved(top),
            None => Self::absent().resolved(top),
        }
    }

    /// Of two fragments merged in this order, the later one decides every field
    /// it sets and the earlier one every other. A field that neither sets
    /// resolves to the value of the top-level formatter fragment `top` where it
    /// is a shared field that `top` sets, and to its built-in default otherwise.
    pub proof fn law_later_wins(a: Self, b: Self, top: PartialFormatterConfiguration)
        ensures
            b.enabled is Some ==> a.merged(b).enabled == b.enabled,
            b.enabled is None ==> a.merged(b).enabled == a.enabled,
            a.enabled is None && b.enabled is None
                ==> a.merged(b).resolved(top).enabled == or_default(
                top.enabled,
                JavascriptFormatter::hard_default().enabled,
            ),
            b.indent_style is Some ==> a.merged(b).indent_style == b.indent_style,
            b.indent_style is None ==> a.merged(b).indent_style == a.indent_style,
            a.indent_style is None && b.indent_style is None
                ==> a.merged(b).resolved(top).indent_style == or_default(
                top.indent_style,
                JavascriptFormatter::hard_default().indent_style,
            ),
            b.indent_width is Some ==> a.merged(b).indent_width == b.indent_width,
            b.indent_width is None ==> a.merged(b).indent_width == a.indent_width,
            a.indent_width is None && b.indent_width is None
                ==> a.merged(b).resolved(top).indent_width == or_default(
                top.indent_width,
                JavascriptFormatter::hard_default().indent_width,
            ),
            b.line_ending is Some ==> a.merged(b).line_ending == b.line_ending,
            b.line_ending is None ==> a.merged(b).line_ending == a.line_ending,
            a.line_ending is None && b.line_ending is None
                ==> a.merged(b).resolved(top).line_ending == or_default(
                top.line_ending,
                JavascriptFormatter::hard_default().line_ending,
            ),
            b.line_width is Some ==> a.merged(b).line_width == b.line_width,
            b.line_width is None ==> a.merged(b).line_width == a.line_width,
            a.line_width is None && b.line_width is None
                ==> a.merged(b).resolved(top).line_width == or_default(
                top.line_width,
                JavascriptFormatter::hard_default().line_width,
            ),
            b.quote_style is Some ==> a.merged(b).quote_style == b.quote_style,
            b.quote_style is None ==> a.merged(b).quote_style == a.quote_style,
            a.quote_style is None && b.quote_style is None ==> a.merged(b).resolved(top).quote_style
                == JavascriptFormatter::hard_default().quote_style,
            b.semicolons is Some ==> a.merged(b).semicolons == b.semicolons,
            b.semicolons is None ==> a.merged(b).semicolons == a.semicolons,
            a.semicolons is None && b.semicolons is None ==> a.merged(b).resolved(top).semicolons
                == JavascriptFormatter::hard_default().semicolons,
    {
    }

    /// The full formatter settings for JavaScript this fragment stands for.
    pub fn get_formatter_configuration(
        &self,
        top: &PartialFormatterConfiguration,
    ) -> (r: JavascriptFormatter)
        ensures
            r == self.resolved(*top),
    {
        let d = JavascriptFormatter::default();
        JavascriptFormatter {
            enabled: resolve_two_level(self.enabled, top.enabled, d.enabled),
            indent_style: resolve_two_level(self.indent_style, top.indent_style, d.indent_style),
            indent_width: resolve_two_level(self.indent_width, top.indent_width, d.indent_width),
            line_ending: resolve_two_level(self.line_ending, top.line_ending, d.line_ending),
            line_width: resolve_two_level(self.line_width, top.line_width, d.line_width),
            quote_style: resolve_scalar(self.quote_style, d.quote_style),
            semicolons: resolve_scalar(self.semicolons, d.semicolons),
        }
    }

    /// Executable form of [`Self::resolved_option`].
    pub fn resolve_option(
        fragment: &Option<Self>,
        top: &PartialFormatterConfiguration,
    ) -> (r: JavascriptFormatter)
        ensures
            r == Self::resolved_option(*fragment, *top),
    {
        match fragment {
            Some(f) => f.get_formatter_configuration(top),
            None => Self::default().get_formatter_configuration(top),
        }
    }

    /// Overlays `other`, the fragment of higher precedence, on `self`.
    pub fn merge_with(&mut self, other: Self)
        ensures
            *final(self) == old(self).merged(other),
    {
        if other.enabled.is_some() {
            self.enabled = other.enabled;
        }
        if other.indent_style.is_some() {
            self.indent_style = other.indent_style;
        }
        if other.indent_width.is_some() {
            self.indent_width = other.indent_width;
        }
        if other.line_ending.is_some() {
            self.line_ending = other.line_ending;
        }
        if other.line_width.is_some() {
            self.line_width = other.line_width;
        }
        if other.quote_style.is_some() {
            self.quote_style = other.quote_style;
        }
        if other.semicolons.is_some() {
            self.semicolons = other.semicolons;
        }
    }

    /// Executable form of [`Self::merged_option`].
    pub fn merge_option(earlier: &mut Option<Self>, later: Option<Self>)
        ensures
            *final(earlier) == Self::merged_option(*old(earlier), later),
    {
        if let Some(b) = later {
            match earlier {
                Some(a) => a.merge_with(b),
                None => {
                    *earlier = Some(b);
                },
            }
        }
    }
}

impl Default for PartialJavascriptFormatter {
    fn default() -> (r: Self)
        ensures
            r == Self::absent(),
    {
        PartialJavascriptFormatter {
            enabled: None,
            indent_style: None,
            indent_width: None,
            line_ending: None,
            line_width: None,
            quote_style: None,
            semicolons: None,
        }
    }
}

/// The settings for JavaScript, every field with a value.
#[derive(Clone, Copy, Debug, PartialEq, Eq)]
pub struct JavascriptConfiguration {
    pub formatter: JavascriptFormatter,
}

impl JavascriptConfiguration {
    /// The built-in settings for JavaScript.
    pub open spec fn hard_default() -> Self {
        JavascriptConfiguration {
            formatter: JavascriptFormatter::hard_default(),
        }
    }
}

impl Default for JavascriptConfiguration {
    fn default() -> (r: Self)
        ensures
            r == Self::hard_default(),
    {
        JavascriptConfiguration {
            formatter: JavascriptFormatter::default(),
        }
    }
}

/// The settings for JavaScript as a fragment supplies them: every part may be absent.
#[derive(Clone, Copy, Debug, PartialEq, Eq)]
pub struct PartialJavascriptConfiguration {
    pub formatter: Option<PartialJavascriptFormatter>,
}

impl PartialJavascriptConfiguration {
    /// The fragment that sets nothing.
    pub open spec fn absent() -> Self {
        PartialJavascriptConfiguration {
            formatter: None,
        }
    }

    /// `self` overlaid with `later`: each part merges with its counterpart.
    pub open spec fn merged(self, later: Self) -> Self {
        PartialJavascriptConfiguration {
            formatter: PartialJavascriptFormatter::merged_option(self.formatter, later.formatter),
        }
    }

    /// Overlays an optional fragment on another: where both are present they
    /// merge part by part, otherwise the one that is present stays.
    pub open spec fn merged_option(earlier: Option<Self>, later: Option<Self>) -> Option<Self> {
        match (earlier, later) {
            (Some(a), Some(b)) => Some(a.merged(b)),
            (None, Some(b)) => Some(b),
            (_, None) => earlier,
        }
    }

    /// Every part resolved, the formatter part under the top-level formatter
    /// fragment `top`.
    pub open spec fn resolved(self, top: PartialFormatterConfiguration) -> JavascriptConfiguration {
        JavascriptConfiguration {
            formatter: PartialJavascriptFormatter::resolved_option(self.formatter, top),
        }
    }

    /// What an optional fragment resolves to; an absent fragment resolves as one
    /// that sets nothing.
    pub open spec fn resolved_option(
        fragment: Option<Self>,
        top: PartialFormatterConfiguration,
    ) -> JavascriptConfiguration {
        match fragment {
            Some(f) => f.resolved(top),
            None => Self::absent().resolved(top),
        }
    }

    /// The full settings for JavaScript this fragment stands for.
    pub fn get_javascript_configuration(
        &self,
        top: &PartialFormatterConfiguration,
    ) -> (r: JavascriptConfiguration)
        ensures
            r == self.resolved(*top),
    {
        JavascriptConfiguration {
            formatter: PartialJavascriptFormatter::resolve_option(&self.formatter, top),
        }
    }

    /// Executable form of [`Self::resolved_option`].
    pub fn resolve_option(
        fragment: &Option<Self>,
        top: &PartialFormatterConfiguration,
    ) -> (r: JavascriptConfiguration)
        ensures
            r == Self::resolved_option(*fragment, *top),
    {
        match fragment {
            Some(f) => f.get_javascript_configuration(top),
            None => Self::default().get_javascript_configuration(top),
        }
    }

    /// Overlays `other`, the fragment of higher precedence, on `self`.
    pub fn merge_with(&mut self, other: Self)
        ensures
            *final(self) == old(self).merged(other),
    {
        PartialJavascriptFormatter::merge_option(&mut self.formatter, other.formatter);
    }

    /// Executable form of [`Self::merged_option`].
    pub fn merge_option(earlier: &mut Option<Self>, later: Option<Self>)
        ensures
            *final(earlier) == Self::merged_option(*old(earlier), later),
    {
        if let Some(b) = later {
            match earlier {
                Some(a) => a.merge_with(b),
                None => {
                    *earlier = Some(b);
                },
            }
        }
    }
}

impl Default for PartialJavascriptConfiguration {
    fn default() -> (r: Self)
        ensures
            r == Self::absent(),
    {
        PartialJavascriptConfiguration {
            formatter: None,
        }
    }
}

} // verus!
