//! Settings specific to CSS sources.

use crate::formatter::{
    LineEnding, PartialFormatterConfiguration, PlainIndentStyle, QuoteStyle, DEFAULT_INDENT_WIDTH,
    DEFAULT_LINE_WIDTH,
};
use crate::merge::{later_wins, or_default, resolve_scalar, resolve_two_level, two_level};
use vstd::prelude::*;

verus! {

/// The formatter settings for CSS, every field with a value.
#[derive(Clone, Copy, Debug, PartialEq, Eq)]
pub struct CssFormatter {
    pub enabled: bool,
    pub indent_style: PlainIndentStyle,
    pub indent_width: u8,
    pub line_ending: LineEnding,
    pub line_width: u16,
    /// The quotation mark for string literals.
    pub quote_style: QuoteStyle,
}

impl CssFormatter {
    /// The built-in formatter settings for CSS.
    pub open spec fn hard_default() -> Self {
        CssFormatter {
            enabled: true,
            indent_style: PlainIndentStyle::Tab,
            indent_width: DEFAULT_INDENT_WIDTH,
            line_ending: LineEnding::Lf,
            line_width: DEFAULT_LINE_WIDTH,
            quote_style: QuoteStyle::Double,
        }
    }
}

impl Default for CssFormatter {
    fn default() -> (r: Self)
        ensures
            r == Self::hard_default(),
    {
        CssFormatter {
            enabled: true,
            indent_style: PlainIndentStyle::Tab,
            indent_width: DEFAULT_INDENT_WIDTH,
            line_ending: LineEnding::Lf,
            line_width: DEFAULT_LINE_WIDTH,
            quote_style: QuoteStyle::Double,
        }
    }
}

/// The formatter settings for CSS as a fragment supplies them: every field may be absent.
#[derive(Clone, Copy, Debug, PartialEq, Eq)]
pub struct PartialCssFormatter {
    pub enabled: Option<bool>,
    pub indent_style: Option<PlainIndentStyle>,
    pub indent_width: Option<u8>,
    pub line_ending: Option<LineEnding>,
    pub line_width: Option<u16>,
    /// The quotation mark for string literals.
    pub quote_style: Option<QuoteStyle>,
}

impl PartialCssFormatter {
    /// The fragment that sets nothing.
    pub open spec fn absent() -> Self {
        PartialCssFormatter {
            enabled: None,
            indent_style: None,
            indent_width: None,
            line_ending: None,
            line_width: None,
            quote_style: None,
        }
    }

    /// `self` overlaid with `later`, field by field.
    pub open spec fn merged(self, later: Self) -> Self {
        PartialCssFormatter {
            enabled: later_wins(self.enabled, later.enabled),
            indent_style: later_wins(self.indent_style, later.indent_style),
            indent_width: later_wins(self.indent_width, later.indent_width),
            line_ending: later_wins(self.line_ending, later.line_ending),
            line_width: later_wins(self.line_width, later.line_width),
            quote_style: later_wins(self.quote_style, later.quote_style),
        }
    }

    /// Overlays an optional fragment on another: where both are present they
    /// merge field by field, otherwise the one that is present stays.
    pub open spec fn merged_option(earlier: Option<Self>, later: Option<Self>) -> Option<Self> {
        match (earlier, later) {
            (Some(a), Some(b)) => Some(a.merged(b)),
            (None, Some(b)) => Some(b),
            (_, None) => earlier,
        }
    }

    /// Every field given a value: a shared field takes the fragment's own value,
    /// else the value of the top-level formatter fragment `top`, else the
    /// built-in default; the other fields take their own value or the default.
    pub open spec fn resolved(self, top: PartialFormatterConfiguration) -> CssFormatter {
        let d = CssFormatter::hard_default();
        CssFormatter {
            enabled: two_level(self.enabled, top.enabled, d.enabled),
            indent_style: two_level(self.indent_style, top.indent_style, d.indent_style),
            indent_width: two_level(self.indent_width, top.indent_width, d.indent_width),
            line_ending: two_level(self.line_ending, top.line_ending, d.line_ending),
            line_width: two_level(self.line_width, top.line_width, d.line_width),
            quote_style: or_default(self.quote_style, d.quote_style),
        }
    }

    /// What an optional fragment resolves to under the top-level formatter
    /// fragment `top`; an absent fragment resolves as one that sets nothing.
    pub open spec fn resolved_option(
        fragment: Option<Self>,
        top: PartialFormatterConfiguration,
    ) -> CssFormatter {
        match fragment {
            Some(f) => f.resolved(top),
            None => Self::absent().resolved(top),
        }
    }

    /// Of two fragments merged in this order, the later one decides every field
    /// it sets and the earlier one every other. A field that neither sets
    /// resolves to the value of the top-level formatter fragment `top` where it
    /// is a shared field that `top` sets, and to its built-in default otherwise.
    pub proof fn law_later_wins(a: Self, b: Self, top: PartialFormatterConfiguration)
        ensures
            b.enabled is Some ==> a.merged(b).enabled == b.enabled,
            b.enabled is None ==> a.merged(b).enabled == a.enabled,
            a.enabled is None && b.enabled is None
                ==> a.merged(b).resolved(top).enabled == or_default(
                top.enabled,
                CssFormatter::hard_default().enabled,
            ),
            b.indent_style is Some ==> a.merged(b).indent_style == b.indent_style,
            b.indent_style is None ==> a.merged(b).indent_style == a.indent_style,
            a.indent_style is None && b.indent_style is None
                ==> a.merged(b).resolved(top).indent_style == or_default(
                top.indent_style,
                CssFormatter::hard_default().indent_style,
            ),
            b.indent_width is Some ==> a.merged(b).indent_width == b.indent_width,
            b.indent_width is None ==> a.merged(b).indent_width == a.indent_width,
            a.indent_width is None && b.indent_width is None
                ==> a.merged(b).resolved(top).indent_width == or_default(
                top.indent_width,
                CssFormatter::hard_default().indent_width,
            ),
            b.line_ending is Some ==> a.merged(b).line_ending == b.line_ending,
            b.line_ending is None ==> a.merged(b).line_ending == a.line_ending,
            a.line_ending is None && b.line_ending is None
                ==> a.merged(b).resolved(top).line_ending == or_default(
                top.line_ending,
                CssFormatter::hard_default().line_ending,
            ),
            b.line_width is Some ==> a.merged(b).line_width == b.line_width,
            b.line_width is None ==> a.merged(b).line_width == a.line_width,
            a.line_width is None && b.line_width is None
                ==> a.merged(b).resolved(top).line_width == or_default(
                top.line_width,
                CssFormatter::hard_default().line_width,
            ),
            b.quote_style is Some ==> a.merged(b).quote_style == b.quote_style,
            b.quote_style is None ==> a.merged(b).quote_style == a.quote_style,
            a.quote_style is None && b.quote_style is None ==> a.merged(b).resolved(top).quote_style
                == CssFormatter::hard_default().quote_style,
    {
    }

    /// The full formatter settings for CSS this fragment stands for.
    pub fn get_formatter_configuration(
        &self,
        top: &PartialFormatterConfiguration,
    ) -> (r: CssFormatter)
        ensures
            r == self.resolved(*top),
    {
        let d = CssFormatter::default();
        CssFormatter {
            enabled: resolve_two_level(self.enabled, top.enabled, d.enabled),
            indent_style: resolve_two_level(self.indent_style, top.indent_style, d.indent_style),
            indent_width: resolve_two_level(self.indent_width, top.indent_width, d.indent_width),
            line_ending: resolve_two_level(self.line_ending, top.line_ending, d.line_ending),
            line_width: resolve_two_level(self.line_width, top.line_width, d.line_width),
            quote_style: resolve_scalar(self.quote_style, d.quote_style),
        }
    }

    /// Executable form of [`Self::resolved_option`].
    pub fn resolve_option(
        fragment: &Option<Self>,
        top: &PartialFormatterConfiguration,
    ) -> (r: CssFormatter)
        ensures
            r == Self::resolved_option(*fragment, *top),
    {
        match fragment {
            Some(f) => f.get_formatter_configuration(top),
            None => Self::default().get_formatter_configuration(top),
        }
    }

    /// Overlays `other`, the fragment of higher precedence, on `self`.
    pub fn merge_with(&mut self, other: Self)
        ensures
            *final(self) == old(self).merged(other),
    {
        if other.enabled.is_some() {
            self.enabled = other.enabled;
        }
        if other.indent_style.is_some() {
            self.indent_style = other.indent_style;
        }
        if other.indent_width.is_some() {
            self.indent_width = other.indent_width;
        }
        if other.line_ending.is_some() {
            self.line_ending = other.line_ending;
        }
        if other.line_width.is_some() {
            self.line_width = other.line_width;
        }
        if other.quote_style.is_some() {
            self.quote_style = other.quote_style;
        }
    }

    /// Executable form of [`Self::merged_option`].
    pub fn merge_option(earlier: &mut Option<Self>, later: Option<Self>)
        ensures
            *final(earlier) == Self::merged_option(*old(earlier), later),
    {
        if let Some(b) = later {
            match earlier {
                Some(a) => a.merge_with(b),
                None => {
                    *earlier = Some(b);
                },
            }
        }
    }
}

impl Default for PartialCssFormatter {
    fn default() -> (r: Self)
        ensures
            r == Self::absent(),
    {
        PartialCssFormatter {
            enabled: None,
            indent_style: None,
            indent_width: None,
            line_ending: None,
            line_width: None,
            quote_style: None,
        }
    }
}

/// The settings for CSS, every field with a value.
#[derive(Clone, Copy, Debug, PartialEq, Eq)]
pub struct CssConfiguration {
    pub formatter: CssFormatter,
}

impl CssConfiguration {
    /// The built-in settings for CSS.
    pub open spec fn hard_default() -> Self {
        CssConfiguration {
            formatter: CssFormatter::hard_default(),
        }
    }
}

impl Default for CssConfiguration {
    fn default() -> (r: Self)
        ensures
            r == Self::hard_default(),
    {
        CssConfiguration {
            formatter: CssFormatter::default(),
        }
    }
}

/// The settings for CSS as a fragment supplies them: every part may be absent.
#[derive(Clone, Copy, Debug, PartialEq, Eq)]
pub struct PartialCssConfiguration {
    pub formatter: Option<PartialCssFormatter>,
}

impl PartialCssConfiguration {
    /// The fragment that sets nothing.
    pub open spec fn absent() -> Self {
        PartialCssConfiguration {
            formatter: None,
        }
    }

    /// `self` overlaid with `later`: each part merges with its counterpart.
    pub open spec fn merged(self, later: Self) -> Self {
        PartialCssConfiguration {
            formatter: PartialCssFormatter::merged_option(self.formatter, later.formatter),
        }
    }

    /// Overlays an optional fragment on another: where both are present they
    /// merge part by part, otherwise the one that is present stays.
    pub open spec fn merged_option(earlier: Option<Self>, later: Option<Self>) -> Option<Self> {
        match (earlier, later) {
            (Some(a), Some(b)) => Some(a.merged(b)),
            (None, Some(b)) => Some(b),
            (_, None) => earlier,
        }
    }

    /// Every part resolved, the formatter part under the top-level formatter
    /// fragment `top`.
    pub open spec fn resolved(self, top: PartialFormatterConfiguration) -> CssConfiguration {
        CssConfiguration {
            formatter: PartialCssFormatter::resolved_option(self.formatter, top),
        }
    }

    /// What an optional fragment resolves to; an absent fragment resolves as one
    /// that sets nothing.
    pub open spec fn resolved_option(
        fragment: Option<Self>,
        top: PartialFormatterConfiguration,
    ) -> CssConfiguration {
        match fragment {
            Some(f) => f.resolved(top),
            None => Self::absent().resolved(top),
        }
    }

    /// The full settings for CSS this fragment stands for.
    pub fn get_css_configuration(
        &self,
        top: &PartialFormatterConfiguration,
    ) -> (r: CssConfiguration)
        ensures
            r == self.resolved(*top),
    {
        CssConfiguration {
            formatter: PartialCssFormatter::resolve_option(&self.formatter, top),
        }
    }

    /// Executable form of [`Self::resolved_option`].
    pub fn resolve_option(
        fragment: &Option<Self>,
        top: &PartialFormatterConfiguration,
    ) -> (r: CssConfiguration)
        ensures
            r == Self::resolved_option(*fragment, *top),
    {
        match fragment {
            Some(f) => f.get_css_configuration(top),
            None => Self::default().get_css_configuration(top),
        }
    }

    /// Overlays `other`, the fragment of higher precedence, on `self`.
    pub fn merge_with(&mut self, other: Self)
        ensures
            *final(self) == old(self).merged(other),
    {
        PartialCssFormatter::merge_option(&mut self.formatter, other.formatter);
    }

    /// Executable form of [`Self::merged_option`].
    pub fn merge_option(earlier: &mut Option<Self>, later: Option<Self>)
        ensures
            *final(earlier) == Self::merged_option(*old(earlier), later),
    {
        if let Some(b) = later {
            match earlier {
                Some(a) => a.merge_with(b),
                None => {
                    *earlier = Some(b);
                },
            }
        }
    }
}

impl Default for PartialCssConfiguration {
    fn default() -> (r: Self)
        ensures
            r == Self::absent(),
    {
        PartialCssConfiguration {
            formatter: None,
        }
    }
}

} // verus!
