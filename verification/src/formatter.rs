//! The language-independent formatter settings.

use crate::merge::{later_wins, or_default, resolve_scalar};
use vstd::prelude::*;

verus! {

/// Whether indentation is written with tabs or with spaces.
#[derive(Clone, Copy, Debug, PartialEq, Eq)]
pub enum PlainIndentStyle {
    Tab,
    Space,
}

/// The line terminator the formatter writes.
#[derive(Clone, Copy, Debug, PartialEq, Eq)]
pub enum LineEnding {
    Lf,
    Crlf,
    Cr,
}

/// The quotation mark the formatter prefers for string literals.
#[derive(Clone, Copy, Debug, PartialEq, Eq)]
pub enum QuoteStyle {
    Double,
    Single,
}

/// Columns per indentation level when nothing else is configured.
pub const DEFAULT_INDENT_WIDTH: u8 = 2;

/// Columns per line when nothing else is configured.
pub const DEFAULT_LINE_WIDTH: u16 = 80;

/// The formatter settings, every field with a value.
#[derive(Clone, Copy, Debug, PartialEq, Eq)]
pub struct FormatterConfiguration {
    pub enabled: bool,
    /// Format files that contain syntax errors.
    pub format_with_errors: bool,
    pub indent_style: PlainIndentStyle,
    pub indent_width: u8,
    pub line_ending: LineEnding,
    pub line_width: u16,
}

impl FormatterConfiguration {
    /// The built-in formatter settings.
    pub open spec fn hard_default() -> Self {
        FormatterConfiguration {
            enabled: true,
            format_with_errors: false,
            indent_style: PlainIndentStyle::Tab,
            indent_width: DEFAULT_INDENT_WIDTH,
            line_ending: LineEnding::Lf,
            line_width: DEFAULT_LINE_WIDTH,
        }
    }
}

impl Default for FormatterConfiguration {
    fn default() -> (r: Self)
        ensures
            r == Self::hard_default(),
    {
        FormatterConfiguration {
            enabled: true,
            format_with_errors: false,
            indent_style: PlainIndentStyle::Tab,
            indent_width: DEFAULT_INDENT_WIDTH,
            line_ending: LineEnding::Lf,
            line_width: DEFAULT_LINE_WIDTH,
        }
    }
}

/// The formatter settings as a fragment supplies them: every field may be absent.
#[derive(Clone, Copy, Debug, PartialEq, Eq)]
pub struct PartialFormatterConfiguration {
    pub enabled: Option<bool>,
    /// Format files that contain syntax errors.
    pub format_with_errors: Option<bool>,
    pub indent_style: Option<PlainIndentStyle>,
    pub indent_width: Option<u8>,
    pub line_ending: Option<LineEnding>,
    pub line_width: Option<u16>,
}

impl PartialFormatterConfiguration {
    /// The fragment that sets nothing.
    pub open spec fn absent() -> Self {
        PartialFormatterConfiguration {
            enabled: None,
            format_with_errors: None,
            indent_style: None,
            indent_width: None,
            line_ending: None,
            line_width: None,
        }
    }

    /// `self` overlaid with `later`, field by field.
    pub open spec fn merged(self, later: Self) -> Self {
        PartialFormatterConfiguration {
            enabled: later_wins(self.enabled, later.enabled),
            format_with_errors: later_wins(self.format_with_errors, later.format_with_errors),
            indent_style: later_wins(self.indent_style, later.indent_style),
            indent_width: later_wins(self.indent_width, later.indent_width),
            line_ending: later_wins(self.line_ending, later.line_ending),
            line_width: later_wins(self.line_width, later.line_width),
        }
    }

    /// Overlays an optional fragment on another: where both are present they
    /// merge field by field, otherwise the one that is present stays.
    pub open spec fn merged_option(earlier: Option<Self>, later: Option<Self>) -> Option<Self> {
        match (earlier, later) {
            (Some(a), Some(b)) => Some(a.merged(b)),
            (None, Some(b)) => Some(b),
            (_, None) => earlier,
        }
    }

    /// Every absent field replaced by its built-in default.
    pub open spec fn resolved(self) -> FormatterConfiguration {
        let d = FormatterConfiguration::hard_default();
        FormatterConfiguration {
            enabled: or_default(self.enabled, d.enabled),
            format_with_errors: or_default(self.format_with_errors, d.format_with_errors),
            indent_style: or_default(self.indent_style, d.indent_style),
            indent_width: or_default(self.indent_width, d.indent_width),
            line_ending: or_default(self.line_ending, d.line_ending),
            line_width: or_default(self.line_width, d.line_width),
        }
    }

    /// What an optional fragment resolves to: an absent one gives the built-in
    /// defaults.
    pub open spec fn resolved_option(fragment: Option<Self>) -> FormatterConfiguration {
        match fragment {
            Some(f) => f.resolved(),
            None => FormatterConfiguration::hard_default(),
        }
    }

    /// Of two fragments merged in this order, the later one decides every field
    /// it sets and the earlier one every other. A field that neither sets
    /// resolves to its built-in default.
    pub proof fn law_later_wins(a: Self, b: Self)
        ensures
            b.enabled is Some ==> a.merged(b).enabled == b.enabled,
            b.enabled is None ==> a.merged(b).enabled == a.enabled,
            a.enabled is None && b.enabled is None ==> a.merged(b).resolved().enabled
                == FormatterConfiguration::hard_default().enabled,
            b.format_with_errors is Some ==> a.merged(b).format_with_errors == b.format_with_errors,
            b.format_with_errors is None ==> a.merged(b).format_with_errors == a.format_with_errors,
            a.format_with_errors is None && b.format_with_errors is None
                ==> a.merged(b).resolved().format_with_errors
                == FormatterConfiguration::hard_default().format_with_errors,
            b.indent_style is Some ==> a.merged(b).indent_style == b.indent_style,
            b.indent_style is None ==> a.merged(b).indent_style == a.indent_style,
            a.indent_style is None && b.indent_style is None ==> a.merged(b).resolved().indent_style
                == FormatterConfiguration::hard_default().indent_style,
            b.indent_width is Some ==> a.merged(b).indent_width == b.indent_width,
            b.indent_width is None ==> a.merged(b).indent_width == a.indent_width,
            a.indent_width is None && b.indent_width is None ==> a.merged(b).resolved().indent_width
                == FormatterConfiguration::hard_default().indent_width,
            b.line_ending is Some ==> a.merged(b).line_ending == b.line_ending,
            b.line_ending is None ==> a.merged(b).line_ending == a.line_ending,
            a.line_ending is None && b.line_ending is None ==> a.merged(b).resolved().line_ending
                == FormatterConfiguration::hard_default().line_ending,
            b.line_width is Some ==> a.merged(b).line_width == b.line_width,
            b.line_width is None ==> a.merged(b).line_width == a.line_width,
            a.line_width is None && b.line_width is None ==> a.merged(b).resolved().line_width
                == FormatterConfiguration::hard_default().line_width,
    {
    }

    /// Whether the fragment switches the formatter off in so many words.
    pub fn is_disabled(&self) -> (r: bool)
        ensures
            r == (self.enabled == Some(false)),
    {
        matches!(self.enabled, Some(false))
    }

    /// The full formatter settings this fragment stands for.
    pub fn get_formatter_configuration(&self) -> (r: FormatterConfiguration)
        ensures
            r == self.resolved(),
    {
        let d = FormatterConfiguration::default();
        FormatterConfiguration {
            enabled: resolve_scalar(self.enabled, d.enabled),
            format_with_errors: resolve_scalar(self.format_with_errors, d.format_with_errors),
            indent_style: resolve_scalar(self.indent_style, d.indent_style),
            indent_width: resolve_scalar(self.indent_width, d.indent_width),
            line_ending: resolve_scalar(self.line_ending, d.line_ending),
            line_width: resolve_scalar(self.line_width, d.line_width),
        }
    }

    /// Executable form of [`Self::resolved_option`].
    pub fn resolve_option(fragment: &Option<Self>) -> (r: FormatterConfiguration)
        ensures
            r == Self::resolved_option(*fragment),
    {
        match fragment {
            Some(f) => f.get_formatter_configuration(),
            None => FormatterConfiguration::default(),
        }
    }

    /// Overlays `other`, the fragment of higher precedence, on `self`.
    pub fn merge_with(&mut self, other: Self)
        ensures
            *final(self) == old(self).merged(other),
    {
        if other.enabled.is_some() {
            self.enabled = other.enabled;
        }
        if other.format_with_errors.is_some() {
            self.format_with_errors = other.format_with_errors;
        }
        if other.indent_style.is_some() {
            self.indent_style = other.indent_style;
        }
        if other.indent_width.is_some() {
            self.indent_width = other.indent_width;
        }
        if other.line_ending.is_some() {
            self.line_ending = other.line_ending;
        }
        if other.line_width.is_some() {
            self.line_width = other.line_width;
        }
    }

    /// Executable form of [`Self::merged_option`].
    pub fn merge_option(earlier: &mut Option<Self>, later: Option<Self>)
        ensures
            *final(earlier) == Self::merged_option(*old(earlier), later),
    {
        if let Some(b) = later {
            match earlier {
                Some(a) => a.merge_with(b),
                None => {
                    *earlier = Some(b);
                },
            }
        }
    }
}

impl Default for PartialFormatterConfiguration {
    fn default() -> (r: Self)
        ensures
            r == Self::absent(),
    {
        PartialFormatterConfiguration {
            enabled: None,
            format_with_errors: None,
            indent_style: None,
            indent_width: None,
            line_ending: None,
            line_width: None,
        }
    }
}

} // verus!
