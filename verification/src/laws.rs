//! What holds of merging and resolving whole fragments, whatever they hold.

use crate::formatter::PartialFormatterConfiguration;
use crate::merge::later_wins;
use crate::{ConfigurationView, PartialConfigurationView};
use vstd::prelude::*;

verus! {

/// Resolving the fragment that sets nothing gives the built-in
/// configuration.
pub proof fn law_absent_resolves_to_default()
    ensures
        PartialConfigurationView::absent().resolved() == ConfigurationView::hard_default(),
{
    assert(PartialConfigurationView::absent().resolved() =~~= ConfigurationView::hard_default());
}

/// The fragment written for a new project resolves to a configuration with
/// the import sorter on, the linter on and the recommended rules on; in every
/// other field it is the built-in configuration.
pub proof fn law_initial_resolved()
    ensures
        ({
            let c = PartialConfigurationView::initial().resolved();
            let d = ConfigurationView::hard_default();
            &&& c.organize_imports.enabled
            &&& c.linter.enabled
            &&& c.linter.rules.recommended
            &&& !c.linter.rules.all
            &&& c.linter.rules.table == d.linter.rules.table
            &&& c.schema == d.schema
            &&& c.vcs == d.vcs
            &&& c.files == d.files
            &&& c.formatter == d.formatter
            &&& c.javascript == d.javascript
            &&& c.json == d.json
            &&& c.css == d.css
            &&& c.extends == d.extends
            &&& c.overrides == d.overrides
        }),
{
    let c = PartialConfigurationView::initial().resolved();
    let d = ConfigurationView::hard_default();
    assert(c.files =~= d.files);
}

/// A fragment that does not set the file size limit resolves to a limit of
/// 1 048 576 bytes.
pub proof fn law_default_file_size(fragment: PartialConfigurationView)
    requires
        fragment.files_part().max_size is None,
    ensures
        fragment.resolved().files.max_size == 1_048_576,
{
}

/// For two fragments merged in the order `[a, b]`: every top-level scalar and
/// list that `b` sets is that of `b`, every other is that of `a`, and one
/// that neither sets resolves to its built-in default.
pub proof fn law_later_fragment_wins(a: PartialConfigurationView, b: PartialConfigurationView)
    ensures
        ({
            let m = PartialConfigurationView::merged_all(seq![a, b]);
            let r = m.resolved();
            let d = ConfigurationView::hard_default();
            &&& m == a.merged(b)
            &&& m.schema == later_wins(a.schema, b.schema)
            &&& m.extends == later_wins(a.extends, b.extends)
            &&& m.overrides == later_wins(a.overrides, b.overrides)
            &&& a.schema is None && b.schema is None ==> r.schema == d.schema
            &&& a.extends is None && b.extends is None ==> r.extends == d.extends
            &&& a.overrides is None && b.overrides is None ==> r.overrides == d.overrides
        }),
{
    lemma_merged_pair(a, b);
}

/// For two fragments merged in the order `[a, b]`, every aggregate is the
/// merge of its two counterparts, an absent one counting as one that sets
/// nothing. What that means field by field is the `law_later_wins` of the
/// aggregate: the field of `b` where `b` sets it, that of `a` otherwise.
pub proof fn law_later_fragment_wins_in_parts(
    a: PartialConfigurationView,
    b: PartialConfigurationView,
)
    ensures
        ({
            let m = PartialConfigurationView::merged_all(seq![a, b]);
            &&& m.vcs_part() == a.vcs_part().merged(b.vcs_part())
            &&& m.files_part() == a.files_part().merged(b.files_part())
            &&& m.top_formatter() == a.top_formatter().merged(b.top_formatter())
            &&& m.organize_imports_part() == a.organize_imports_part().merged(
                b.organize_imports_part(),
            )
            &&& m.linter_part() == a.linter_part().merged(b.linter_part())
            &&& m.rules_part() == a.rules_part().merged(b.rules_part())
            &&& m.javascript_formatter() == a.javascript_formatter().merged(
                b.javascript_formatter(),
            )
            &&& m.json_parser() == a.json_parser().merged(b.json_parser())
            &&& m.json_formatter() == a.json_formatter().merged(b.json_formatter())
            &&& m.css_formatter() == a.css_formatter().merged(b.css_formatter())
        }),
{
    lemma_merged_pair(a, b);
    let m = a.merged(b);
    assert(m.files_part() == a.files_part().merged(b.files_part())) by {
        assert(m.files_part() =~= a.files_part().merged(b.files_part()));
    }
    assert(m.linter_part() == a.linter_part().merged(b.linter_part())) by {
        assert(m.linter_part() =~~= a.linter_part().merged(b.linter_part()));
    }
    assert(m.rules_part() == a.rules_part().merged(b.rules_part())) by {
        assert(m.rules_part() =~~= a.rules_part().merged(b.rules_part()));
    }
    assert(m.vcs_part() == a.vcs_part().merged(b.vcs_part()));
    assert(m.top_formatter() == a.top_formatter().merged(b.top_formatter()));
    assert(m.organize_imports_part() == a.organize_imports_part().merged(
        b.organize_imports_part(),
    ));
    assert(m.javascript_formatter() == a.javascript_formatter().merged(b.javascript_formatter()));
    assert(m.json_parser() == a.json_parser().merged(b.json_parser()));
    assert(m.json_formatter() == a.json_formatter().merged(b.json_formatter()));
    assert(m.css_formatter() == a.css_formatter().merged(b.css_formatter()));
}

/// Every aggregate of a fragment resolves as the aggregate alone does, an
/// absent one as one that sets nothing; the formatter of a language resolves
/// under the fragment's top-level formatter part.
pub proof fn law_resolved_in_parts(m: PartialConfigurationView)
    ensures
        ({
            let r = m.resolved();
            &&& r.vcs == m.vcs_part().resolved()
            &&& r.files == m.files_part().resolved()
            &&& r.formatter == m.top_formatter().resolved()
            &&& r.organize_imports == m.organize_imports_part().resolved()
            &&& r.linter == m.linter_part().resolved()
            &&& r.linter.rules == m.rules_part().resolved()
            &&& r.javascript.formatter == m.javascript_formatter().resolved(m.top_formatter())
            &&& r.json.parser == m.json_parser().resolved()
            &&& r.json.formatter == m.json_formatter().resolved(m.top_formatter())
            &&& r.css.formatter == m.css_formatter().resolved(m.top_formatter())
        }),
{
    assert(m.resolved().files == m.files_part().resolved()) by {
        assert(m.resolved().files =~= m.files_part().resolved());
    }
    assert(m.resolved().linter == m.linter_part().resolved()) by {
        assert(m.resolved().linter =~~= m.linter_part().resolved());
    }
    assert(m.resolved().linter.rules == m.rules_part().resolved()) by {
        assert(m.resolved().linter.rules =~~= m.rules_part().resolved());
    }
}

/// A shared field that the formatter part of a language leaves out resolves
/// to what the same field of the top-level formatter resolves to: the language
/// inherits from the top level before it falls back on the built-in default.
pub proof fn law_language_formatter_inherits(m: PartialConfigurationView)
    ensures
        ({
            let r = m.resolved();
            let js = m.javascript_formatter();
            let json = m.json_formatter();
            let css = m.css_formatter();
            &&& js.enabled is None ==> r.javascript.formatter.enabled == r.formatter.enabled
            &&& js.indent_style is None ==> r.javascript.formatter.indent_style
                == r.formatter.indent_style
            &&& js.indent_width is None ==> r.javascript.formatter.indent_width
                == r.formatter.indent_width
            &&& js.line_ending is None ==> r.javascript.formatter.line_ending
                == r.formatter.line_ending
            &&& js.line_width is None ==> r.javascript.formatter.line_width
                == r.formatter.line_width
            &&& json.enabled is None ==> r.json.formatter.enabled == r.formatter.enabled
            &&& json.indent_style is None ==> r.json.formatter.indent_style
                == r.formatter.indent_style
            &&& json.indent_width is None ==> r.json.formatter.indent_width
                == r.formatter.indent_width
            &&& json.line_ending is None ==> r.json.formatter.line_ending
                == r.formatter.line_ending
            &&& json.line_width is None ==> r.json.formatter.line_width == r.formatter.line_width
            &&& css.enabled is None ==> r.css.formatter.enabled == r.formatter.enabled
            &&& css.indent_style is None ==> r.css.formatter.indent_style
                == r.formatter.indent_style
            &&& css.indent_width is None ==> r.css.formatter.indent_width
                == r.formatter.indent_width
            &&& css.line_ending is None ==> r.css.formatter.line_ending == r.formatter.line_ending
            &&& css.line_width is None ==> r.css.formatter.line_width == r.formatter.line_width
        }),
{
}

/// A field that the formatter part of a language sets resolves to that
/// value, whatever the top-level formatter says.
pub proof fn law_language_formatter_decides(m: PartialConfigurationView)
    ensures
        ({
            let r = m.resolved();
            let js = m.javascript_formatter();
            let json = m.json_formatter();
            let css = m.css_formatter();
            &&& js.enabled matches Some(v) ==> r.javascript.formatter.enabled == v
            &&& js.indent_style matches Some(v) ==> r.javascript.formatter.indent_style == v
            &&& js.indent_width matches Some(v) ==> r.javascript.formatter.indent_width == v
            &&& js.line_ending matches Some(v) ==> r.javascript.formatter.line_ending == v
            &&& js.line_width matches Some(v) ==> r.javascript.formatter.line_width == v
            &&& js.quote_style matches Some(v) ==> r.javascript.formatter.quote_style == v
            &&& js.semicolons matches Some(v) ==> r.javascript.formatter.semicolons == v
            &&& json.enabled matches Some(v) ==> r.json.formatter.enabled == v
            &&& json.indent_style matches Some(v) ==> r.json.formatter.indent_style == v
            &&& json.indent_width matches Some(v) ==> r.json.formatter.indent_width == v
            &&& json.line_ending matches Some(v) ==> r.json.formatter.line_ending == v
            &&& json.line_width matches Some(v) ==> r.json.formatter.line_width == v
            &&& css.enabled matches Some(v) ==> r.css.formatter.enabled == v
            &&& css.indent_style matches Some(v) ==> r.css.formatter.indent_style == v
            &&& css.indent_width matches Some(v) ==> r.css.formatter.indent_width == v
            &&& css.line_ending matches Some(v) ==> r.css.formatter.line_ending == v
            &&& css.line_width matches Some(v) ==> r.css.formatter.line_width == v
            &&& css.quote_style matches Some(v) ==> r.css.formatter.quote_style == v
        }),
{
}

/// Folding two fragments is merging the second onto the first.
pub proof fn lemma_merged_pair(a: PartialConfigurationView, b: PartialConfigurationView)
    ensures
        PartialConfigurationView::merged_all(seq![a, b]) == a.merged(b),
{
    let ab = seq![a, b];
    assert(ab.drop_last() =~= seq![a]);
    assert(seq![a].drop_last() =~= Seq::<PartialConfigurationView>::empty());
    assert(ab.last() == b);
    assert(seq![a].last() == a);
    lemma_absent_is_neutral(a);
    assert(PartialConfigurationView::merged_all(Seq::<PartialConfigurationView>::empty())
        == PartialConfigurationView::absent());
    assert(PartialConfigurationView::merged_all(seq![a])
        == PartialConfigurationView::absent().merged(a));
}

/// The fragment that sets nothing changes nothing, merged before a fragment
/// or after it.
pub proof fn lemma_absent_is_neutral(a: PartialConfigurationView)
    ensures
        PartialConfigurationView::absent().merged(a) == a,
        a.merged(PartialConfigurationView::absent()) == a,
{
    assert(PartialConfigurationView::absent().merged(a) =~~= a);
    assert(a.merged(PartialConfigurationView::absent()) =~~= a);
}

} // verus!
