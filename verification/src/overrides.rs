//! Settings that hold only for the files that match a set of patterns.

use crate::formatter::PartialFormatterConfiguration;
use crate::linter::{PartialLinterConfiguration, PartialLinterConfigurationView};
use crate::matcher::{glob_matches, parse, Pattern, PatternError, Token};
use crate::merge::option_view;
use crate::organize_imports::PartialOrganizeImports;
use crate::string_set::{string_set_clone, string_set_items, string_set_to_vec, views};
use crate::{PartialConfiguration, PartialConfigurationView};
use biome_deserialize::StringSet;
use vstd::prelude::*;

verus! {

/// What an [`OverridePattern`] value stands for.
#[verifier::ext_equal]
pub struct OverridePatternView {
    pub ignore: Seq<Seq<char>>,
    pub includes: Seq<Seq<char>>,
    pub formatter: Option<PartialFormatterConfiguration>,
    pub linter: Option<PartialLinterConfigurationView>,
    pub organize_imports: Option<PartialOrganizeImports>,
}

/// Whether one of the patterns `globs` stands for `path`.
pub open spec fn any_matches(globs: Seq<Seq<char>>, path: Seq<char>) -> bool {
    exists|i: int| 0 <= i < globs.len() && #[trigger] glob_matches(globs[i], path)
}

/// Whether every one of the patterns `globs` can be read.
pub open spec fn all_readable(globs: Seq<Seq<char>>) -> bool {
    forall|i: int| 0 <= i < globs.len() ==> (#[trigger] parse(globs[i])) is Ok
}

/// Whether `globs[at]` is the first of the patterns that cannot be read.
pub open spec fn first_unreadable(globs: Seq<Seq<char>>, at: int) -> bool {
    &&& 0 <= at < globs.len()
    &&& parse(globs[at]) is Err
    &&& all_readable(globs.subrange(0, at))
}

/// Whether `glob` is the first of the patterns `globs` that cannot be read,
/// and `error` is why.
pub open spec fn fails_with(globs: Seq<Seq<char>>, glob: Seq<char>, error: PatternError) -> bool {
    exists|at: int| #[trigger] fails_at(globs, at, glob, error)
}

/// Whether `globs[at]` is `glob`, the first of the patterns that cannot be
/// read, and `error` is why.
pub open spec fn fails_at(
    globs: Seq<Seq<char>>,
    at: int,
    glob: Seq<char>,
    error: PatternError,
) -> bool {
    &&& first_unreadable(globs, at)
    &&& globs[at] == glob
    &&& parse(glob) == Err::<Seq<Token>, PatternError>(error)
}

impl OverridePatternView {
    /// The patterns of the entry in the order in which they are read: those
    /// that select files, then those that leave files out.
    pub open spec fn globs(self) -> Seq<Seq<char>> {
        self.includes + self.ignore
    }

    /// Whether the entry is for the file `path`: one of its selecting patterns
    /// stands for the path and none of the others does.
    pub open spec fn is_for(self, path: Seq<char>) -> bool {
        any_matches(self.includes, path) && !any_matches(self.ignore, path)
    }

    /// What the entry changes, as a fragment of the whole configuration.
    pub open spec fn delta(self) -> PartialConfigurationView {
        PartialConfigurationView {
            formatter: self.formatter,
            linter: self.linter,
            organize_imports: self.organize_imports,
            ..PartialConfigurationView::absent()
        }
    }
}

/// The configuration of the file `path`: `base`, overlaid in the order of the
/// list with the changes of every entry that is for the file.
pub open spec fn applied(
    entries: Seq<OverridePatternView>,
    path: Seq<char>,
    base: PartialConfigurationView,
) -> PartialConfigurationView
    decreases entries.len(),
{
    if entries.len() == 0 {
        base
    } else {
        let before = applied(entries.drop_last(), path, base);
        if entries.last().is_for(path) {
            before.merged(entries.last().delta())
        } else {
            before
        }
    }
}

/// Whether `entries[at]` is the first entry with a pattern that cannot be
/// read.
pub open spec fn first_unreadable_entry(entries: Seq<OverridePatternView>, at: int) -> bool {
    &&& 0 <= at < entries.len()
    &&& !all_readable(entries[at].globs())
    &&& forall|i: int| 0 <= i < at ==> all_readable((#[trigger] entries[i]).globs())
}

/// A file that no entry is for keeps the base configuration unchanged.
pub proof fn law_unmatched_file_keeps_base(
    entries: Seq<OverridePatternView>,
    path: Seq<char>,
    base: PartialConfigurationView,
)
    requires
        forall|i: int| 0 <= i < entries.len() ==> !(#[trigger] entries[i]).is_for(path),
    ensures
        applied(entries, path, base) == base,
    decreases entries.len(),
{
    if entries.len() > 0 {
        let front = entries.drop_last();
        assert forall|i: int| 0 <= i < front.len() implies !(#[trigger] front[i]).is_for(path) by {
            assert(!entries[i].is_for(path));
        }
        law_unmatched_file_keeps_base(front, path, base);
        assert(!entries[entries.len() - 1].is_for(path));
    }
}

/// Of the entries that are for a file, the one declared last has the last
/// word: the outcome is its changes overlaid on the outcome of the entries
/// before it, so that every scalar it sets and every rule it names is its own.
/// An entry that is not for the file changes nothing.
pub proof fn law_later_entry_wins(
    entries: Seq<OverridePatternView>,
    last: OverridePatternView,
    path: Seq<char>,
    base: PartialConfigurationView,
)
    ensures
        last.is_for(path) ==> applied(entries.push(last), path, base) == applied(
            entries,
            path,
            base,
        ).merged(last.delta()),
        !last.is_for(path) ==> applied(entries.push(last), path, base) == applied(
            entries,
            path,
            base,
        ),
{
    assert(entries.push(last).drop_last() =~= entries);
    assert(entries.push(last).last() == last);
}

/// Why the overrides cannot be applied: a pattern of the entry at position
/// `entry` of the list cannot be read.
#[derive(Debug, PartialEq, Eq)]
pub struct InvalidOverridePattern {
    pub entry: usize,
    pub pattern: String,
    pub error: PatternError,
}

/// Reads the patterns, in order.
fn read_patterns(globs: &Vec<String>) -> (r: Result<Vec<Pattern>, (String, PatternError)>)
    ensures
        match r {
            Ok(patterns) => all_readable(views(globs@)) && patterns@.len() == globs@.len()
                && forall|i: int|
                0 <= i < patterns@.len() ==> (#[trigger] patterns@[i])@ == globs@[i]@,
            Err((glob, error)) => fails_with(views(globs@), glob@, error),
        },
{
    let mut patterns: Vec<Pattern> = Vec::new();
    let mut i: usize = 0;
    while i < globs.len()
        invariant
            i <= globs@.len(),
            patterns@.len() == i,
            all_readable(views(globs@).subrange(0, i as int)),
            forall|j: int| 0 <= j < i ==> (#[trigger] patterns@[j])@ == globs@[j]@,
        decreases globs@.len() - i,
    {
        match Pattern::new(globs[i].as_str()) {
            Ok(pattern) => {
                patterns.push(pattern);
                assert forall|j: int| 0 <= j < i + 1 implies (#[trigger] parse(
                    views(globs@).subrange(0, i + 1)[j],
                )) is Ok by {
                    if j < i {
                        assert(views(globs@).subrange(0, i as int)[j] == views(globs@)[j]);
                        assert(parse(views(globs@).subrange(0, i as int)[j]) is Ok);
                    }
                }
            },
            Err(error) => {
                assert(fails_at(views(globs@), i as int, globs@[i as int]@, error));
                return Err((globs[i].clone(), error));
            },
        }
        i += 1;
    }
    assert(views(globs@).subrange(0, i as int) =~= views(globs@));
    Ok(patterns)
}

/// The patterns as they were written.
pub open spec fn pattern_texts(patterns: Seq<Pattern>) -> Seq<Seq<char>> {
    patterns.map_values(|p: Pattern| p@)
}

/// Whether one of the patterns stands for `path`.
fn any_pattern_matches(patterns: &Vec<Pattern>, path: &str) -> (r: bool)
    ensures
        r == any_matches(pattern_texts(patterns@), path@),
{
    let mut i: usize = 0;
    while i < patterns.len()
        invariant
            i <= patterns@.len(),
            forall|j: int|
                0 <= j < i ==> !#[trigger] glob_matches(pattern_texts(patterns@)[j], path@),
        decreases patterns@.len() - i,
    {
        if patterns[i].matches(path) {
            assert(glob_matches(pattern_texts(patterns@)[i as int], path@));
            return true;
        }
        i += 1;
    }
    false
}

/// One entry of the `overrides` list: the files it is for, and what it
/// changes for them.
#[derive(Debug, PartialEq, Eq)]
pub struct OverridePattern {
    /// Unix shell style patterns; a file that matches one of them is left
    /// alone by this entry.
    pub ignore: StringSet,
    /// Unix shell style patterns; this entry is for the files that match one
    /// of them.
    pub includes: StringSet,
    pub formatter: Option<PartialFormatterConfiguration>,
    pub linter: Option<PartialLinterConfiguration>,
    pub organize_imports: Option<PartialOrganizeImports>,
}

impl View for OverridePattern {
    type V = OverridePatternView;

    open spec fn view(&self) -> OverridePatternView {
        OverridePatternView {
            ignore: string_set_items(self.ignore),
            includes: string_set_items(self.includes),
            formatter: self.formatter,
            linter: option_view(self.linter),
            organize_imports: self.organize_imports,
        }
    }
}

impl Clone for OverridePattern {
    fn clone(&self) -> (r: Self)
        ensures
            r@ == self@,
    {
        OverridePattern {
            ignore: string_set_clone(&self.ignore),
            includes: string_set_clone(&self.includes),
            formatter: self.formatter,
            linter: PartialLinterConfiguration::clone_option(&self.linter),
            organize_imports: self.organize_imports,
        }
    }
}

/// The `overrides` list. Its order matters: of two entries that match one
/// file, the later one has the last word.
#[derive(Debug, PartialEq, Eq)]
pub struct Overrides(pub Vec<OverridePattern>);

/// The views of a sequence of entries.
pub open spec fn pattern_views(entries: Seq<OverridePattern>) -> Seq<OverridePatternView> {
    entries.map_values(|p: OverridePattern| p@)
}

impl View for Overrides {
    type V = Seq<OverridePatternView>;

    open spec fn view(&self) -> Seq<OverridePatternView> {
        pattern_views(self.0@)
    }
}

impl Default for Overrides {
    fn default() -> (r: Self)
        ensures
            r@ == Seq::<OverridePatternView>::empty(),
    {
        Overrides(Vec::new())
    }
}

impl Clone for Overrides {
    fn clone(&self) -> (r: Self)
        ensures
            r@ == self@,
    {
        let mut entries: Vec<OverridePattern> = Vec::new();
        let mut i: usize = 0;
        while i < self.0.len()
            invariant
                i <= self.0@.len(),
                pattern_views(entries@) == pattern_views(self.0@).subrange(0, i as int),
            decreases self.0@.len() - i,
        {
            let ghost before = entries@;
            entries.push(self.0[i].clone());
            assert(pattern_views(entries@) =~= pattern_views(before).push(self.0@[i as int]@));
            assert(pattern_views(self.0@).subrange(0, i + 1) =~= pattern_views(self.0@).subrange(
                0,
                i as int,
            ).push(self.0@[i as int]@));
            i += 1;
        }
        assert(pattern_views(self.0@).subrange(0, i as int) =~= pattern_views(self.0@));
        Overrides(entries)
    }
}

impl OverridePattern {
    /// What the entry changes, as a fragment of the whole configuration.
    pub fn delta(&self) -> (r: PartialConfiguration)
        ensures
            r@ == self@.delta(),
    {
        let mut fragment = PartialConfiguration::default();
        fragment.formatter = self.formatter;
        fragment.linter = PartialLinterConfiguration::clone_option(&self.linter);
        fragment.organize_imports = self.organize_imports;
        fragment
    }

    /// Reads the patterns of the entry: those that select files, and those
    /// that leave files out. It fails with the first pattern that cannot be
    /// read, the selecting patterns taken before the others.
    fn read(&self) -> (r: Result<(Vec<Pattern>, Vec<Pattern>), (String, PatternError)>)
        ensures
            match r {
                Ok((selecting, leaving)) => all_readable(self@.globs()) && pattern_texts(
                    selecting@,
                ) == self@.includes && pattern_texts(leaving@) == self@.ignore,
                Err((glob, error)) => fails_with(self@.globs(), glob@, error),
            },
    {
        let includes = string_set_to_vec(&self.includes);
        let ignore = string_set_to_vec(&self.ignore);
        let ghost first = views(includes@);
        let ghost second = views(ignore@);
        assert(self@.globs() == first + second);
        let selecting = match read_patterns(&includes) {
            Ok(patterns) => patterns,
            Err((glob, error)) => {
                proof {
                    let at = choose|at: int| #[trigger] fails_at(first, at, glob@, error);
                    assert((first + second).subrange(0, at) =~= first.subrange(0, at));
                    assert(fails_at(first + second, at, glob@, error));
                }
                return Err((glob, error));
            },
        };
        let leaving = match read_patterns(&ignore) {
            Ok(patterns) => patterns,
            Err((glob, error)) => {
                proof {
                    let at = choose|at: int| #[trigger] fails_at(second, at, glob@, error);
                    let n = first.len() as int;
                    let both = first + second;
                    assert forall|i: int| 0 <= i < n + at implies (#[trigger] parse(
                        both.subrange(0, n + at)[i],
                    )) is Ok by {
                        if i < n {
                            assert(parse(first[i]) is Ok);
                        } else {
                            assert(second.subrange(0, at)[i - n] == second[i - n]);
                            assert(parse(second.subrange(0, at)[i - n]) is Ok);
                        }
                    }
                    assert(both[n + at] == second[at]);
                    assert(fails_at(both, n + at, glob@, error));
                }
                return Err((glob, error));
            },
        };
        proof {
            let both = first + second;
            assert forall|i: int| 0 <= i < both.len() implies (#[trigger] parse(both[i])) is Ok by {
                if i < first.len() {
                    assert(parse(first[i]) is Ok);
                } else {
                    assert(parse(second[i - first.len()]) is Ok);
                }
            }
            assert(pattern_texts(selecting@) =~= first);
            assert(pattern_texts(leaving@) =~= second);
        }
        Ok((selecting, leaving))
    }

    /// Whether the entry is for the file `path`. It fails where one of the
    /// entry's patterns cannot be read, with the first such pattern, the
    /// selecting patterns taken before the others.
    pub fn is_for(&self, path: &str) -> (r: Result<bool, (String, PatternError)>)
        ensures
            match r {
                Ok(yes) => all_readable(self@.globs()) && yes == self@.is_for(path@),
                Err((glob, error)) => fails_with(self@.globs(), glob@, error),
            },
    {
        match self.read() {
            Err(e) => Err(e),
            Ok((selecting, leaving)) => {
                let selected = any_pattern_matches(&selecting, path);
                let left = any_pattern_matches(&leaving, path);
                Ok(selected && !left)
            },
        }
    }
}

impl Overrides {
    /// The configuration of the file `path`: `base`, overlaid in the order of
    /// the list with the changes of every entry that is for the file. It
    /// fails where a pattern of the list cannot be read, with the first such
    /// pattern of the first such entry, and on nothing else.
    pub fn apply(&self, path: &str, base: PartialConfiguration) -> (r: Result<
        PartialConfiguration,
        InvalidOverridePattern,
    >)
        ensures
            match r {
                Ok(effective) => effective@ == applied(self@, path@, base@) && forall|i: int|
                    0 <= i < self@.len() ==> all_readable((#[trigger] self@[i]).globs()),
                Err(e) => first_unreadable_entry(self@, e.entry as int) && fails_with(
                    self@[e.entry as int].globs(),
                    e.pattern@,
                    e.error,
                ),
            },
    {
        let mut effective = base;
        let mut i: usize = 0;
        assert(self@.subrange(0, 0) =~= Seq::empty());
        while i < self.0.len()
            invariant
                i <= self.0@.len(),
                effective@ == applied(self@.subrange(0, i as int), path@, base@),
                forall|j: int| 0 <= j < i ==> all_readable((#[trigger] self@[j]).globs()),
            decreases self.0@.len() - i,
        {
            let entry = &self.0[i];
            assert(entry@ == self@[i as int]);
            match entry.is_for(path) {
                Err((pattern, error)) => {
                    proof {
                        let at = choose|at: int| #[trigger]
                            fails_at(self@[i as int].globs(), at, pattern@, error);
                        assert(parse(self@[i as int].globs()[at]) is Err);
                        assert(first_unreadable_entry(self@, i as int));
                    }
                    return Err(InvalidOverridePattern { entry: i, pattern, error });
                },
                Ok(yes) => {
                    proof {
                        law_later_entry_wins(
                            self@.subrange(0, i as int),
                            self@[i as int],
                            path@,
                            base@,
                        );
                        assert(self@.subrange(0, i as int).push(self@[i as int]) =~= self@.subrange(
                            0,
                            i + 1,
                        ));
                    }
                    if yes {
                        effective.merge_with(entry.delta());
                    }
                },
            }
            i += 1;
        }
        assert(self@.subrange(0, i as int) =~= self@);
        Ok(effective)
    }

    /// Reads every pattern of the list. It fails where one cannot be read,
    /// with the first such pattern of the first such entry, and on nothing
    /// else.
    pub fn validate(&self) -> (r: Result<(), InvalidOverridePattern>)
        ensures
            match r {
                Ok(_) => forall|i: int|
                    0 <= i < self@.len() ==> all_readable((#[trigger] self@[i]).globs()),
                Err(e) => first_unreadable_entry(self@, e.entry as int) && fails_with(
                    self@[e.entry as int].globs(),
                    e.pattern@,
                    e.error,
                ),
            },
    {
        let mut i: usize = 0;
        while i < self.0.len()
            invariant
                i <= self.0@.len(),
                forall|j: int| 0 <= j < i ==> all_readable((#[trigger] self@[j]).globs()),
            decreases self.0@.len() - i,
        {
            let entry = &self.0[i];
            assert(entry@ == self@[i as int]);
            match entry.read() {
                Err((pattern, error)) => {
                    proof {
                        let at = choose|at: int| #[trigger]
                            fails_at(self@[i as int].globs(), at, pattern@, error);
                        assert(parse(self@[i as int].globs()[at]) is Err);
                    }
                    return Err(InvalidOverridePattern { entry: i, pattern, error });
                },
                Ok(_) => {},
            }
            i += 1;
        }
        Ok(())
    }

    /// A copy of an optional list.
    pub fn clone_option(list: &Option<Self>) -> (r: Option<Self>)
        ensures
            option_view(r) == option_view(*list),
    {
        match list {
            Some(l) => Some(l.clone()),
            None => None,
        }
    }
}

} // verus!
