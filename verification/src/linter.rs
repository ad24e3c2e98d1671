//! The linter: whether it runs, which rule sets are on, and the table of
//! per-rule settings.

use crate::merge::{later_wins, option_view, or_default, resolve_scalar};
use vstd::prelude::*;

verus! {

/// What the linter does with the findings of one rule.
#[derive(Clone, Copy, Debug, PartialEq, Eq)]
pub enum RulePlainConfiguration {
    Warn,
    Error,
    Off,
}

/// One slot of the rule table: a rule's name and its setting.
#[derive(Debug, PartialEq, Eq)]
pub struct RuleEntry {
    pub name: String,
    pub level: RulePlainConfiguration,
}

/// The per-rule settings, keyed by rule name. Every name is an independent
/// slot: a fragment overrides only the rules it names.
#[derive(Debug, PartialEq, Eq)]
pub struct RuleTable {
    entries: Vec<RuleEntry>,
}

/// The table that a sequence of entries stands for: each entry sets its rule,
/// a later entry overriding an earlier one of the same name.
pub open spec fn table_of(entries: Seq<RuleEntry>) -> Map<Seq<char>, RulePlainConfiguration>
    decreases entries.len(),
{
    if entries.len() == 0 {
        Map::empty()
    } else {
        table_of(entries.drop_last()).insert(entries.last().name@, entries.last().level)
    }
}

/// No entry at position `from` or later carries the name `name`.
pub open spec fn unnamed_from(entries: Seq<RuleEntry>, name: Seq<char>, from: int) -> bool {
    forall|j: int| from <= j < entries.len() ==> (#[trigger] entries[j]).name@ != name
}

/// A name that no entry carries is not a key of the table.
proof fn lemma_unnamed(entries: Seq<RuleEntry>, name: Seq<char>)
    requires
        unnamed_from(entries, name, 0),
    ensures
        !table_of(entries).contains_key(name),
    decreases entries.len(),
{
    if entries.len() > 0 {
        let front = entries.drop_last();
        assert forall|j: int| 0 <= j < front.len() implies (#[trigger] front[j]).name@ != name by {
            assert(entries[j].name@ != name);
        }
        lemma_unnamed(front, name);
        assert(entries[entries.len() - 1].name@ != name);
    }
}

/// The last entry that carries a name decides what the table holds under it.
proof fn lemma_last_named(entries: Seq<RuleEntry>, name: Seq<char>, at: int)
    requires
        0 <= at < entries.len(),
        entries[at].name@ == name,
        unnamed_from(entries, name, at + 1),
    ensures
        table_of(entries).contains_key(name),
        table_of(entries)[name] == entries[at].level,
    decreases entries.len(),
{
    if at < entries.len() - 1 {
        let front = entries.drop_last();
        assert(entries[entries.len() - 1].name@ != name);
        assert forall|j: int| at + 1 <= j < front.len() implies (#[trigger] front[j]).name@
            != name by {
            assert(entries[j].name@ != name);
        }
        lemma_last_named(front, name, at);
    }
}

/// Taking out an entry changes the table under that entry's name at most.
proof fn lemma_remove_entry(entries: Seq<RuleEntry>, at: int)
    requires
        0 <= at < entries.len(),
    ensures
        table_of(entries.remove(at)).remove(entries[at].name@) == table_of(entries).remove(
            entries[at].name@,
        ),
    decreases entries.len(),
{
    let name = entries[at].name@;
    let front = entries.drop_last();
    if at == entries.len() - 1 {
        assert(entries.remove(at) =~= front);
        assert(table_of(front).insert(name, entries[at].level).remove(name) =~= table_of(
            front,
        ).remove(name));
    } else {
        let last = entries.last();
        lemma_remove_entry(front, at);
        assert(entries.remove(at).drop_last() =~= front.remove(at));
        assert(entries.remove(at).last() == last);
        let a = table_of(front.remove(at));
        let b = table_of(front);
        if last.name@ == name {
            assert(a.insert(last.name@, last.level).remove(name) =~= a.remove(name));
            assert(b.insert(last.name@, last.level).remove(name) =~= b.remove(name));
        } else {
            assert(a.insert(last.name@, last.level).remove(name) =~= a.remove(name).insert(
                last.name@,
                last.level,
            ));
            assert(b.insert(last.name@, last.level).remove(name) =~= b.remove(name).insert(
                last.name@,
                last.level,
            ));
        }
    }
}

impl View for RuleTable {
    type V = Map<Seq<char>, RulePlainConfiguration>;

    closed spec fn view(&self) -> Map<Seq<char>, RulePlainConfiguration> {
        table_of(self.entries@)
    }
}

impl RuleTable {
    /// The table that names no rule.
    pub fn new() -> (r: Self)
        ensures
            r@ == Map::<Seq<char>, RulePlainConfiguration>::empty(),
    {
        RuleTable { entries: Vec::new() }
    }

    /// The setting of the rule `name`, if the table names it.
    pub fn get(&self, name: &str) -> (r: Option<RulePlainConfiguration>)
        ensures
            r == if self@.contains_key(name@) {
                Some(self@[name@])
            } else {
                None::<RulePlainConfiguration>
            },
    {
        let key = name.to_owned();
        let mut i: usize = self.entries.len();
        while i > 0
            invariant
                i <= self.entries@.len(),
                key@ == name@,
                unnamed_from(self.entries@, name@, i as int),
            decreases i,
        {
            i -= 1;
            if self.entries[i].name == key {
                proof {
                    lemma_last_named(self.entries@, name@, i as int);
                }
                return Some(self.entries[i].level);
            }
        }
        proof {
            lemma_unnamed(self.entries@, name@);
        }
        None
    }

    /// Sets the rule `name` to `level`, whether or not the table named it
    /// before; every other rule keeps its setting.
    pub fn set(&mut self, name: String, level: RulePlainConfiguration)
        ensures
            final(self)@ == old(self)@.insert(name@, level),
    {
        let ghost before = self.entries@;
        let mut i: usize = self.entries.len();
        while i > 0
            invariant
                i <= self.entries@.len(),
                unnamed_from(self.entries@, name@, i as int),
                table_of(self.entries@).remove(name@) == table_of(before).remove(name@),
            decreases i,
        {
            i -= 1;
            if self.entries[i].name == name {
                let ghost held = self.entries@;
                proof {
                    lemma_remove_entry(held, i as int);
                }
                self.entries.remove(i);
                assert forall|j: int| i <= j < self.entries@.len() implies (
                #[trigger] self.entries@[j]).name@ != name@ by {
                    assert(held[j + 1].name@ != name@);
                }
            }
        }
        proof {
            lemma_unnamed(self.entries@, name@);
            assert(table_of(self.entries@) =~= table_of(self.entries@).remove(name@));
        }
        let ghost cleared = self.entries@;
        let ghost key = name@;
        self.entries.push(RuleEntry { name, level });
        proof {
            assert(self.entries@.drop_last() =~= cleared);
            assert(table_of(before).remove(key).insert(key, level) =~= table_of(before).insert(
                key,
                level,
            ));
        }
    }

    /// Overlays `other` on `self` key by key: a rule that `other` names takes
    /// its setting from `other`, every other rule keeps what it had.
    pub fn merge_with(&mut self, other: RuleTable)
        ensures
            final(self)@ == old(self)@.union_prefer_right(other@),
    {
        let ghost start = self@;
        let ghost theirs = other.entries@;
        let mut i: usize = 0;
        assert(start.union_prefer_right(table_of(theirs.subrange(0, 0))) =~= start);
        while i < other.entries.len()
            invariant
                i <= theirs.len(),
                theirs == other.entries@,
                self@ == start.union_prefer_right(table_of(theirs.subrange(0, i as int))),
            decreases theirs.len() - i,
        {
            let ghost sofar = table_of(theirs.subrange(0, i as int));
            let name = other.entries[i].name.clone();
            let level = other.entries[i].level;
            self.set(name, level);
            proof {
                let next = theirs.subrange(0, i + 1);
                assert(next.drop_last() =~= theirs.subrange(0, i as int));
                assert(next.last() == theirs[i as int]);
                assert(start.union_prefer_right(sofar).insert(theirs[i as int].name@, level)
                    =~= start.union_prefer_right(sofar.insert(theirs[i as int].name@, level)));
            }
            i += 1;
        }
        assert(theirs.subrange(0, theirs.len() as int) =~= theirs);
    }
}

impl Clone for RuleTable {
    fn clone(&self) -> (r: Self)
        ensures
            r@ == self@,
    {
        let mut entries: Vec<RuleEntry> = Vec::new();
        let mut i: usize = 0;
        while i < self.entries.len()
            invariant
                i <= self.entries@.len(),
                entries@ == self.entries@.subrange(0, i as int),
            decreases self.entries@.len() - i,
        {
            let name = self.entries[i].name.clone();
            entries.push(RuleEntry { name, level: self.entries[i].level });
            assert(entries@ =~= self.entries@.subrange(0, i + 1));
            i += 1;
        }
        assert(entries@ =~= self.entries@);
        RuleTable { entries }
    }
}

/// What a [`Rules`] value stands for.
#[verifier::ext_equal]
pub struct RulesView {
    pub recommended: bool,
    pub all: bool,
    pub table: Map<Seq<char>, RulePlainConfiguration>,
}

impl RulesView {
    /// The built-in rule selection: the recommended rules, and no rule set
    /// apart.
    pub open spec fn hard_default() -> Self {
        RulesView { recommended: true, all: false, table: Map::empty() }
    }
}

/// What a [`PartialRules`] value stands for.
#[verifier::ext_equal]
pub struct PartialRulesView {
    pub recommended: Option<bool>,
    pub all: Option<bool>,
    pub table: Map<Seq<char>, RulePlainConfiguration>,
}

impl PartialRulesView {
    /// The fragment that sets nothing.
    pub open spec fn absent() -> Self {
        PartialRulesView { recommended: None, all: None, table: Map::empty() }
    }

    /// `self` overlaid with `later`: the two switches as scalars, the table key
    /// by key.
    pub open spec fn merged(self, later: Self) -> Self {
        PartialRulesView {
            recommended: later_wins(self.recommended, later.recommended),
            all: later_wins(self.all, later.all),
            table: self.table.union_prefer_right(later.table),
        }
    }

    /// Overlays an optional fragment on another.
    pub open spec fn merged_option(earlier: Option<Self>, later: Option<Self>) -> Option<Self> {
        match (earlier, later) {
            (Some(a), Some(b)) => Some(a.merged(b)),
            (None, Some(b)) => Some(b),
            (_, None) => earlier,
        }
    }

    /// The two switches given their defaults where absent; the table as it is.
    pub open spec fn resolved(self) -> RulesView {
        let d = RulesView::hard_default();
        RulesView {
            recommended: or_default(self.recommended, d.recommended),
            all: or_default(self.all, d.all),
            table: self.table,
        }
    }

    /// What an optional fragment resolves to: an absent one gives the built-in
    /// rule selection.
    pub open spec fn resolved_option(fragment: Option<Self>) -> RulesView {
        match fragment {
            Some(f) => f.resolved(),
            None => RulesView::hard_default(),
        }
    }

    /// Of two fragments merged in this order, the later one decides each switch
    /// it sets and each rule it names, the earlier one every other switch and
    /// rule. Resolving leaves the table as it is and gives a switch that neither
    /// sets its built-in default.
    pub proof fn law_later_wins(a: Self, b: Self, rule: Seq<char>)
        ensures
            b.recommended is Some ==> a.merged(b).recommended == b.recommended,
            b.recommended is None ==> a.merged(b).recommended == a.recommended,
            a.recommended is None && b.recommended is None ==> a.merged(b).resolved().recommended,
            b.all is Some ==> a.merged(b).all == b.all,
            b.all is None ==> a.merged(b).all == a.all,
            a.all is None && b.all is None ==> !a.merged(b).resolved().all,
            b.table.contains_key(rule) ==> a.merged(b).table.contains_key(rule) && a.merged(
                b,
            ).table[rule] == b.table[rule],
            !b.table.contains_key(rule) && a.table.contains_key(rule) ==> a.merged(
                b,
            ).table.contains_key(rule) && a.merged(b).table[rule] == a.table[rule],
            !b.table.contains_key(rule) && !a.table.contains_key(rule) ==> !a.merged(
                b,
            ).table.contains_key(rule),
            a.merged(b).resolved().table == a.merged(b).table,
    {
    }
}

/// Which rules the linter applies, every field with a value.
#[derive(Debug, PartialEq, Eq)]
pub struct Rules {
    /// Apply the recommended rules.
    pub recommended: bool,
    /// Apply every rule.
    pub all: bool,
    /// The rules set apart by name.
    pub table: RuleTable,
}

impl View for Rules {
    type V = RulesView;

    open spec fn view(&self) -> RulesView {
        RulesView { recommended: self.recommended, all: self.all, table: self.table@ }
    }
}

impl Default for Rules {
    fn default() -> (r: Self)
        ensures
            r@ == RulesView::hard_default(),
    {
        Rules { recommended: true, all: false, table: RuleTable::new() }
    }
}

impl Clone for Rules {
    fn clone(&self) -> (r: Self)
        ensures
            r@ == self@,
    {
        Rules { recommended: self.recommended, all: self.all, table: self.table.clone() }
    }
}

/// The rule selection as a fragment supplies it.
#[derive(Debug, PartialEq, Eq)]
pub struct PartialRules {
    pub recommended: Option<bool>,
    pub all: Option<bool>,
    /// The rules this fragment names; a rule it does not name is left to the
    /// fragments of lower precedence.
    pub table: RuleTable,
}

impl View for PartialRules {
    type V = PartialRulesView;

    open spec fn view(&self) -> PartialRulesView {
        PartialRulesView { recommended: self.recommended, all: self.all, table: self.table@ }
    }
}

impl Default for PartialRules {
    fn default() -> (r: Self)
        ensures
            r@ == PartialRulesView::absent(),
    {
        PartialRules { recommended: None, all: None, table: RuleTable::new() }
    }
}

impl Clone for PartialRules {
    fn clone(&self) -> (r: Self)
        ensures
            r@ == self@,
    {
        PartialRules { recommended: self.recommended, all: self.all, table: self.table.clone() }
    }
}

impl PartialRules {
    /// The full rule selection this fragment stands for.
    pub fn get_rules(&self) -> (r: Rules)
        ensures
            r@ == self@.resolved(),
    {
        let d = Rules::default();
        Rules {
            recommended: resolve_scalar(self.recommended, d.recommended),
            all: resolve_scalar(self.all, d.all),
            table: self.table.clone(),
        }
    }

    /// Executable form of [`PartialRulesView::resolved_option`].
    pub fn resolve_option(fragment: &Option<Self>) -> (r: Rules)
        ensures
            r@ == PartialRulesView::resolved_option(option_view(*fragment)),
    {
        match fragment {
            Some(f) => f.get_rules(),
            None => Rules::default(),
        }
    }

    /// Overlays `other`, the fragment of higher precedence, on `self`.
    pub fn merge_with(&mut self, other: Self)
        ensures
            final(self)@ == old(self)@.merged(other@),
    {
        if other.recommended.is_some() {
            self.recommended = other.recommended;
        }
        if other.all.is_some() {
            self.all = other.all;
        }
        self.table.merge_with(other.table);
    }

    /// Executable form of [`PartialRulesView::merged_option`].
    pub fn merge_option(earlier: &mut Option<Self>, later: Option<Self>)
        ensures
            option_view(*final(earlier)) == PartialRulesView::merged_option(
                option_view(*old(earlier)),
                option_view(later),
            ),
    {
        if let Some(b) = later {
            match earlier {
                Some(a) => a.merge_with(b),
                None => {
                    *earlier = Some(b);
                },
            }
        }
    }

    /// A copy of an optional fragment.
    pub fn clone_option(fragment: &Option<Self>) -> (r: Option<Self>)
        ensures
            option_view(r) == option_view(*fragment),
    {
        match fragment {
            Some(f) => Some(f.clone()),
            None => None,
        }
    }
}

/// What a [`LinterConfiguration`] value stands for.
#[verifier::ext_equal]
pub struct LinterConfigurationView {
    pub enabled: bool,
    pub rules: RulesView,
}

impl LinterConfigurationView {
    /// The built-in linter settings.
    pub open spec fn hard_default() -> Self {
        LinterConfigurationView { enabled: true, rules: RulesView::hard_default() }
    }
}

/// What a [`PartialLinterConfiguration`] value stands for.
#[verifier::ext_equal]
pub struct PartialLinterConfigurationView {
    pub enabled: Option<bool>,
    pub rules: Option<PartialRulesView>,
}

impl PartialLinterConfigurationView {
    /// The fragment that sets nothing.
    pub open spec fn absent() -> Self {
        PartialLinterConfigurationView { enabled: None, rules: None }
    }

    /// `self` overlaid with `later`: the switch as a scalar, the rule selection
    /// merged with its counterpart.
    pub open spec fn merged(self, later: Self) -> Self {
        PartialLinterConfigurationView {
            enabled: later_wins(self.enabled, later.enabled),
            rules: PartialRulesView::merged_option(self.rules, later.rules),
        }
    }

    /// Overlays an optional fragment on another.
    pub open spec fn merged_option(earlier: Option<Self>, later: Option<Self>) -> Option<Self> {
        match (earlier, later) {
            (Some(a), Some(b)) => Some(a.merged(b)),
            (None, Some(b)) => Some(b),
            (_, None) => earlier,
        }
    }

    /// Every absent field replaced by its built-in default.
    pub open spec fn resolved(self) -> LinterConfigurationView {
        LinterConfigurationView {
            enabled: or_default(self.enabled, LinterConfigurationView::hard_default().enabled),
            rules: PartialRulesView::resolved_option(self.rules),
        }
    }

    /// What an optional fragment resolves to: an absent one gives the built-in
    /// defaults.
    pub open spec fn resolved_option(fragment: Option<Self>) -> LinterConfigurationView {
        match fragment {
            Some(f) => f.resolved(),
            None => LinterConfigurationView::hard_default(),
        }
    }

    /// The rule selection, an absent one read as one that sets nothing.
    pub open spec fn rules_part(self) -> PartialRulesView {
        or_default(self.rules, PartialRulesView::absent())
    }

    /// Of two fragments merged in this order, the later one decides the switch
    /// if it sets it, the earlier one otherwise; a switch that neither sets
    /// resolves to on. The rule selections merge, an absent one counting as one
    /// that sets nothing.
    pub proof fn law_later_wins(a: Self, b: Self)
        ensures
            b.enabled is Some ==> a.merged(b).enabled == b.enabled,
            b.enabled is None ==> a.merged(b).enabled == a.enabled,
            a.enabled is None && b.enabled is None ==> a.merged(b).resolved().enabled,
            a.merged(b).rules_part() == a.rules_part().merged(b.rules_part()),
            a.merged(b).resolved().rules == a.merged(b).rules_part().resolved(),
    {
        assert(a.merged(b).rules_part() =~= a.rules_part().merged(b.rules_part()));
    }
}

/// The linter settings, every field with a value.
#[derive(Debug, PartialEq, Eq)]
pub struct LinterConfiguration {
    pub enabled: bool,
    pub rules: Rules,
}

impl View for LinterConfiguration {
    type V = LinterConfigurationView;

    open spec fn view(&self) -> LinterConfigurationView {
        LinterConfigurationView { enabled: self.enabled, rules: self.rules@ }
    }
}

impl Default for LinterConfiguration {
    fn default() -> (r: Self)
        ensures
            r@ == LinterConfigurationView::hard_default(),
    {
        LinterConfiguration { enabled: true, rules: Rules::default() }
    }
}

impl Clone for LinterConfiguration {
    fn clone(&self) -> (r: Self)
        ensures
            r@ == self@,
    {
        LinterConfiguration { enabled: self.enabled, rules: self.rules.clone() }
    }
}

/// The linter settings as a fragment supplies them.
#[derive(Debug, PartialEq, Eq)]
pub struct PartialLinterConfiguration {
    pub enabled: Option<bool>,
    pub rules: Option<PartialRules>,
}

impl View for PartialLinterConfiguration {
    type V = PartialLinterConfigurationView;

    open spec fn view(&self) -> PartialLinterConfigurationView {
        PartialLinterConfigurationView {
            enabled: self.enabled,
            rules: option_view(self.rules),
        }
    }
}

impl Default for PartialLinterConfiguration {
    fn default() -> (r: Self)
        ensures
            r@ == PartialLinterConfigurationView::absent(),
    {
        PartialLinterConfiguration { enabled: None, rules: None }
    }
}

impl Clone for PartialLinterConfiguration {
    fn clone(&self) -> (r: Self)
        ensures
            r@ == self@,
    {
        PartialLinterConfiguration {
            enabled: self.enabled,
            rules: PartialRules::clone_option(&self.rules),
        }
    }
}

impl PartialLinterConfiguration {
    /// Whether the fragment switches the linter off in so many words.
    pub fn is_disabled(&self) -> (r: bool)
        ensures
            r == (self.enabled == Some(false)),
    {
        matches!(self.enabled, Some(false))
    }

    /// The full rule selection this fragment stands for.
    pub fn get_rules(&self) -> (r: Rules)
        ensures
            r@ == PartialRulesView::resolved_option(self@.rules),
    {
        PartialRules::resolve_option(&self.rules)
    }

    /// The full linter settings this fragment stands for.
    pub fn get_linter_configuration(&self) -> (r: LinterConfiguration)
        ensures
            r@ == self@.resolved(),
    {
        LinterConfiguration {
            enabled: resolve_scalar(self.enabled, true),
            rules: PartialRules::resolve_option(&self.rules),
        }
    }

    /// Executable form of [`PartialLinterConfigurationView::resolved_option`].
    pub fn resolve_option(fragment: &Option<Self>) -> (r: LinterConfiguration)
        ensures
            r@ == PartialLinterConfigurationView::resolved_option(option_view(*fragment)),
    {
        match fragment {
            Some(f) => f.get_linter_configuration(),
            None => LinterConfiguration::default(),
        }
    }

    /// Overlays `other`, the fragment of higher precedence, on `self`.
    pub fn merge_with(&mut self, other: Self)
        ensures
            final(self)@ == old(self)@.merged(other@),
    {
        if other.enabled.is_some() {
            self.enabled = other.enabled;
        }
        PartialRules::merge_option(&mut self.rules, other.rules);
    }

    /// Executable form of [`PartialLinterConfigurationView::merged_option`].
    pub fn merge_option(earlier: &mut Option<Self>, later: Option<Self>)
        ensures
            option_view(*final(earlier)) == PartialLinterConfigurationView::merged_option(
                option_view(*old(earlier)),
                option_view(later),
            ),
    {
        if let Some(b) = later {
            match earlier {
                Some(a) => a.merge_with(b),
                None => {
                    *earlier = Some(b);
                },
            }
        }
    }

    /// A copy of an optional fragment.
    pub fn clone_option(fragment: &Option<Self>) -> (r: Option<Self>)
        ensures
            option_view(r) == option_view(*fragment),
    {
        match fragment {
            Some(f) => Some(f.clone()),
            None => None,
        }
    }
}

} // verus!
