//! The import sorter.

use crate::merge::{later_wins, or_default, resolve_scalar};
use vstd::prelude::*;

verus! {

/// The settings of the import sorter, every field with a value.
#[derive(Clone, Copy, Debug, PartialEq, Eq)]
pub struct OrganizeImports {
    pub enabled: bool,
}

impl OrganizeImports {
    /// The built-in settings of the import sorter.
    pub open spec fn hard_default() -> Self {
        OrganizeImports {
            enabled: true,
        }
    }
}

impl Default for OrganizeImports {
    fn default() -> (r: Self)
        ensures
            r == Self::hard_default(),
    {
        OrganizeImports {
            enabled: true,
        }
    }
}

/// The settings of the import sorter as a fragment supplies them: every field may be absent.
#[derive(Clone, Copy, Debug, PartialEq, Eq)]
pub struct PartialOrganizeImports {
    pub enabled: Option<bool>,
}

impl PartialOrganizeImports {
    /// The fragment that sets nothing.
    pub open spec fn absent() -> Self {
        PartialOrganizeImports {
            enabled: None,
        }
    }

    /// `self` overlaid with `later`, field by field.
    pub open spec fn merged(self, later: Self) -> Self {
        PartialOrganizeImports {
            enabled: later_wins(self.enabled, later.enabled),
        }
    }

    /// Overlays an optional fragment on another: where both are present they
    /// merge field by field, otherwise the one that is present stays.
    pub open spec fn merged_option(earlier: Option<Self>, later: Option<Self>) -> Option<Self> {
        match (earlier, later) {
            (Some(a), Some(b)) => Some(a.merged(b)),
            (None, Some(b)) => Some(b),
            (_, None) => earlier,
        }
    }

    /// Every absent field replaced by its built-in default.
    pub open spec fn resolved(self) -> OrganizeImports {
        let d = OrganizeImports::hard_default();
        OrganizeImports {
            enabled: or_default(self.enabled, d.enabled),
        }
    }

    /// What an optional fragment resolves to: an absent one gives the built-in
    /// defaults.
    pub open spec fn resolved_option(fragment: Option<Self>) -> OrganizeImports {
        match fragment {
            Some(f) => f.resolved(),
            None => OrganizeImports::hard_default(),
        }
    }

    /// Of two fragments merged in this order, the later one decides every field
    /// it sets and the earlier one every other. A field that neither sets
    /// resolves to its built-in default.
    pub proof fn law_later_wins(a: Self, b: Self)
        ensures
            b.enabled is Some ==> a.merged(b).enabled == b.enabled,
            b.enabled is None ==> a.merged(b).enabled == a.enabled,
            a.enabled is None && b.enabled is None ==> a.merged(b).resolved().enabled
                == OrganizeImports::hard_default().enabled,
    {
    }

    /// Whether the fragment switches the import sorter off in so many words.
    pub fn is_disabled(&self) -> (r: bool)
        ensures
            r == (self.enabled == Some(false)),
    {
        matches!(self.enabled, Some(false))
    }

    /// The full settings of the import sorter this fragment stands for.
    pub fn get_organize_imports(&self) -> (r: OrganizeImports)
        ensures
            r == self.resolved(),
    {
        let d = OrganizeImports::default();
        OrganizeImports {
            enabled: resolve_scalar(self.enabled, d.enabled),
        }
    }

    /// Executable form of [`Self::resolved_option`].
    pub fn resolve_option(fragment: &Option<Self>) -> (r: OrganizeImports)
        ensures
            r == Self::resolved_option(*fragment),
    {
        match fragment {
            Some(f) => f.get_organize_imports(),
            None => OrganizeImports::default(),
        }
    }

    /// Overlays `other`, the fragment of higher precedence, on `self`.
    pub fn merge_with(&mut self, other: Self)
        ensures
            *final(self) == old(self).merged(other),
    {
        if other.enabled.is_some() {
            self.enabled = other.enabled;
        }
    }

    /// Executable form of [`Self::merged_option`].
    pub fn merge_option(earlier: &mut Option<Self>, later: Option<Self>)
        ensures
            *final(earlier) == Self::merged_option(*old(earlier), later),
    {
        if let Some(b) = later {
            match earlier {
                Some(a) => a.merge_with(b),
                None => {
                    *earlier = Some(b);
                },
            }
        }
    }
}

impl Default for PartialOrganizeImports {
    fn default() -> (r: Self)
        ensures
            r == Self::absent(),
    {
        PartialOrganizeImports {
            enabled: None,
        }
    }
}

} // verus!
