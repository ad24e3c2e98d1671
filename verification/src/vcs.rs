//! The integration with a version control system. It is off unless a fragment
//! switches it on.

use crate::merge::{later_wins, or_default, resolve_scalar};
use vstd::prelude::*;

verus! {

/// The version control systems the toolchain can talk to.
#[derive(Clone, Copy, Debug, PartialEq, Eq)]
pub enum VcsClientKind {
    Git,
}

/// The settings of the version control integration, every field with a value.
#[derive(Clone, Copy, Debug, PartialEq, Eq)]
pub struct VcsConfiguration {
    pub enabled: bool,
    /// Which client to talk to.
    pub client_kind: VcsClientKind,
    /// Skip the files the client's ignore file lists.
    pub use_ignore_file: bool,
}

impl VcsConfiguration {
    /// The built-in settings of the version control integration.
    pub open spec fn hard_default() -> Self {
        VcsConfiguration {
            enabled: false,
            client_kind: VcsClientKind::Git,
            use_ignore_file: false,
        }
    }
}

impl Default for VcsConfiguration {
    fn default() -> (r: Self)
        ensures
            r == Self::hard_default(),
    {
        VcsConfiguration {
            enabled: false,
            client_kind: VcsClientKind::Git,
            use_ignore_file: false,
        }
    }
}

/// The settings of the version control integration as a fragment supplies
/// them: every field may be absent.
#[derive(Clone, Copy, Debug, PartialEq, Eq)]
pub struct PartialVcsConfiguration {
    pub enabled: Option<bool>,
    /// Which client to talk to.
    pub client_kind: Option<VcsClientKind>,
    /// Skip the files the client's ignore file lists.
    pub use_ignore_file: Option<bool>,
}

impl PartialVcsConfiguration {
    /// The fragment that sets nothing.
    pub open spec fn absent() -> Self {
        PartialVcsConfiguration {
            enabled: None,
            client_kind: None,
            use_ignore_file: None,
        }
    }

    /// `self` overlaid with `later`, field by field.
    pub open spec fn merged(self, later: Self) -> Self {
        PartialVcsConfiguration {
            enabled: later_wins(self.enabled, later.enabled),
            client_kind: later_wins(self.client_kind, later.client_kind),
            use_ignore_file: later_wins(self.use_ignore_file, later.use_ignore_file),
        }
    }

    /// Overlays an optional fragment on another: where both are present they
    /// merge field by field, otherwise the one that is present stays.
    pub open spec fn merged_option(earlier: Option<Self>, later: Option<Self>) -> Option<Self> {
        match (earlier, later) {
            (Some(a), Some(b)) => Some(a.merged(b)),
            (None, Some(b)) => Some(b),
            (_, None) => earlier,
        }
    }

    /// Every absent field replaced by its built-in default.
    pub open spec fn resolved(self) -> VcsConfiguration {
        let d = VcsConfiguration::hard_default();
        VcsConfiguration {
            enabled: or_default(self.enabled, d.enabled),
            client_kind: or_default(self.client_kind, d.client_kind),
            use_ignore_file: or_default(self.use_ignore_file, d.use_ignore_file),
        }
    }

    /// What an optional fragment resolves to: an absent one gives the built-in
    /// defaults.
    pub open spec fn resolved_option(fragment: Option<Self>) -> VcsConfiguration {
        match fragment {
            Some(f) => f.resolved(),
            None => VcsConfiguration::hard_default(),
        }
    }

    /// Of two fragments merged in this order, the later one decides every field
    /// it sets and the earlier one every other. A field that neither sets
    /// resolves to its built-in default.
    pub proof fn law_later_wins(a: Self, b: Self)
        ensures
            b.enabled is Some ==> a.merged(b).enabled == b.enabled,
            b.enabled is None ==> a.merged(b).enabled == a.enabled,
            a.enabled is None && b.enabled is None ==> a.merged(b).resolved().enabled
                == VcsConfiguration::hard_default().enabled,
            b.client_kind is Some ==> a.merged(b).client_kind == b.client_kind,
            b.client_kind is None ==> a.merged(b).client_kind == a.client_kind,
            a.client_kind is None && b.client_kind is None ==> a.merged(b).resolved().client_kind
                == VcsConfiguration::hard_default().client_kind,
            b.use_ignore_file is Some ==> a.merged(b).use_ignore_file == b.use_ignore_file,
            b.use_ignore_file is None ==> a.merged(b).use_ignore_file == a.use_ignore_file,
            a.use_ignore_file is None && b.use_ignore_file is None
                ==> a.merged(b).resolved().use_ignore_file
                == VcsConfiguration::hard_default().use_ignore_file,
    {
    }

    /// Whether the fragment switches the integration on in so many words.
    pub fn is_enabled(&self) -> (r: bool)
        ensures
            r == (self.enabled == Some(true)),
    {
        matches!(self.enabled, Some(true))
    }

    /// The integration counts as off unless the fragment switches it on.
    pub fn is_disabled(&self) -> (r: bool)
        ensures
            r == (self.enabled != Some(true)),
    {
        !self.is_enabled()
    }

    /// The full settings of the version control integration this fragment stands for.
    pub fn get_vcs_configuration(&self) -> (r: VcsConfiguration)
        ensures
            r == self.resolved(),
    {
        let d = VcsConfiguration::default();
        VcsConfiguration {
            enabled: resolve_scalar(self.enabled, d.enabled),
            client_kind: resolve_scalar(self.client_kind, d.client_kind),
            use_ignore_file: resolve_scalar(self.use_ignore_file, d.use_ignore_file),
        }
    }

    /// Executable form of [`Self::resolved_option`].
    pub fn resolve_option(fragment: &Option<Self>) -> (r: VcsConfiguration)
        ensures
            r == Self::resolved_option(*fragment),
    {
        match fragment {
            Some(f) => f.get_vcs_configuration(),
            None => VcsConfiguration::default(),
        }
    }

    /// Overlays `other`, the fragment of higher precedence, on `self`.
    pub fn merge_with(&mut self, other: Self)
        ensures
            *final(self) == old(self).merged(other),
    {
        if other.enabled.is_some() {
            self.enabled = other.enabled;
        }
        if other.client_kind.is_some() {
            self.client_kind = other.client_kind;
        }
        if other.use_ignore_file.is_some() {
            self.use_ignore_file = other.use_ignore_file;
        }
    }

    /// Executable form of [`Self::merged_option`].
    pub fn merge_option(earlier: &mut Option<Self>, later: Option<Self>)
        ensures
            *final(earlier) == Self::merged_option(*old(earlier), later),
    {
        if let Some(b) = later {
            match earlier {
                Some(a) => a.merge_with(b),
                None => {
                    *earlier = Some(b);
                },
            }
        }
    }
}

impl Default for PartialVcsConfiguration {
    fn default() -> (r: Self)
        ensures
            r == Self::absent(),
    {
        PartialVcsConfiguration {
            enabled: None,
            client_kind: None,
            use_ignore_file: None,
        }
    }
}

} // verus!
