//! The settings that decide which files the toolchain reads at all.

use crate::merge::{later_wins, or_default, resolve_scalar};
use crate::string_set::{
    clone_option, items_option, resolve_set, string_set_clone, string_set_empty, string_set_items,
};
use biome_deserialize::StringSet;
use vstd::prelude::*;

verus! {

/// The largest source file read when nothing else is configured: 1 MiB.
pub const DEFAULT_FILE_SIZE_LIMIT: u64 = 1024 * 1024;

/// A size limit in bytes. It is never zero.
#[derive(Clone, Copy, Debug, PartialEq, Eq)]
pub struct FileSizeLimit {
    bytes: u64,
}

impl View for FileSizeLimit {
    type V = u64;

    closed spec fn view(&self) -> u64 {
        self.bytes
    }
}

impl FileSizeLimit {
    #[verifier::type_invariant]
    spec fn positive(self) -> bool {
        self.bytes > 0
    }

    /// The limit of `bytes` bytes; there is none of zero bytes.
    pub fn new(bytes: u64) -> (r: Option<Self>)
        ensures
            bytes == 0 ==> r is None,
            bytes > 0 ==> r is Some && r->0@ == bytes,
    {
        if bytes == 0 {
            None
        } else {
            Some(FileSizeLimit { bytes })
        }
    }

    /// The limit in bytes.
    pub fn get(&self) -> (r: u64)
        ensures
            r == self@,
            r > 0,
    {
        proof {
            use_type_invariant(self);
        }
        self.bytes
    }

    /// The view of an optional limit.
    pub open spec fn view_option(limit: Option<Self>) -> Option<u64> {
        match limit {
            Some(l) => Some(l@),
            None => None,
        }
    }
}

impl Default for FileSizeLimit {
    fn default() -> (r: Self)
        ensures
            r@ == DEFAULT_FILE_SIZE_LIMIT,
    {
        FileSizeLimit { bytes: DEFAULT_FILE_SIZE_LIMIT }
    }
}

/// What a [`FilesConfiguration`] value stands for.
#[verifier::ext_equal]
pub struct FilesConfigurationView {
    pub max_size: u64,
    pub ignore: Seq<Seq<char>>,
    pub includes: Seq<Seq<char>>,
    pub ignore_unknown: bool,
}

impl FilesConfigurationView {
    /// The built-in settings: files up to 1 MiB, no pattern to ignore or to
    /// includes, and a diagnostic for every file of unknown kind.
    pub open spec fn hard_default() -> Self {
        FilesConfigurationView {
            max_size: DEFAULT_FILE_SIZE_LIMIT,
            ignore: Seq::empty(),
            includes: Seq::empty(),
            ignore_unknown: false,
        }
    }
}

/// What a [`PartialFilesConfiguration`] value stands for.
#[verifier::ext_equal]
pub struct PartialFilesConfigurationView {
    pub max_size: Option<u64>,
    pub ignore: Option<Seq<Seq<char>>>,
    pub includes: Option<Seq<Seq<char>>>,
    pub ignore_unknown: Option<bool>,
}

impl PartialFilesConfigurationView {
    /// The fragment that sets nothing.
    pub open spec fn absent() -> Self {
        PartialFilesConfigurationView {
            max_size: None,
            ignore: None,
            includes: None,
            ignore_unknown: None,
        }
    }

    /// `self` overlaid with `later`, field by field. A set of patterns is one
    /// value: where `later` has one, it replaces the earlier set whole.
    pub open spec fn merged(self, later: Self) -> Self {
        PartialFilesConfigurationView {
            max_size: later_wins(self.max_size, later.max_size),
            ignore: later_wins(self.ignore, later.ignore),
            includes: later_wins(self.includes, later.includes),
            ignore_unknown: later_wins(self.ignore_unknown, later.ignore_unknown),
        }
    }

    /// Overlays an optional fragment on another.
    pub open spec fn merged_option(earlier: Option<Self>, later: Option<Self>) -> Option<Self> {
        match (earlier, later) {
            (Some(a), Some(b)) => Some(a.merged(b)),
            (None, Some(b)) => Some(b),
            (_, None) => earlier,
        }
    }

    /// Every absent field replaced by its built-in default.
    pub open spec fn resolved(self) -> FilesConfigurationView {
        let d = FilesConfigurationView::hard_default();
        FilesConfigurationView {
            max_size: or_default(self.max_size, d.max_size),
            ignore: or_default(self.ignore, d.ignore),
            includes: or_default(self.includes, d.includes),
            ignore_unknown: or_default(self.ignore_unknown, d.ignore_unknown),
        }
    }

    /// What an optional fragment resolves to: an absent one gives the built-in
    /// defaults.
    pub open spec fn resolved_option(fragment: Option<Self>) -> FilesConfigurationView {
        match fragment {
            Some(f) => f.resolved(),
            None => FilesConfigurationView::hard_default(),
        }
    }

    /// Of two fragments merged in this order, the later one decides every field
    /// it sets and the earlier one every other. A field that neither sets
    /// resolves to its built-in default; for the size limit that is 1 MiB.
    pub proof fn law_later_wins(a: Self, b: Self)
        ensures
            b.max_size is Some ==> a.merged(b).max_size == b.max_size,
            b.max_size is None ==> a.merged(b).max_size == a.max_size,
            a.max_size is None && b.max_size is None ==> a.merged(b).resolved().max_size
                == 1_048_576,
            b.ignore is Some ==> a.merged(b).ignore == b.ignore,
            b.ignore is None ==> a.merged(b).ignore == a.ignore,
            a.ignore is None && b.ignore is None ==> a.merged(b).resolved().ignore
                == Seq::<Seq<char>>::empty(),
            b.includes is Some ==> a.merged(b).includes == b.includes,
            b.includes is None ==> a.merged(b).includes == a.includes,
            a.includes is None && b.includes is None ==> a.merged(b).resolved().includes
                == Seq::<Seq<char>>::empty(),
            b.ignore_unknown is Some ==> a.merged(b).ignore_unknown == b.ignore_unknown,
            b.ignore_unknown is None ==> a.merged(b).ignore_unknown == a.ignore_unknown,
            a.ignore_unknown is None && b.ignore_unknown is None ==> !a.merged(
                b,
            ).resolved().ignore_unknown,
    {
    }
}

/// The configuration of the filesystem, every field with a value.
#[derive(Debug, PartialEq, Eq)]
pub struct FilesConfiguration {
    /// The maximum allowed size for source code files in bytes. Larger files
    /// are skipped.
    pub max_size: FileSizeLimit,
    /// Unix shell style patterns of the files and folders to skip.
    pub ignore: StringSet,
    /// Unix shell style patterns of the only files and folders to handle.
    pub includes: StringSet,
    /// Emit no diagnostics for files of a kind the toolchain does not know.
    pub ignore_unknown: bool,
}

impl View for FilesConfiguration {
    type V = FilesConfigurationView;

    open spec fn view(&self) -> FilesConfigurationView {
        FilesConfigurationView {
            max_size: self.max_size@,
            ignore: string_set_items(self.ignore),
            includes: string_set_items(self.includes),
            ignore_unknown: self.ignore_unknown,
        }
    }
}

impl Default for FilesConfiguration {
    fn default() -> (r: Self)
        ensures
            r@ == FilesConfigurationView::hard_default(),
    {
        FilesConfiguration {
            max_size: FileSizeLimit::default(),
            ignore: string_set_empty(),
            includes: string_set_empty(),
            ignore_unknown: false,
        }
    }
}

impl Clone for FilesConfiguration {
    fn clone(&self) -> (r: Self)
        ensures
            r@ == self@,
    {
        FilesConfiguration {
            max_size: self.max_size,
            ignore: string_set_clone(&self.ignore),
            includes: string_set_clone(&self.includes),
            ignore_unknown: self.ignore_unknown,
        }
    }
}

/// The configuration of the filesystem as a fragment supplies it.
#[derive(Debug, PartialEq, Eq)]
pub struct PartialFilesConfiguration {
    pub max_size: Option<FileSizeLimit>,
    pub ignore: Option<StringSet>,
    pub includes: Option<StringSet>,
    pub ignore_unknown: Option<bool>,
}

impl View for PartialFilesConfiguration {
    type V = PartialFilesConfigurationView;

    open spec fn view(&self) -> PartialFilesConfigurationView {
        PartialFilesConfigurationView {
            max_size: FileSizeLimit::view_option(self.max_size),
            ignore: items_option(self.ignore),
            includes: items_option(self.includes),
            ignore_unknown: self.ignore_unknown,
        }
    }
}

impl Default for PartialFilesConfiguration {
    fn default() -> (r: Self)
        ensures
            r@ == PartialFilesConfigurationView::absent(),
    {
        PartialFilesConfiguration {
            max_size: None,
            ignore: None,
            includes: None,
            ignore_unknown: None,
        }
    }
}

impl Clone for PartialFilesConfiguration {
    fn clone(&self) -> (r: Self)
        ensures
            r@ == self@,
    {
        PartialFilesConfiguration {
            max_size: self.max_size,
            ignore: clone_option(&self.ignore),
            includes: clone_option(&self.includes),
            ignore_unknown: self.ignore_unknown,
        }
    }
}

impl PartialFilesConfiguration {
    /// The view of an optional fragment.
    pub open spec fn view_option(fragment: Option<Self>) -> Option<PartialFilesConfigurationView> {
        match fragment {
            Some(f) => Some(f@),
            None => None,
        }
    }

    /// The full configuration of the filesystem this fragment stands for. Its
    /// size limit is positive.
    pub fn get_files_configuration(&self) -> (r: FilesConfiguration)
        ensures
            r@ == self@.resolved(),
            r@.max_size > 0,
    {
        let max_size = match self.max_size {
            Some(limit) => limit,
            None => FileSizeLimit::default(),
        };
        let bytes = max_size.get();
        FilesConfiguration {
            max_size,
            ignore: resolve_set(&self.ignore),
            includes: resolve_set(&self.includes),
            ignore_unknown: resolve_scalar(self.ignore_unknown, false),
        }
    }

    /// Executable form of [`PartialFilesConfigurationView::resolved_option`].
    pub fn resolve_option(fragment: &Option<Self>) -> (r: FilesConfiguration)
        ensures
            r@ == PartialFilesConfigurationView::resolved_option(Self::view_option(*fragment)),
            r@.max_size > 0,
    {
        match fragment {
            Some(f) => f.get_files_configuration(),
            None => FilesConfiguration::default(),
        }
    }

    /// Overlays `other`, the fragment of higher precedence, on `self`.
    pub fn merge_with(&mut self, other: Self)
        ensures
            final(self)@ == old(self)@.merged(other@),
    {
        if other.max_size.is_some() {
            self.max_size = other.max_size;
        }
        if other.ignore.is_some() {
            self.ignore = other.ignore;
        }
        if other.includes.is_some() {
            self.includes = other.includes;
        }
        if other.ignore_unknown.is_some() {
            self.ignore_unknown = other.ignore_unknown;
        }
    }

    /// Executable form of [`PartialFilesConfigurationView::merged_option`].
    pub fn merge_option(earlier: &mut Option<Self>, later: Option<Self>)
        ensures
            Self::view_option(*final(earlier)) == PartialFilesConfigurationView::merged_option(
                Self::view_option(*old(earlier)),
                Self::view_option(later),
            ),
    {
        if let Some(b) = later {
            match earlier {
                Some(a) => a.merge_with(b),
                None => {
                    *earlier = Some(b);
                },
            }
        }
    }

    /// A copy of an optional fragment.
    pub fn clone_option(fragment: &Option<Self>) -> (r: Option<Self>)
        ensures
            Self::view_option(r) == Self::view_option(*fragment),
    {
        match fragment {
            Some(f) => Some(f.clone()),
            None => None,
        }
    }
}

} // verus!
