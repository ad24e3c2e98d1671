//! What can go wrong while a configuration is loaded.

use crate::document::SchemaError;
use crate::extends::ExtendsError;
use crate::overrides::InvalidOverridePattern;
use crate::string_set::views;
use vstd::prelude::*;

verus! {

/// An `extends` entry that stands for no file.
#[derive(Debug, PartialEq, Eq)]
pub struct CantLoadExtendFile {
    /// The entry as it is written in the configuration.
    pub specifier: String,
    /// The path from which it was resolved.
    pub base_path: String,
    /// The places that were searched.
    pub searched: Vec<String>,
}

/// What a [`CantLoadExtendFile`] value stands for.
#[verifier::ext_equal]
pub struct CantLoadExtendFileView {
    pub specifier: Seq<char>,
    pub base_path: Seq<char>,
    pub searched: Seq<Seq<char>>,
}

impl View for CantLoadExtendFile {
    type V = CantLoadExtendFileView;

    open spec fn view(&self) -> CantLoadExtendFileView {
        CantLoadExtendFileView {
            specifier: self.specifier@,
            base_path: self.base_path@,
            searched: views(self.searched@),
        }
    }
}

/// Why no configuration came out of a load.
#[derive(Debug, PartialEq, Eq)]
pub enum ConfigurationDiagnostic {
    /// There is no configuration file at `path`, where the user said there
    /// was one.
    NotFound { path: String },
    /// The file at `path` cannot be read.
    Unreadable { path: String },
    /// The text of the file at `path` is no well-formed document.
    Malformed { path: String },
    /// The file at `path` holds a well-formed document that is no
    /// configuration: `error` names the key at which the schema is broken.
    Invalid { path: String, error: SchemaError },
    /// An `extends` entry stands for no file.
    CantLoadExtendFile(CantLoadExtendFile),
    /// A configuration file extends itself, directly or through others. The
    /// chain starts at the file that was loaded first; its last path is the one
    /// that occurs in it for the second time.
    ExtendsCycle { chain: Vec<String> },
    /// A pattern of the `overrides` list cannot be read.
    InvalidOverridePattern(InvalidOverridePattern),
}

impl ConfigurationDiagnostic {
    /// The diagnostic of a load whose `extends` chain cannot be resolved.
    pub fn from_extends(error: ExtendsError) -> (r: Self)
        ensures
            r == match error {
                ExtendsError::CantLoad(e) => ConfigurationDiagnostic::CantLoadExtendFile(e),
                ExtendsError::Cycle { chain } => ConfigurationDiagnostic::ExtendsCycle { chain },
                ExtendsError::Unreadable { path } => ConfigurationDiagnostic::Unreadable { path },
                ExtendsError::Malformed { path } => ConfigurationDiagnostic::Malformed { path },
                ExtendsError::Invalid { path, error } => ConfigurationDiagnostic::Invalid {
                    path,
                    error,
                },
            },
    {
        match error {
            ExtendsError::CantLoad(e) => ConfigurationDiagnostic::CantLoadExtendFile(e),
            ExtendsError::Cycle { chain } => ConfigurationDiagnostic::ExtendsCycle { chain },
            ExtendsError::Unreadable { path } => ConfigurationDiagnostic::Unreadable { path },
            ExtendsError::Malformed { path } => ConfigurationDiagnostic::Malformed { path },
            ExtendsError::Invalid { path, error } => ConfigurationDiagnostic::Invalid {
                path,
                error,
            },
        }
    }
}

} // verus!
