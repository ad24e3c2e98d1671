//! The decisions of a load that do not touch the disk: where to look for the
//! configuration file, what a missing or broken file means under each hint,
//! and in which order the sources are merged.

use crate::diagnostics::ConfigurationDiagnostic;
use crate::document::{Member, SchemaError, SchemaErrorView, Value};
use crate::schema::{
    configuration_keys, document_of, from_document, law_unknown_top_level_key_is_refused,
};
use crate::{
    fragment_views, Configuration, ConfigurationPathHint, ConfigurationPayload,
    ConfigurationPayloadView, PartialConfiguration, PartialConfigurationView,
};
use vstd::prelude::*;

verus! {

/// What was found at the place where the configuration file is looked for.
#[derive(Debug, PartialEq, Eq)]
pub enum Lookup {
    /// A configuration file, read and deserialized.
    Found(ConfigurationPayload),
    /// No configuration file.
    Missing,
    /// A file that cannot be read.
    Unreadable,
    /// A file whose text is no well-formed document.
    Malformed,
    /// The file at `path`, whose document is no configuration.
    Invalid { path: String, error: SchemaError },
}

/// How a lookup ends.
#[derive(Debug, PartialEq, Eq)]
pub enum LoadOutcome {
    /// Go on with this configuration file.
    Loaded(ConfigurationPayload),
    /// There is no configuration file, and there need not be one: go on with
    /// the built-in defaults. Nothing is reported.
    Defaults,
    /// The load fails.
    Failed(ConfigurationDiagnostic),
}

/// The file or directory in which the configuration file is looked for: the
/// path of the hint, and the working directory where the hint has none.
pub fn search_location(hint: &ConfigurationPathHint, working_directory: &str) -> (r: String)
    ensures
        r@ == match *hint {
            ConfigurationPathHint::NoHint => working_directory@,
            ConfigurationPathHint::FromLsp(path) => path@,
            ConfigurationPathHint::FromUser(path) => path@,
        },
{
    match hint {
        ConfigurationPathHint::NoHint => working_directory.to_owned(),
        ConfigurationPathHint::FromLsp(path) => path.clone(),
        ConfigurationPathHint::FromUser(path) => path.clone(),
    }
}

/// Decides how the lookup at `location` ends; `location` is the file that
/// was read or, where none was, the place that was searched. A file that was
/// found is loaded. A malformed file fails the load under every hint, and so does a
/// file whose document is no configuration: the diagnostic holds the path of
/// the file and the schema error, which names the key. A missing or unreadable
/// file fails the load only where the user named the path; otherwise the load
/// goes on with the defaults.
pub fn settle_lookup(hint: &ConfigurationPathHint, location: String, lookup: Lookup) -> (r:
    LoadOutcome)
    ensures
        match lookup {
            Lookup::Found(payload) => r == LoadOutcome::Loaded(payload),
            Lookup::Malformed => r matches LoadOutcome::Failed(
                ConfigurationDiagnostic::Malformed { path },
            ) && path == location,
            Lookup::Invalid { path, error } => r == LoadOutcome::Failed(
                ConfigurationDiagnostic::Invalid { path, error },
            ),
            Lookup::Missing => if *hint is FromUser {
                r matches LoadOutcome::Failed(ConfigurationDiagnostic::NotFound { path }) && path
                    == location
            } else {
                r is Defaults
            },
            Lookup::Unreadable => if *hint is FromUser {
                r matches LoadOutcome::Failed(ConfigurationDiagnostic::Unreadable { path }) && path
                    == location
            } else {
                r is Defaults
            },
        },
{
    match lookup {
        Lookup::Found(payload) => LoadOutcome::Loaded(payload),
        Lookup::Malformed => LoadOutcome::Failed(
            ConfigurationDiagnostic::Malformed { path: location },
        ),
        Lookup::Invalid { path, error } => LoadOutcome::Failed(
            ConfigurationDiagnostic::Invalid { path, error },
        ),
        Lookup::Missing => {
            if hint.is_from_user() {
                LoadOutcome::Failed(ConfigurationDiagnostic::NotFound { path: location })
            } else {
                LoadOutcome::Defaults
            }
        },
        Lookup::Unreadable => {
            if hint.is_from_user() {
                LoadOutcome::Failed(ConfigurationDiagnostic::Unreadable { path: location })
            } else {
                LoadOutcome::Defaults
            }
        },
    }
}

/// Reads the document of the configuration file at `path`: the file is found
/// with the fragment that the document holds, or it is invalid for what is
/// amiss in the document.
pub fn look_into(path: String, resolution_base: String, document: &Value) -> (r: Lookup)
    ensures
        match document_of(*document) {
            Ok(fragment) => r matches Lookup::Found(payload) && payload@ == (
                ConfigurationPayloadView {
                    deserialized: fragment,
                    configuration_file_path: path@,
                    external_resolution_base_path: resolution_base@,
                }
            ),
            Err(e) => r matches Lookup::Invalid { path: at, error } && at == path && error@ == e,
        },
{
    match from_document(document) {
        Ok(deserialized) => Lookup::Found(
            ConfigurationPayload {
                deserialized,
                configuration_file_path: path,
                external_resolution_base_path: resolution_base,
            },
        ),
        Err(error) => Lookup::Invalid { path, error },
    }
}

/// Decides how the lookup ends that found the document `document` in the file
/// at `path`: under every hint the file is loaded with the fragment that the
/// document holds, or the load fails with a diagnostic that holds the path of
/// the file and what is amiss in the document.
pub fn settle_document(
    hint: &ConfigurationPathHint,
    path: String,
    resolution_base: String,
    document: &Value,
) -> (r: LoadOutcome)
    ensures
        match document_of(*document) {
            Ok(fragment) => r matches LoadOutcome::Loaded(payload) && payload@ == (
                ConfigurationPayloadView {
                    deserialized: fragment,
                    configuration_file_path: path@,
                    external_resolution_base_path: resolution_base@,
                }
            ),
            Err(e) => r matches LoadOutcome::Failed(
                ConfigurationDiagnostic::Invalid { path: at, error },
            ) && at == path && error@ == e,
        },
{
    let location = path.clone();
    let lookup = look_into(path, resolution_base, document);
    settle_lookup(hint, location, lookup)
}

/// A document with a top-level key that the schema does not name fails the
/// load with what [`settle_document`] returns for an invalid document: a
/// diagnostic with the path of the file and the schema error, and the schema
/// error is that of an unknown key. Where no member before it has such a key,
/// the key named is the key of the member at `at`.
pub proof fn law_unknown_top_level_key_fails_the_load(members: Vec<Member>, at: int)
    requires
        0 <= at < members@.len(),
        !configuration_keys().contains(members@[at].key@),
    ensures
        document_of(Value::Object(members)) is Err,
        document_of(Value::Object(members))->Err_0 is UnknownKey,
        (forall|i: int|
            0 <= i < at ==> configuration_keys().contains((#[trigger] members@[i]).key@))
            ==> document_of(Value::Object(members)) == Err::<
            PartialConfigurationView,
            SchemaErrorView,
        >(SchemaErrorView::UnknownKey { key: members@[at].key@ }),
{
    law_unknown_top_level_key_is_refused(members@, at);
}

/// The sources of one load in their order of precedence, lowest first: the
/// built-in defaults, which set nothing; the fragments of the `extends` chain;
/// the configuration file itself; what the command line says.
pub open spec fn sources(
    extended: Seq<PartialConfigurationView>,
    local: PartialConfigurationView,
    command_line: PartialConfigurationView,
) -> Seq<PartialConfigurationView> {
    seq![PartialConfigurationView::absent()] + extended + seq![local, command_line]
}

/// Merges the sources of one load in their order of precedence and resolves
/// the outcome: the one authoritative configuration.
pub fn assemble(
    extended: Vec<PartialConfiguration>,
    local: PartialConfiguration,
    command_line: PartialConfiguration,
) -> (r: Configuration)
    ensures
        r@ == PartialConfigurationView::merged_all(
            sources(fragment_views(extended@), local@, command_line@),
        ).resolved(),
        r@.files.max_size > 0,
{
    let ghost chain = fragment_views(extended@);
    let mut fragments: Vec<PartialConfiguration> = Vec::new();
    fragments.push(PartialConfiguration::default());
    let mut extended = extended;
    fragments.append(&mut extended);
    fragments.push(local);
    fragments.push(command_line);
    assert(fragment_views(fragments@) =~= sources(chain, local@, command_line@));
    PartialConfiguration::resolve_all(fragments)
}

/// The command line has the last word: a scalar it sets is the scalar of the
/// merged sources, whatever the files say.
pub proof fn law_command_line_wins(
    extended: Seq<PartialConfigurationView>,
    local: PartialConfigurationView,
    command_line: PartialConfigurationView,
)
    ensures
        PartialConfigurationView::merged_all(sources(extended, local, command_line))
            == PartialConfigurationView::merged_all(
            seq![PartialConfigurationView::absent()] + extended + seq![local],
        ).merged(command_line),
{
    let all = sources(extended, local, command_line);
    assert(all.drop_last() =~= seq![PartialConfigurationView::absent()] + extended + seq![local]);
    assert(all.last() == command_line);
}

} // verus!
