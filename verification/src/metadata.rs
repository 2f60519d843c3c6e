use vstd::prelude::*;

use crate::code::Code;
use crate::failure::{ConfigFailure, ConfigFailureModel, Failure, FailureModel, RemoteFailure,
    RemoteFailureModel};
use crate::suggestion::{Suggestion, SuggestionModel};

verus! {

/// Extra information attached to a classified failure: an optional
/// remediation [`Suggestion`] and an optional diagnostic [`Code`].
///
/// A record is built once per classification call and handed to the
/// caller; the empty record (both fields absent) is the outcome for any
/// failure the classifier does not recognize.
#[derive(Debug, PartialEq, Eq)]
pub struct Metadata {
    pub suggestion: Option<Suggestion>,
    pub code: Option<Code>,
}

/// The mathematical value of a [`Metadata`] record.
pub struct MetadataModel {
    pub suggestion: Option<SuggestionModel>,
    pub code: Option<Code>,
}

impl View for Metadata {
    type V = MetadataModel;

    open spec fn view(&self) -> MetadataModel {
        MetadataModel {
            suggestion: match self.suggestion {
                Some(suggestion) => Some(suggestion@),
                None => None,
            },
            code: self.code,
        }
    }
}

/// The metadata record with both fields absent.
pub open spec fn empty_metadata() -> MetadataModel {
    MetadataModel { suggestion: None, code: None }
}

/// The suggestion the catalog assigns to each remote-operation failure.
pub open spec fn remote_suggestion(failure: RemoteFailureModel) -> Option<SuggestionModel> {
    match failure {
        RemoteFailureModel::InvalidJson { .. }
        | RemoteFailureModel::InvalidHeaderName { .. }
        | RemoteFailureModel::InvalidHeaderValue { .. }
        | RemoteFailureModel::SendRequest { .. }
        | RemoteFailureModel::MalformedResponse { .. }
        | RemoteFailureModel::InvalidSeverity => Some(SuggestionModel::SubmitIssue),
        RemoteFailureModel::ExpectedFederatedGraph { .. } => Some(
            SuggestionModel::UseFederatedGraph,
        ),
        RemoteFailureModel::NoSchemaForVariant { graph, .. } => Some(
            SuggestionModel::RunGraphList { graph },
        ),
        RemoteFailureModel::NoSubgraphInGraph { valid_subgraphs, .. } => Some(
            SuggestionModel::ProvideValidSubgraph(valid_subgraphs),
        ),
        RemoteFailureModel::NoService { .. } => Some(SuggestionModel::CheckGraphNameAndAuth),
        RemoteFailureModel::AdhocError { .. } | RemoteFailureModel::GraphQl { .. } => None,
    }
}

/// The suggestion the catalog assigns to each local-configuration
/// failure. Only the "no config found" rule depends on whether the
/// configuration-home override variable is present.
pub open spec fn config_suggestion(
    failure: ConfigFailureModel,
    config_home_override_set: bool,
) -> Option<SuggestionModel> {
    match failure {
        ConfigFailureModel::NoNonSensitiveConfigFound { .. } => Some(
            SuggestionModel::RerunWithSensitive,
        ),
        ConfigFailureModel::CouldNotCreateConfigHome { .. }
        | ConfigFailureModel::DefaultConfigDirNotFound
        | ConfigFailureModel::InvalidOverrideConfigDir { .. } => Some(
            SuggestionModel::SetConfigHome,
        ),
        ConfigFailureModel::NoConfigFound { .. } => if config_home_override_set {
            Some(SuggestionModel::MigrateConfigHomeOrCreateConfig)
        } else {
            Some(SuggestionModel::CreateConfig)
        },
        ConfigFailureModel::ProfileNotFound { .. } => Some(SuggestionModel::ListProfiles),
        ConfigFailureModel::TomlDeserialization { .. }
        | ConfigFailureModel::TomlSerialization { .. }
        | ConfigFailureModel::IoError { .. } => Some(SuggestionModel::SubmitIssue),
    }
}

/// The metadata record derived from a failure: the first family the
/// failure belongs to decides, no variant assigns a code, and a failure
/// of neither family yields the empty record.
pub open spec fn classified(failure: FailureModel, config_home_override_set: bool) -> MetadataModel {
    match failure {
        FailureModel::Remote(remote) => MetadataModel {
            suggestion: remote_suggestion(remote),
            code: None,
        },
        FailureModel::Config(config) => MetadataModel {
            suggestion: config_suggestion(config, config_home_override_set),
            code: None,
        },
        FailureModel::Unrecognized { .. } => empty_metadata(),
    }
}

impl Default for Metadata {
    /// The empty record: no suggestion, no code.
    fn default() -> (metadata: Metadata)
        ensures
            metadata@ == empty_metadata(),
    {
        Metadata { suggestion: None, code: None }
    }
}

impl Metadata {
    /// Classifies `failure` into a metadata record.
    ///
    /// `config_home_override_set` reports whether the configuration-home
    /// override variable (named by
    /// [`crate::env::config_home_env_key`]) is present in the process
    /// environment, with any value; the caller must look it up fresh for
    /// every call, since the rule for "no config found" depends on it.
    pub fn from_failure(failure: &Failure, config_home_override_set: bool) -> (metadata: Metadata)
        ensures
            metadata@ == classified(failure@, config_home_override_set),
    {
        match failure {
            Failure::Remote(remote) => {
                let (suggestion, code): (Option<Suggestion>, Option<Code>) = match remote {
                    RemoteFailure::InvalidJson { .. }
                    | RemoteFailure::InvalidHeaderName { .. }
                    | RemoteFailure::InvalidHeaderValue { .. }
                    | RemoteFailure::SendRequest { .. }
                    | RemoteFailure::MalformedResponse { .. }
                    | RemoteFailure::InvalidSeverity => (Some(Suggestion::SubmitIssue), None),
                    RemoteFailure::ExpectedFederatedGraph { .. } => (
                        Some(Suggestion::UseFederatedGraph),
                        None,
                    ),
                    RemoteFailure::NoSchemaForVariant { graph, .. } => (
                        Some(Suggestion::RunGraphList { graph: graph.clone() }),
                        None,
                    ),
                    RemoteFailure::NoSubgraphInGraph { valid_subgraphs, .. } => (
                        Some(Suggestion::ProvideValidSubgraph(clone_names(valid_subgraphs))),
                        None,
                    ),
                    RemoteFailure::NoService { .. } => (
                        Some(Suggestion::CheckGraphNameAndAuth),
                        None,
                    ),
                    RemoteFailure::AdhocError { .. } | RemoteFailure::GraphQl { .. } => (
                        None,
                        None,
                    ),
                };
                Metadata { suggestion, code }
            },
            Failure::Config(config) => {
                let (suggestion, code): (Option<Suggestion>, Option<Code>) = match config {
                    ConfigFailure::NoNonSensitiveConfigFound { .. } => (
                        Some(Suggestion::RerunWithSensitive),
                        None,
                    ),
                    ConfigFailure::CouldNotCreateConfigHome { .. }
                    | ConfigFailure::DefaultConfigDirNotFound
                    | ConfigFailure::InvalidOverrideConfigDir { .. } => (
                        Some(Suggestion::SetConfigHome),
                        None,
                    ),
                    ConfigFailure::NoConfigFound { .. } => {
                        let suggestion = if config_home_override_set {
                            Some(Suggestion::MigrateConfigHomeOrCreateConfig)
                        } else {
                            Some(Suggestion::CreateConfig)
                        };
                        (suggestion, None)
                    },
                    ConfigFailure::ProfileNotFound { .. } => (
                        Some(Suggestion::ListProfiles),
                        None,
                    ),
                    ConfigFailure::TomlDeserialization { .. }
                    | ConfigFailure::TomlSerialization { .. }
                    | ConfigFailure::IoError { .. } => (Some(Suggestion::SubmitIssue), None),
                };
                Metadata { suggestion, code }
            },
            Failure::Unrecognized { .. } => Metadata { suggestion: None, code: None },
        }
    }
}

/// Law: classification yields the empty record for a failure of neither
/// recognized family; absence of a match is a valid outcome, not an
/// error.
pub proof fn lemma_unrecognized_is_empty(msg: Seq<char>, config_home_override_set: bool)
    ensures
        classified(FailureModel::Unrecognized { msg }, config_home_override_set)
            == empty_metadata(),
{
}

/// Law: no classification rule assigns a diagnostic code, whatever the
/// failure and the environment.
pub proof fn lemma_no_code_assigned(failure: FailureModel, config_home_override_set: bool)
    ensures
        classified(failure, config_home_override_set).code is None,
{
}

/// Law: a remote-operation failure classifies to exactly the pair the
/// catalog assigns its variant, independent of the environment; the
/// parametric variants carry their payload over verbatim, and the
/// invalid subgraph name never reaches the suggestion.
pub proof fn lemma_remote_classification(
    failure: RemoteFailureModel,
    config_home_override_set: bool,
)
    ensures
        classified(FailureModel::Remote(failure), config_home_override_set)
            == (MetadataModel { suggestion: remote_suggestion(failure), code: None }),
        (failure is InvalidJson || failure is InvalidHeaderName || failure is InvalidHeaderValue
            || failure is SendRequest || failure is MalformedResponse
            || failure is InvalidSeverity) ==> remote_suggestion(failure)
            == Some(SuggestionModel::SubmitIssue),
        failure is ExpectedFederatedGraph ==> remote_suggestion(failure)
            == Some(SuggestionModel::UseFederatedGraph),
        failure matches RemoteFailureModel::NoSchemaForVariant { graph, .. }
            ==> remote_suggestion(failure) == Some(SuggestionModel::RunGraphList { graph }),
        failure matches RemoteFailureModel::NoSubgraphInGraph { valid_subgraphs, .. }
            ==> remote_suggestion(failure)
                == Some(SuggestionModel::ProvideValidSubgraph(valid_subgraphs)),
        failure is NoService ==> remote_suggestion(failure)
            == Some(SuggestionModel::CheckGraphNameAndAuth),
        (failure is AdhocError || failure is GraphQl) ==> remote_suggestion(failure) is None,
{
}

/// Law: a local-configuration failure other than "no config found"
/// classifies to exactly the pair the catalog assigns its variant,
/// independent of the environment.
pub proof fn lemma_config_classification(
    failure: ConfigFailureModel,
    config_home_override_set: bool,
)
    ensures
        classified(FailureModel::Config(failure), config_home_override_set)
            == (MetadataModel {
                suggestion: config_suggestion(failure, config_home_override_set),
                code: None,
            }),
        failure is NoNonSensitiveConfigFound ==> config_suggestion(
            failure,
            config_home_override_set,
        ) == Some(SuggestionModel::RerunWithSensitive),
        (failure is CouldNotCreateConfigHome || failure is DefaultConfigDirNotFound
            || failure is InvalidOverrideConfigDir) ==> config_suggestion(
            failure,
            config_home_override_set,
        ) == Some(SuggestionModel::SetConfigHome),
        failure is ProfileNotFound ==> config_suggestion(failure, config_home_override_set)
            == Some(SuggestionModel::ListProfiles),
        (failure is TomlDeserialization || failure is TomlSerialization || failure is IoError)
            ==> config_suggestion(failure, config_home_override_set)
            == Some(SuggestionModel::SubmitIssue),
{
}

/// Law: the "no config found" rule depends only on whether the
/// configuration-home override variable is present: present, with any
/// value, yields the migrate-or-create suggestion; absent yields the
/// create-configuration suggestion.
pub proof fn lemma_no_config_found(dir: Seq<char>, config_home_override_set: bool)
    ensures
        classified(
            FailureModel::Config(ConfigFailureModel::NoConfigFound { dir }),
            config_home_override_set,
        ) == (MetadataModel {
            suggestion: Some(
                if config_home_override_set {
                    SuggestionModel::MigrateConfigHomeOrCreateConfig
                } else {
                    SuggestionModel::CreateConfig
                },
            ),
            code: None,
        }),
{
}

/// Law: classification is deterministic. Two records derived from the
/// same failure under the same environment state are equal.
pub proof fn lemma_classification_deterministic(
    failure: FailureModel,
    config_home_override_set: bool,
    first: MetadataModel,
    second: MetadataModel,
)
    requires
        first == classified(failure, config_home_override_set),
        second == classified(failure, config_home_override_set),
    ensures
        first == second,
{
}

/// Copies a list of names, so a suggestion can carry a snapshot of the
/// valid subgraph names independent of the originating failure.
fn clone_names(names: &Vec<String>) -> (copy: Vec<String>)
    ensures
        copy@ == names@,
{
    let mut copy: Vec<String> = Vec::new();
    let mut i: usize = 0;
    while i < names.len()
        invariant
            i <= names.len(),
            copy@ =~= names@.take(i as int),
        decreases names.len() - i,
    {
        copy.push(names[i].clone());
        i += 1;
    }
    proof {
        assert(copy@ =~= names@);
    }
    copy
}

} // verus!
