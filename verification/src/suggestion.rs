use vstd::prelude::*;

verus! {

/// Structured, user-actionable remediation advice attached to a classified
/// failure.
///
/// Stateless variants carry no payload; parametric variants carry a
/// snapshot of data copied out of the originating failure, so a
/// `Suggestion` stays valid after that failure is discarded.
#[derive(Debug, Clone, PartialEq, Eq)]
pub enum Suggestion {
    /// Ask the user to file an issue against the tool.
    SubmitIssue,
    /// The operation expected a federated graph but found a non-federated
    /// one.
    UseFederatedGraph,
    /// List the variants of the named graph.
    RunGraphList { graph: String },
    /// Offer the valid subgraph names as alternatives.
    ProvideValidSubgraph(Vec<String>),
    /// Re-check the graph name and the authentication token.
    CheckGraphNameAndAuth,
    /// Re-run the command with sensitive values disclosed.
    RerunWithSensitive,
    /// Set the configuration-home override to a usable directory.
    SetConfigHome,
    /// Migrate the old configuration home, or create a new configuration.
    MigrateConfigHomeOrCreateConfig,
    /// Create a configuration file.
    CreateConfig,
    /// List the configured profiles.
    ListProfiles,
}

/// The mathematical value of a [`Suggestion`]: the same variants, with
/// each string payload taken as its character sequence.
pub enum SuggestionModel {
    SubmitIssue,
    UseFederatedGraph,
    RunGraphList { graph: Seq<char> },
    ProvideValidSubgraph(Seq<Seq<char>>),
    CheckGraphNameAndAuth,
    RerunWithSensitive,
    SetConfigHome,
    MigrateConfigHomeOrCreateConfig,
    CreateConfig,
    ListProfiles,
}

impl View for Suggestion {
    type V = SuggestionModel;

    open spec fn view(&self) -> SuggestionModel {
        match self {
            Suggestion::SubmitIssue => SuggestionModel::SubmitIssue,
            Suggestion::UseFederatedGraph => SuggestionModel::UseFederatedGraph,
            Suggestion::RunGraphList { graph } => SuggestionModel::RunGraphList { graph: graph@ },
            Suggestion::ProvideValidSubgraph(valid) => SuggestionModel::ProvideValidSubgraph(
                valid.deep_view(),
            ),
            Suggestion::CheckGraphNameAndAuth => SuggestionModel::CheckGraphNameAndAuth,
            Suggestion::RerunWithSensitive => SuggestionModel::RerunWithSensitive,
            Suggestion::SetConfigHome => SuggestionModel::SetConfigHome,
            Suggestion::MigrateConfigHomeOrCreateConfig => SuggestionModel::MigrateConfigHomeOrCreateConfig,
            Suggestion::CreateConfig => SuggestionModel::CreateConfig,
            Suggestion::ListProfiles => SuggestionModel::ListProfiles,
        }
    }
}

} // verus!
