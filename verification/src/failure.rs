use vstd::prelude::*;

verus! {

/// A failure raised by a remote operation against the graph registry.
///
/// Payloads hold, as plain strings, everything the classifier reads out
/// of the failure; payloads the classifier ignores are kept so a failure
/// value carries its full description.
#[derive(Debug, Clone, PartialEq, Eq)]
pub enum RemoteFailure {
    /// The response body was not valid JSON.
    InvalidJson { msg: String },
    /// A request header name was rejected.
    InvalidHeaderName { msg: String },
    /// A request header value was rejected.
    InvalidHeaderValue { msg: String },
    /// The request could not be sent.
    SendRequest { msg: String },
    /// The response was missing an expected field.
    MalformedResponse { null_field: String },
    /// A reported severity level was not recognized.
    InvalidSeverity,
    /// The operation needs a federated graph, but the graph is not one.
    ExpectedFederatedGraph { graph: String },
    /// The requested variant of the graph has no schema.
    NoSchemaForVariant { graph: String, invalid_variant: String },
    /// The named subgraph is not part of the graph; the valid subgraph
    /// names are carried along.
    NoSubgraphInGraph { invalid_subgraph: String, valid_subgraphs: Vec<String> },
    /// No service is registered for the graph.
    NoService { graph: String },
    /// An ad-hoc failure carried only as a message.
    AdhocError { msg: String },
    /// A raw GraphQL error message.
    GraphQl { msg: String },
}

/// A failure raised by the local configuration and profile subsystem.
#[derive(Debug, Clone, PartialEq, Eq)]
pub enum ConfigFailure {
    /// The profile holds no non-sensitive configuration.
    NoNonSensitiveConfigFound { profile: String },
    /// The configuration home could not be created.
    CouldNotCreateConfigHome { msg: String },
    /// The platform's default configuration directory was not found.
    DefaultConfigDirNotFound,
    /// The configuration-home override names an unusable directory.
    InvalidOverrideConfigDir { dir: String },
    /// No configuration was found at all.
    NoConfigFound { dir: String },
    /// The named profile does not exist.
    ProfileNotFound { profile: String },
    /// Stored configuration could not be deserialized.
    TomlDeserialization { msg: String },
    /// Configuration could not be serialized for storage.
    TomlSerialization { msg: String },
    /// Reading or writing configuration failed.
    IoError { msg: String },
}

/// A failure captured for classification: one of the two recognized
/// families, or an unrecognized failure carried as its message alone.
#[derive(Debug, Clone, PartialEq, Eq)]
pub enum Failure {
    Remote(RemoteFailure),
    Config(ConfigFailure),
    Unrecognized { msg: String },
}

/// The mathematical value of a [`RemoteFailure`].
pub enum RemoteFailureModel {
    InvalidJson { msg: Seq<char> },
    InvalidHeaderName { msg: Seq<char> },
    InvalidHeaderValue { msg: Seq<char> },
    SendRequest { msg: Seq<char> },
    MalformedResponse { null_field: Seq<char> },
    InvalidSeverity,
    ExpectedFederatedGraph { graph: Seq<char> },
    NoSchemaForVariant { graph: Seq<char>, invalid_variant: Seq<char> },
    NoSubgraphInGraph { invalid_subgraph: Seq<char>, valid_subgraphs: Seq<Seq<char>> },
    NoService { graph: Seq<char> },
    AdhocError { msg: Seq<char> },
    GraphQl { msg: Seq<char> },
}

/// The mathematical value of a [`ConfigFailure`].
pub enum ConfigFailureModel {
    NoNonSensitiveConfigFound { profile: Seq<char> },
    CouldNotCreateConfigHome { msg: Seq<char> },
    DefaultConfigDirNotFound,
    InvalidOverrideConfigDir { dir: Seq<char> },
    NoConfigFound { dir: Seq<char> },
    ProfileNotFound { profile: Seq<char> },
    TomlDeserialization { msg: Seq<char> },
    TomlSerialization { msg: Seq<char> },
    IoError { msg: Seq<char> },
}

/// The mathematical value of a [`Failure`].
pub enum FailureModel {
    Remote(RemoteFailureModel),
    Config(ConfigFailureModel),
    Unrecognized { msg: Seq<char> },
}

impl View for RemoteFailure {
    type V = RemoteFailureModel;

    open spec fn view(&self) -> RemoteFailureModel {
        match self {
            RemoteFailure::InvalidJson { msg } => RemoteFailureModel::InvalidJson { msg: msg@ },
            RemoteFailure::InvalidHeaderName { msg } => RemoteFailureModel::InvalidHeaderName {
                msg: msg@,
            },
            RemoteFailure::InvalidHeaderValue { msg } => RemoteFailureModel::InvalidHeaderValue {
                msg: msg@,
            },
            RemoteFailure::SendRequest { msg } => RemoteFailureModel::SendRequest { msg: msg@ },
            RemoteFailure::MalformedResponse { null_field } => RemoteFailureModel::MalformedResponse {
                null_field: null_field@,
            },
            RemoteFailure::InvalidSeverity => RemoteFailureModel::InvalidSeverity,
            RemoteFailure::ExpectedFederatedGraph { graph } => RemoteFailureModel::ExpectedFederatedGraph {
                graph: graph@,
            },
            RemoteFailure::NoSchemaForVariant { graph, invalid_variant } => RemoteFailureModel::NoSchemaForVariant {
                graph: graph@,
                invalid_variant: invalid_variant@,
            },
            RemoteFailure::NoSubgraphInGraph { invalid_subgraph, valid_subgraphs } => RemoteFailureModel::NoSubgraphInGraph {
                invalid_subgraph: invalid_subgraph@,
                valid_subgraphs: valid_subgraphs.deep_view(),
            },
            RemoteFailure::NoService { graph } => RemoteFailureModel::NoService { graph: graph@ },
            RemoteFailure::AdhocError { msg } => RemoteFailureModel::AdhocError { msg: msg@ },
            RemoteFailure::GraphQl { msg } => RemoteFailureModel::GraphQl { msg: msg@ },
        }
    }
}

impl View for ConfigFailure {
    type V = ConfigFailureModel;

    open spec fn view(&self) -> ConfigFailureModel {
        match self {
            ConfigFailure::NoNonSensitiveConfigFound { profile } => ConfigFailureModel::NoNonSensitiveConfigFound {
                profile: profile@,
            },
            ConfigFailure::CouldNotCreateConfigHome { msg } => ConfigFailureModel::CouldNotCreateConfigHome {
                msg: msg@,
            },
            ConfigFailure::DefaultConfigDirNotFound => ConfigFailureModel::DefaultConfigDirNotFound,
            ConfigFailure::InvalidOverrideConfigDir { dir } => ConfigFailureModel::InvalidOverrideConfigDir {
                dir: dir@,
            },
            ConfigFailure::NoConfigFound { dir } => ConfigFailureModel::NoConfigFound { dir: dir@ },
            ConfigFailure::ProfileNotFound { profile } => ConfigFailureModel::ProfileNotFound {
                profile: profile@,
            },
            ConfigFailure::TomlDeserialization { msg } => ConfigFailureModel::TomlDeserialization {
                msg: msg@,
            },
            ConfigFailure::TomlSerialization { msg } => ConfigFailureModel::TomlSerialization {
                msg: msg@,
            },
            ConfigFailure::IoError { msg } => ConfigFailureModel::IoError { msg: msg@ },
        }
    }
}

impl View for Failure {
    type V = FailureModel;

    open spec fn view(&self) -> FailureModel {
        match self {
            Failure::Remote(remote) => FailureModel::Remote(remote@),
            Failure::Config(config) => FailureModel::Config(config@),
            Failure::Unrecognized { msg } => FailureModel::Unrecognized { msg: msg@ },
        }
    }
}

} // verus!
