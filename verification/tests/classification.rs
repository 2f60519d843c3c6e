use rover::code::Code;
use rover::failure::{ConfigFailure, Failure, RemoteFailure};
use rover::metadata::Metadata;
use rover::suggestion::Suggestion;

fn classify(failure: &Failure, config_home_override_set: bool) -> Metadata {
    Metadata::from_failure(failure, config_home_override_set)
}

fn expect_suggestion(failure: Failure, suggestion: Suggestion) {
    let metadata = classify(&failure, false);
    assert_eq!(
        metadata,
        Metadata { suggestion: Some(suggestion), code: None }
    );
}

#[test]
fn invalid_json_suggests_submit_issue() {
    expect_suggestion(
        Failure::Remote(RemoteFailure::InvalidJson { msg: String::from("unexpected token") }),
        Suggestion::SubmitIssue,
    );
}

#[test]
fn invalid_header_name_suggests_submit_issue() {
    expect_suggestion(
        Failure::Remote(RemoteFailure::InvalidHeaderName { msg: String::from("bad name") }),
        Suggestion::SubmitIssue,
    );
}

#[test]
fn invalid_header_value_suggests_submit_issue() {
    expect_suggestion(
        Failure::Remote(RemoteFailure::InvalidHeaderValue { msg: String::from("bad value") }),
        Suggestion::SubmitIssue,
    );
}

#[test]
fn send_request_suggests_submit_issue() {
    expect_suggestion(
        Failure::Remote(RemoteFailure::SendRequest { msg: String::from("connection reset") }),
        Suggestion::SubmitIssue,
    );
}

#[test]
fn malformed_response_suggests_submit_issue() {
    expect_suggestion(
        Failure::Remote(RemoteFailure::MalformedResponse { null_field: String::from("name") }),
        Suggestion::SubmitIssue,
    );
}

#[test]
fn invalid_severity_suggests_submit_issue() {
    expect_suggestion(
        Failure::Remote(RemoteFailure::InvalidSeverity),
        Suggestion::SubmitIssue,
    );
}

#[test]
fn expected_federated_graph_suggests_use_federated_graph() {
    expect_suggestion(
        Failure::Remote(RemoteFailure::ExpectedFederatedGraph {
            graph: String::from("my-graph"),
        }),
        Suggestion::UseFederatedGraph,
    );
}

#[test]
fn no_schema_for_variant_suggests_run_graph_list_with_graph_name() {
    expect_suggestion(
        Failure::Remote(RemoteFailure::NoSchemaForVariant {
            graph: String::from("my-graph"),
            invalid_variant: String::from("current"),
        }),
        Suggestion::RunGraphList { graph: String::from("my-graph") },
    );
}

#[test]
fn no_subgraph_in_graph_carries_valid_subgraphs_verbatim() {
    let failure = Failure::Remote(RemoteFailure::NoSubgraphInGraph {
        invalid_subgraph: String::from("products"),
        valid_subgraphs: vec![
            String::from("a"),
            String::from("b"),
            String::from("c"),
        ],
    });
    let metadata = classify(&failure, false);
    assert_eq!(
        metadata,
        Metadata {
            suggestion: Some(Suggestion::ProvideValidSubgraph(vec![
                String::from("a"),
                String::from("b"),
                String::from("c"),
            ])),
            code: None,
        }
    );
    if let Some(Suggestion::ProvideValidSubgraph(names)) = metadata.suggestion {
        assert!(!names.contains(&String::from("products")));
    } else {
        panic!("expected a provide-valid-subgraph suggestion");
    }
}

#[test]
fn no_subgraph_in_graph_with_empty_list_carries_empty_list() {
    expect_suggestion(
        Failure::Remote(RemoteFailure::NoSubgraphInGraph {
            invalid_subgraph: String::from("products"),
            valid_subgraphs: Vec::new(),
        }),
        Suggestion::ProvideValidSubgraph(Vec::new()),
    );
}

#[test]
fn no_service_suggests_check_graph_name_and_auth() {
    expect_suggestion(
        Failure::Remote(RemoteFailure::NoService { graph: String::from("my-graph") }),
        Suggestion::CheckGraphNameAndAuth,
    );
}

#[test]
fn adhoc_error_yields_empty_metadata() {
    let failure = Failure::Remote(RemoteFailure::AdhocError { msg: String::from("oops") });
    assert_eq!(classify(&failure, false), Metadata { suggestion: None, code: None });
}

#[test]
fn graphql_error_yields_empty_metadata() {
    let failure = Failure::Remote(RemoteFailure::GraphQl { msg: String::from("bad query") });
    assert_eq!(classify(&failure, false), Metadata { suggestion: None, code: None });
}

#[test]
fn no_non_sensitive_config_suggests_rerun_with_sensitive() {
    expect_suggestion(
        Failure::Config(ConfigFailure::NoNonSensitiveConfigFound {
            profile: String::from("default"),
        }),
        Suggestion::RerunWithSensitive,
    );
}

#[test]
fn could_not_create_config_home_suggests_set_config_home() {
    expect_suggestion(
        Failure::Config(ConfigFailure::CouldNotCreateConfigHome {
            msg: String::from("permission denied"),
        }),
        Suggestion::SetConfigHome,
    );
}

#[test]
fn default_config_dir_not_found_suggests_set_config_home() {
    expect_suggestion(
        Failure::Config(ConfigFailure::DefaultConfigDirNotFound),
        Suggestion::SetConfigHome,
    );
}

#[test]
fn invalid_override_config_dir_suggests_set_config_home() {
    expect_suggestion(
        Failure::Config(ConfigFailure::InvalidOverrideConfigDir {
            dir: String::from("/dev/null"),
        }),
        Suggestion::SetConfigHome,
    );
}

#[test]
fn no_config_found_with_override_set_suggests_migrate_or_create() {
    let failure = Failure::Config(ConfigFailure::NoConfigFound {
        dir: String::from("/home/me/.config"),
    });
    assert_eq!(
        classify(&failure, true),
        Metadata {
            suggestion: Some(Suggestion::MigrateConfigHomeOrCreateConfig),
            code: None,
        }
    );
}

#[test]
fn no_config_found_without_override_suggests_create_config() {
    let failure = Failure::Config(ConfigFailure::NoConfigFound {
        dir: String::from("/home/me/.config"),
    });
    assert_eq!(
        classify(&failure, false),
        Metadata { suggestion: Some(Suggestion::CreateConfig), code: None }
    );
}

#[test]
fn profile_not_found_suggests_list_profiles() {
    expect_suggestion(
        Failure::Config(ConfigFailure::ProfileNotFound { profile: String::from("staging") }),
        Suggestion::ListProfiles,
    );
}

#[test]
fn toml_deserialization_suggests_submit_issue() {
    expect_suggestion(
        Failure::Config(ConfigFailure::TomlDeserialization {
            msg: String::from("expected table"),
        }),
        Suggestion::SubmitIssue,
    );
}

#[test]
fn toml_serialization_suggests_submit_issue() {
    expect_suggestion(
        Failure::Config(ConfigFailure::TomlSerialization {
            msg: String::from("unsupported value"),
        }),
        Suggestion::SubmitIssue,
    );
}

#[test]
fn io_error_suggests_submit_issue() {
    expect_suggestion(
        Failure::Config(ConfigFailure::IoError { msg: String::from("disk full") }),
        Suggestion::SubmitIssue,
    );
}

#[test]
fn unrecognized_failure_yields_empty_metadata() {
    let failure = Failure::Unrecognized { msg: String::from("something else entirely") };
    assert_eq!(classify(&failure, false), Metadata { suggestion: None, code: None });
    assert_eq!(classify(&failure, true), Metadata { suggestion: None, code: None });
}

#[test]
fn unrecognized_failure_with_empty_message_yields_empty_metadata() {
    let failure = Failure::Unrecognized { msg: String::new() };
    assert_eq!(classify(&failure, false), Metadata { suggestion: None, code: None });
}

#[test]
fn classification_is_idempotent() {
    let failure = Failure::Remote(RemoteFailure::NoSubgraphInGraph {
        invalid_subgraph: String::from("products"),
        valid_subgraphs: vec![String::from("users"), String::from("orders")],
    });
    assert_eq!(classify(&failure, false), classify(&failure, false));

    let failure = Failure::Config(ConfigFailure::NoConfigFound { dir: String::from("cfg") });
    assert_eq!(classify(&failure, true), classify(&failure, true));
    assert_eq!(classify(&failure, false), classify(&failure, false));
}

#[test]
fn classification_with_empty_payloads_never_panics() {
    let failures = vec![
        Failure::Remote(RemoteFailure::InvalidJson { msg: String::new() }),
        Failure::Remote(RemoteFailure::MalformedResponse { null_field: String::new() }),
        Failure::Remote(RemoteFailure::NoSchemaForVariant {
            graph: String::new(),
            invalid_variant: String::new(),
        }),
        Failure::Remote(RemoteFailure::NoSubgraphInGraph {
            invalid_subgraph: String::new(),
            valid_subgraphs: Vec::new(),
        }),
        Failure::Config(ConfigFailure::NoConfigFound { dir: String::new() }),
        Failure::Unrecognized { msg: String::new() },
    ];
    for failure in &failures {
        let _ = classify(failure, false);
        let _ = classify(failure, true);
    }
}

#[test]
fn default_metadata_is_empty() {
    let metadata = Metadata::default();
    assert_eq!(metadata, Metadata { suggestion: None, code: None });
}

#[test]
fn code_is_never_assigned() {
    let failures = vec![
        Failure::Remote(RemoteFailure::InvalidSeverity),
        Failure::Config(ConfigFailure::DefaultConfigDirNotFound),
        Failure::Unrecognized { msg: String::from("other") },
    ];
    for failure in &failures {
        let metadata = classify(failure, false);
        assert_eq!(metadata.code, None::<Code>);
    }
}

#[test]
fn config_home_env_key_is_fixed() {
    assert_eq!(rover::env::config_home_env_key(), "APOLLO_CONFIG_HOME");
}
