use calibre_context_server::{
    is_recognized, resolve, LaunchSpec, LookupError, ProjectContext, ServerIdentifier,
};

fn expect_launch(identifier: &str, context: ProjectContext) -> LaunchSpec {
    match resolve(&ServerIdentifier(identifier.to_string()), &context) {
        Ok(launch) => launch,
        Err(error) => panic!("expected a launch spec, got failure: {}", error.message()),
    }
}

fn expect_failure(identifier: &str, context: ProjectContext) -> LookupError {
    match resolve(&ServerIdentifier(identifier.to_string()), &context) {
        Ok(_) => panic!("expected a failure for identifier {:?}", identifier),
        Err(error) => error,
    }
}

#[test]
fn recognized_identifier_resolves() {
    let launch = expect_launch("calibre-mcp", ProjectContext { handle: 0 });
    assert_eq!(launch.command, "uv");
    assert_eq!(launch.args, vec!["run".to_string(), "calibre-mcp".to_string()]);
    assert!(launch.env.is_empty());
}

#[test]
fn unknown_identifier_fails() {
    let error = expect_failure("unknown-server", ProjectContext { handle: 0 });
    assert_eq!(error.identifier, "unknown-server");
    assert_eq!(error.message(), "Unknown server: unknown-server");
}

#[test]
fn empty_identifier_fails() {
    let error = expect_failure("", ProjectContext { handle: 0 });
    assert_eq!(error.identifier, "");
    assert_eq!(error.message(), "Unknown server: ");
}

#[test]
fn case_variants_are_rejected() {
    for identifier in ["CALIBRE-MCP", "Calibre-Mcp", "calibre-MCP", "Calibre-mcp"] {
        let error = expect_failure(identifier, ProjectContext { handle: 0 });
        assert_eq!(error.identifier, identifier);
        assert!(error.message().contains(identifier));
    }
}

#[test]
fn near_matches_are_rejected() {
    for identifier in [
        "calibre",
        "calibre-mc",
        "calibre-mcp2",
        " calibre-mcp",
        "calibre-mcp ",
        "xcalibre-mcpx",
        "alibre-mcp",
    ] {
        let error = expect_failure(identifier, ProjectContext { handle: 0 });
        assert_eq!(error.identifier, identifier);
        assert_eq!(error.message(), format!("Unknown server: {}", identifier));
    }
}

#[test]
fn resolution_is_repeatable() {
    let first = expect_launch("calibre-mcp", ProjectContext { handle: 1 });
    let second = expect_launch("calibre-mcp", ProjectContext { handle: 2 });
    assert_eq!(first.command, second.command);
    assert_eq!(first.args, second.args);
    assert_eq!(first.env, second.env);

    let first = expect_failure("some-other-server", ProjectContext { handle: 1 });
    let second = expect_failure("some-other-server", ProjectContext { handle: 2 });
    assert_eq!(first.identifier, second.identifier);
    assert_eq!(first.message(), second.message());
}

#[test]
fn recognition_is_exact() {
    assert!(is_recognized(&ServerIdentifier("calibre-mcp".to_string())));
    assert!(!is_recognized(&ServerIdentifier("CALIBRE-MCP".to_string())));
    assert!(!is_recognized(&ServerIdentifier("calibre-mcpx".to_string())));
    assert!(!is_recognized(&ServerIdentifier("".to_string())));
}

#[test]
fn message_embeds_odd_identifiers_verbatim() {
    let identifier = "sp aced/We--ird!";
    let error = expect_failure(identifier, ProjectContext { handle: 7 });
    assert_eq!(error.message(), format!("Unknown server: {}", identifier));
}
