use bridge_mcp::config::{BridgeConfig, HostConfig};
use bridge_mcp::error::BridgeError;
use bridge_mcp::tool::{StandardTool, ToolHandler};
use bridge_mcp::tools::ssh_helm_lint::{HelmLintTool, SshHelmLintArgs, SshHelmLintHandler};

fn test_host_config() -> HostConfig {
    HostConfig {
        hostname: "test".to_string(),
        port: 22,
        user: "test".to_string(),
        description: None,
        proxy_jump: None,
        tags: Vec::new(),
    }
}

fn empty_config() -> BridgeConfig {
    BridgeConfig { hosts: Vec::new(), awx: None }
}

#[test]
fn ssh_helm_lint_test_missing_arguments() {
    let handler = SshHelmLintHandler::new();
    let config = empty_config();
    let result = handler.prepare(None, &config);
    assert!(result.is_err());
    match result.unwrap_err() {
        BridgeError::McpMissingParam { param } => assert_eq!(param, "arguments"),
        e => panic!("Expected McpMissingParam, got: {e:?}"),
    }
}

#[test]
fn ssh_helm_lint_test_unknown_host() {
    let handler = SshHelmLintHandler::new();
    let config = empty_config();
    let args = SshHelmLintArgs {
        host: "nonexistent".to_string(),
        chart_path: "/path/to/chart".to_string(),
        strict: None,
        values_files: None,
        set_values: None,
        quiet: None,
        helm_bin: None,
        timeout_seconds: None,
        max_output: None,
        save_output: None,
    };
    let result = handler.prepare(Some(Ok(args)), &config);
    assert!(result.is_err());
    match result.unwrap_err() {
        BridgeError::UnknownHost { host } => assert_eq!(host, "nonexistent"),
        e => panic!("Expected UnknownHost, got: {e:?}"),
    }
}

#[test]
fn ssh_helm_lint_test_schema() {
    let handler = SshHelmLintHandler::new();
    assert_eq!(handler.name(), "ssh_helm_lint");
    assert!(!handler.description().is_empty());
    let schema = handler.schema();
    assert_eq!(schema.name, "ssh_helm_lint");
    let schema_json: serde_json::Value = serde_json::from_str(schema.input_schema).unwrap();
    let required = schema_json["required"].as_array().unwrap();
    assert!(required.contains(&serde_json::Value::from("host")));
    assert!(required.contains(&serde_json::Value::from("chart_path")));
}

#[test]
fn ssh_helm_lint_test_schema_optional_fields() {
    let handler = SshHelmLintHandler::new();
    let schema = handler.schema();
    let schema_json: serde_json::Value = serde_json::from_str(schema.input_schema).unwrap();
    let properties = schema_json["properties"].as_object().unwrap();
    assert!(properties.contains_key("strict"));
    assert!(properties.contains_key("values_files"));
    assert!(properties.contains_key("set_values"));
    assert!(properties.contains_key("quiet"));
    assert!(properties.contains_key("helm_bin"));
    assert!(properties.contains_key("timeout_seconds"));
    assert!(properties.contains_key("max_output"));
}

#[test]
fn ssh_helm_lint_test_args_debug() {
    let args = SshHelmLintArgs {
        host: "server1".to_string(),
        chart_path: "/opt/charts/myapp".to_string(),
        strict: None,
        values_files: None,
        set_values: None,
        quiet: None,
        helm_bin: None,
        timeout_seconds: None,
        max_output: None,
        save_output: None,
    };
    let debug_str = format!("{args:?}");
    assert!(debug_str.contains("SshHelmLintArgs"));
}

#[test]
fn ssh_helm_lint_test_invalid_json_type() {
    let handler = SshHelmLintHandler::new();
    let config = empty_config();
    let result = handler.prepare(Some(Err("invalid type: integer, expected a string".to_string())), &config);
    assert!(result.is_err());
    match result.unwrap_err() {
        BridgeError::McpInvalidRequest(_) => {}
        e => panic!("Expected McpInvalidRequest, got: {e:?}"),
    }
}

#[test]
fn ssh_helm_lint_test_build_command_basic() {
    let args = SshHelmLintArgs {
        host: "server1".to_string(),
        chart_path: "/opt/charts/myapp".to_string(),
        strict: None,
        values_files: None,
        set_values: None,
        quiet: None,
        helm_bin: Some("helm".to_string()),
        timeout_seconds: None,
        max_output: None,
        save_output: None,
    };
    let cmd = HelmLintTool::build_command(&args, &test_host_config()).unwrap();
    assert!(cmd.contains("helm lint '/opt/charts/myapp'"));
}

#[test]
fn test_build_command_with_strict() {
    let args = SshHelmLintArgs {
        host: "server1".to_string(),
        chart_path: "/opt/charts/myapp".to_string(),
        strict: Some(true),
        values_files: Some(vec!["/opt/values.yaml".to_string()]),
        set_values: None,
        quiet: None,
        helm_bin: Some("helm".to_string()),
        timeout_seconds: None,
        max_output: None,
        save_output: None,
    };
    let cmd = HelmLintTool::build_command(&args, &test_host_config()).unwrap();
    assert!(cmd.contains("--strict"));
    assert!(cmd.contains("-f '/opt/values.yaml'"));
}
