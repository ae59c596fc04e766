use bridge_mcp::config::{BridgeConfig, HostConfig};
use bridge_mcp::error::BridgeError;
use bridge_mcp::tool::{StandardTool, ToolHandler};
use bridge_mcp::tools::ssh_helm_dependency::{
    HelmDependencyTool, SshHelmDependencyArgs, SshHelmDependencyHandler,
};

fn test_host_config() -> HostConfig {
    HostConfig {
        hostname: "test".to_string(),
        port: 22,
        user: "test".to_string(),
        description: None,
        proxy_jump: None,
        tags: Vec::new(),
    }
}

fn empty_config() -> BridgeConfig {
    BridgeConfig { hosts: Vec::new(), awx: None }
}

#[test]
fn ssh_helm_dependency_test_missing_arguments() {
    let handler = SshHelmDependencyHandler::new();
    let config = empty_config();
    let result = handler.prepare(None, &config);
    assert!(result.is_err());
    match result.unwrap_err() {
        BridgeError::McpMissingParam { param } => assert_eq!(param, "arguments"),
        e => panic!("Expected McpMissingParam, got: {e:?}"),
    }
}

#[test]
fn ssh_helm_dependency_test_unknown_host() {
    let handler = SshHelmDependencyHandler::new();
    let config = empty_config();
    let args = SshHelmDependencyArgs {
        host: "nonexistent".to_string(),
        subcommand: "build".to_string(),
        chart_path: "/path".to_string(),
        skip_refresh: None,
        verify: None,
        helm_bin: None,
        timeout_seconds: None,
        max_output: None,
        save_output: None,
    };
    let result = handler.prepare(Some(Ok(args)), &config);
    assert!(result.is_err());
    match result.unwrap_err() {
        BridgeError::UnknownHost { host } => assert_eq!(host, "nonexistent"),
        e => panic!("Expected UnknownHost, got: {e:?}"),
    }
}

#[test]
fn ssh_helm_dependency_test_schema() {
    let handler = SshHelmDependencyHandler::new();
    assert_eq!(handler.name(), "ssh_helm_dependency");
    assert!(!handler.description().is_empty());
    let schema = handler.schema();
    assert_eq!(schema.name, "ssh_helm_dependency");
    let schema_json: serde_json::Value = serde_json::from_str(schema.input_schema).unwrap();
    let required = schema_json["required"].as_array().unwrap();
    assert!(required.contains(&serde_json::Value::from("host")));
    assert!(required.contains(&serde_json::Value::from("subcommand")));
    assert!(required.contains(&serde_json::Value::from("chart_path")));
}

#[test]
fn ssh_helm_dependency_test_schema_optional_fields() {
    let handler = SshHelmDependencyHandler::new();
    let schema = handler.schema();
    let schema_json: serde_json::Value = serde_json::from_str(schema.input_schema).unwrap();
    let properties = schema_json["properties"].as_object().unwrap();
    assert!(properties.contains_key("skip_refresh"));
    assert!(properties.contains_key("verify"));
    assert!(properties.contains_key("helm_bin"));
    assert!(properties.contains_key("timeout_seconds"));
    assert!(properties.contains_key("max_output"));
}

#[test]
fn ssh_helm_dependency_test_args_debug() {
    let args = SshHelmDependencyArgs {
        host: "server1".to_string(),
        subcommand: "build".to_string(),
        chart_path: "/opt/charts".to_string(),
        skip_refresh: None,
        verify: None,
        helm_bin: None,
        timeout_seconds: None,
        max_output: None,
        save_output: None,
    };
    let debug_str = format!("{args:?}");
    assert!(debug_str.contains("SshHelmDependencyArgs"));
}

#[test]
fn ssh_helm_dependency_test_invalid_json_type() {
    let handler = SshHelmDependencyHandler::new();
    let config = empty_config();
    let result = handler.prepare(Some(Err("invalid type: integer, expected a string".to_string())), &config);
    assert!(result.is_err());
    match result.unwrap_err() {
        BridgeError::McpInvalidRequest(_) => {}
        e => panic!("Expected McpInvalidRequest, got: {e:?}"),
    }
}

#[test]
fn test_build_command_build() {
    let args = SshHelmDependencyArgs {
        host: "server1".to_string(),
        subcommand: "build".to_string(),
        chart_path: "/opt/charts/myapp".to_string(),
        skip_refresh: None,
        verify: None,
        helm_bin: Some("helm".to_string()),
        timeout_seconds: None,
        max_output: None,
        save_output: None,
    };
    let cmd = HelmDependencyTool::build_command(&args, &test_host_config()).unwrap();
    assert!(cmd.contains("helm dependency 'build' '/opt/charts/myapp'"));
}

#[test]
fn test_build_command_with_skip_refresh() {
    let args = SshHelmDependencyArgs {
        host: "server1".to_string(),
        subcommand: "update".to_string(),
        chart_path: "/opt/charts/myapp".to_string(),
        skip_refresh: Some(true),
        verify: None,
        helm_bin: Some("helm".to_string()),
        timeout_seconds: None,
        max_output: None,
        save_output: None,
    };
    let cmd = HelmDependencyTool::build_command(&args, &test_host_config()).unwrap();
    assert!(cmd.contains("--skip-refresh"));
}

#[test]
fn ssh_helm_dependency_test_build_command_invalid_subcommand() {
    let args = SshHelmDependencyArgs {
        host: "server1".to_string(),
        subcommand: "invalid".to_string(),
        chart_path: "/opt/charts/myapp".to_string(),
        skip_refresh: None,
        verify: None,
        helm_bin: Some("helm".to_string()),
        timeout_seconds: None,
        max_output: None,
        save_output: None,
    };
    let result = HelmDependencyTool::build_command(&args, &test_host_config());
    assert!(result.is_err());
}
