use bridge_mcp::config::{BridgeConfig, HostConfig};
use bridge_mcp::error::BridgeError;
use bridge_mcp::tool::{StandardTool, ToolHandler};
use bridge_mcp::tools::ssh_helm_repo_list::{
    HelmRepoListTool, SshHelmRepoListArgs, SshHelmRepoListHandler,
};

fn test_host_config() -> HostConfig {
    HostConfig {
        hostname: "test".to_string(),
        port: 22,
        user: "test".to_string(),
        description: None,
        proxy_jump: None,
        tags: Vec::new(),
    }
}

fn empty_config() -> BridgeConfig {
    BridgeConfig { hosts: Vec::new(), awx: None }
}

#[test]
fn ssh_helm_repo_list_test_missing_arguments() {
    let handler = SshHelmRepoListHandler::new();
    let config = empty_config();
    let result = handler.prepare(None, &config);
    assert!(result.is_err());
    match result.unwrap_err() {
        BridgeError::McpMissingParam { param } => assert_eq!(param, "arguments"),
        e => panic!("Expected McpMissingParam, got: {e:?}"),
    }
}

#[test]
fn ssh_helm_repo_list_test_unknown_host() {
    let handler = SshHelmRepoListHandler::new();
    let config = empty_config();
    let args = SshHelmRepoListArgs {
        host: "nonexistent".to_string(),
        output: None,
        helm_bin: None,
        timeout_seconds: None,
        max_output: None,
        save_output: None,
    };
    let result = handler.prepare(Some(Ok(args)), &config);
    assert!(result.is_err());
    match result.unwrap_err() {
        BridgeError::UnknownHost { host } => assert_eq!(host, "nonexistent"),
        e => panic!("Expected UnknownHost, got: {e:?}"),
    }
}

#[test]
fn ssh_helm_repo_list_test_schema() {
    let handler = SshHelmRepoListHandler::new();
    assert_eq!(handler.name(), "ssh_helm_repo_list");
    assert!(!handler.description().is_empty());
    let schema = handler.schema();
    assert_eq!(schema.name, "ssh_helm_repo_list");
    let schema_json: serde_json::Value = serde_json::from_str(schema.input_schema).unwrap();
    let required = schema_json["required"].as_array().unwrap();
    assert!(required.contains(&serde_json::Value::from("host")));
}

#[test]
fn ssh_helm_repo_list_test_schema_optional_fields() {
    let handler = SshHelmRepoListHandler::new();
    let schema = handler.schema();
    let schema_json: serde_json::Value = serde_json::from_str(schema.input_schema).unwrap();
    let properties = schema_json["properties"].as_object().unwrap();
    assert!(properties.contains_key("output"));
    assert!(properties.contains_key("helm_bin"));
    assert!(properties.contains_key("timeout_seconds"));
    assert!(properties.contains_key("max_output"));
}

#[test]
fn ssh_helm_repo_list_test_args_debug() {
    let args = SshHelmRepoListArgs {
        host: "server1".to_string(),
        output: None,
        helm_bin: None,
        timeout_seconds: None,
        max_output: None,
        save_output: None,
    };
    let debug_str = format!("{args:?}");
    assert!(debug_str.contains("SshHelmRepoListArgs"));
}

#[test]
fn ssh_helm_repo_list_test_invalid_json_type() {
    let handler = SshHelmRepoListHandler::new();
    let config = empty_config();
    let result = handler.prepare(Some(Err("invalid type: integer, expected a string".to_string())), &config);
    assert!(result.is_err());
    match result.unwrap_err() {
        BridgeError::McpInvalidRequest(_) => {}
        e => panic!("Expected McpInvalidRequest, got: {e:?}"),
    }
}

#[test]
fn ssh_helm_repo_list_test_build_command_defaults() {
    let args = SshHelmRepoListArgs {
        host: "server1".to_string(),
        output: None,
        helm_bin: Some("helm".to_string()),
        timeout_seconds: None,
        max_output: None,
        save_output: None,
    };
    let cmd = HelmRepoListTool::build_command(&args, &test_host_config()).unwrap();
    assert!(cmd.contains("helm repo list"));
}

#[test]
fn ssh_helm_repo_list_test_build_command_with_output() {
    let args = SshHelmRepoListArgs {
        host: "server1".to_string(),
        output: Some("json".to_string()),
        helm_bin: Some("helm".to_string()),
        timeout_seconds: None,
        max_output: None,
        save_output: None,
    };
    let cmd = HelmRepoListTool::build_command(&args, &test_host_config()).unwrap();
    assert!(cmd.contains("-o 'json'"));
}

#[test]
fn test_build_command_invalid_output() {
    let args = SshHelmRepoListArgs {
        host: "server1".to_string(),
        output: Some("xml".to_string()),
        helm_bin: Some("helm".to_string()),
        timeout_seconds: None,
        max_output: None,
        save_output: None,
    };
    let result = HelmRepoListTool::build_command(&args, &test_host_config());
    assert!(result.is_err());
}
