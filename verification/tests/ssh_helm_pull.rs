use bridge_mcp::config::{BridgeConfig, HostConfig};
use bridge_mcp::error::BridgeError;
use bridge_mcp::tool::{StandardTool, ToolHandler};
use bridge_mcp::tools::ssh_helm_pull::{HelmPullTool, SshHelmPullArgs, SshHelmPullHandler};

fn test_host_config() -> HostConfig {
    HostConfig {
        hostname: "test".to_string(),
        port: 22,
        user: "test".to_string(),
        description: None,
        proxy_jump: None,
        tags: Vec::new(),
    }
}

fn empty_config() -> BridgeConfig {
    BridgeConfig { hosts: Vec::new(), awx: None }
}

#[test]
fn ssh_helm_pull_test_missing_arguments() {
    let handler = SshHelmPullHandler::new();
    let config = empty_config();
    let result = handler.prepare(None, &config);
    assert!(result.is_err());
    match result.unwrap_err() {
        BridgeError::McpMissingParam { param } => assert_eq!(param, "arguments"),
        e => panic!("Expected McpMissingParam, got: {e:?}"),
    }
}

#[test]
fn ssh_helm_pull_test_unknown_host() {
    let handler = SshHelmPullHandler::new();
    let config = empty_config();
    let args = SshHelmPullArgs {
        host: "nonexistent".to_string(),
        chart: "bitnami/nginx".to_string(),
        version: None,
        repo: None,
        untar: None,
        destination: None,
        devel: None,
        verify: None,
        helm_bin: None,
        timeout_seconds: None,
        max_output: None,
        save_output: None,
    };
    let result = handler.prepare(Some(Ok(args)), &config);
    assert!(result.is_err());
    match result.unwrap_err() {
        BridgeError::UnknownHost { host } => assert_eq!(host, "nonexistent"),
        e => panic!("Expected UnknownHost, got: {e:?}"),
    }
}

#[test]
fn ssh_helm_pull_test_schema() {
    let handler = SshHelmPullHandler::new();
    assert_eq!(handler.name(), "ssh_helm_pull");
    assert!(!handler.description().is_empty());
    let schema = handler.schema();
    assert_eq!(schema.name, "ssh_helm_pull");
    let schema_json: serde_json::Value = serde_json::from_str(schema.input_schema).unwrap();
    let required = schema_json["required"].as_array().unwrap();
    assert!(required.contains(&serde_json::Value::from("host")));
    assert!(required.contains(&serde_json::Value::from("chart")));
}

#[test]
fn ssh_helm_pull_test_schema_optional_fields() {
    let handler = SshHelmPullHandler::new();
    let schema = handler.schema();
    let schema_json: serde_json::Value = serde_json::from_str(schema.input_schema).unwrap();
    let properties = schema_json["properties"].as_object().unwrap();
    assert!(properties.contains_key("version"));
    assert!(properties.contains_key("repo"));
    assert!(properties.contains_key("untar"));
    assert!(properties.contains_key("destination"));
    assert!(properties.contains_key("devel"));
    assert!(properties.contains_key("verify"));
    assert!(properties.contains_key("helm_bin"));
    assert!(properties.contains_key("timeout_seconds"));
    assert!(properties.contains_key("max_output"));
}

#[test]
fn ssh_helm_pull_test_args_debug() {
    let args = SshHelmPullArgs {
        host: "server1".to_string(),
        chart: "bitnami/nginx".to_string(),
        version: None,
        repo: None,
        untar: None,
        destination: None,
        devel: None,
        verify: None,
        helm_bin: None,
        timeout_seconds: None,
        max_output: None,
        save_output: None,
    };
    let debug_str = format!("{args:?}");
    assert!(debug_str.contains("SshHelmPullArgs"));
}

#[test]
fn ssh_helm_pull_test_invalid_json_type() {
    let handler = SshHelmPullHandler::new();
    let config = empty_config();
    let result = handler.prepare(Some(Err("invalid type: integer, expected a string".to_string())), &config);
    assert!(result.is_err());
    match result.unwrap_err() {
        BridgeError::McpInvalidRequest(_) => {}
        e => panic!("Expected McpInvalidRequest, got: {e:?}"),
    }
}

#[test]
fn ssh_helm_pull_test_build_command_basic() {
    let args = SshHelmPullArgs {
        host: "server1".to_string(),
        chart: "bitnami/nginx".to_string(),
        version: None,
        repo: None,
        untar: None,
        destination: None,
        devel: None,
        verify: None,
        helm_bin: Some("helm".to_string()),
        timeout_seconds: None,
        max_output: None,
        save_output: None,
    };
    let cmd = HelmPullTool::build_command(&args, &test_host_config()).unwrap();
    assert!(cmd.contains("helm pull 'bitnami/nginx'"));
}

#[test]
fn test_build_command_with_options() {
    let args = SshHelmPullArgs {
        host: "server1".to_string(),
        chart: "bitnami/nginx".to_string(),
        version: Some("1.0.0".to_string()),
        repo: None,
        untar: Some(true),
        destination: Some("/tmp/charts".to_string()),
        devel: None,
        verify: None,
        helm_bin: Some("helm".to_string()),
        timeout_seconds: None,
        max_output: None,
        save_output: None,
    };
    let cmd = HelmPullTool::build_command(&args, &test_host_config()).unwrap();
    assert!(cmd.contains("--version '1.0.0'"));
    assert!(cmd.contains("--untar"));
    assert!(cmd.contains("--destination '/tmp/charts'"));
}

#[test]
fn test_build_command_rejects_bad_repo_url() {
    let args = SshHelmPullArgs {
        host: "server1".to_string(),
        chart: "nginx".to_string(),
        version: None,
        repo: Some("http://x.com|evil".to_string()),
        untar: None,
        destination: None,
        devel: None,
        verify: None,
        helm_bin: Some("helm".to_string()),
        timeout_seconds: None,
        max_output: None,
        save_output: None,
    };
    let result = HelmPullTool::build_command(&args, &test_host_config());
    assert!(
        result.is_err(),
        "expected error for repo URL with shell metachar"
    );
}
