use bridge_mcp::config::{BridgeConfig, HostConfig};
use bridge_mcp::error::BridgeError;
use bridge_mcp::tool::{StandardTool, ToolHandler};
use bridge_mcp::tools::ssh_k8s_diff::{K8sDiffTool, SshK8sDiffArgs, SshK8sDiffHandler};

fn test_host_config() -> HostConfig {
    HostConfig {
        hostname: "test".to_string(),
        port: 22,
        user: "test".to_string(),
        description: None,
        proxy_jump: None,
        tags: Vec::new(),
    }
}

fn empty_config() -> BridgeConfig {
    BridgeConfig { hosts: Vec::new(), awx: None }
}

#[test]
fn ssh_k8s_diff_test_missing_arguments() {
    let handler = SshK8sDiffHandler::new();
    let config = empty_config();
    let result = handler.prepare(None, &config);
    assert!(result.is_err());
    match result.unwrap_err() {
        BridgeError::McpMissingParam { param } => assert_eq!(param, "arguments"),
        e => panic!("Expected McpMissingParam, got: {e:?}"),
    }
}

#[test]
fn ssh_k8s_diff_test_unknown_host() {
    let handler = SshK8sDiffHandler::new();
    let config = empty_config();
    let args = SshK8sDiffArgs {
        host: "nonexistent".to_string(),
        manifest: "/tmp/d.yaml".to_string(),
        namespace: None,
        kubectl_bin: None,
        timeout_seconds: None,
        max_output: None,
        save_output: None,
    };
    let result = handler.prepare(Some(Ok(args)), &config);
    assert!(result.is_err());
    match result.unwrap_err() {
        BridgeError::UnknownHost { host } => assert_eq!(host, "nonexistent"),
        e => panic!("Expected UnknownHost, got: {e:?}"),
    }
}

#[test]
fn ssh_k8s_diff_test_schema() {
    let handler = SshK8sDiffHandler::new();
    assert_eq!(handler.name(), "ssh_k8s_diff");
    assert!(!handler.description().is_empty());
    let schema = handler.schema();
    assert_eq!(schema.name, "ssh_k8s_diff");
    let schema_json: serde_json::Value = serde_json::from_str(schema.input_schema).unwrap();
    assert_eq!(schema_json["type"], "object");
    let required = schema_json["required"].as_array().unwrap();
    assert!(required.contains(&serde_json::Value::from("host")));
    assert!(required.contains(&serde_json::Value::from("manifest")));
}

#[test]
fn ssh_k8s_diff_test_missing_required_field() {
    let handler = SshK8sDiffHandler::new();
    let config = empty_config();
    let result = handler.prepare(Some(Err("missing field `manifest`".to_string())), &config);
    assert!(result.is_err());
    match result.unwrap_err() {
        BridgeError::McpInvalidRequest(_) => {}
        e => panic!("Expected McpInvalidRequest, got: {e:?}"),
    }
}

#[test]
fn ssh_k8s_diff_test_schema_optional_fields() {
    let handler = SshK8sDiffHandler::new();
    let schema = handler.schema();
    let schema_json: serde_json::Value = serde_json::from_str(schema.input_schema).unwrap();
    let properties = schema_json["properties"].as_object().unwrap();

    // Check ALL optional fields exist in schema
    assert!(properties.contains_key("namespace"));
    assert!(properties.contains_key("kubectl_bin"));
    assert!(properties.contains_key("timeout_seconds"));
    assert!(properties.contains_key("max_output"));
    assert!(properties.contains_key("save_output"));
}

#[test]
fn ssh_k8s_diff_test_args_debug() {
    let args = SshK8sDiffArgs {
        host: "server1".to_string(),
        manifest: "/tmp/d.yaml".to_string(),
        namespace: None,
        kubectl_bin: None,
        timeout_seconds: None,
        max_output: None,
        save_output: None,
    };
    let debug_str = format!("{args:?}");
    assert!(debug_str.contains("SshK8sDiffArgs"));
}

#[test]
fn ssh_k8s_diff_test_invalid_json_type() {
    let handler = SshK8sDiffHandler::new();
    let config = empty_config();
    let result = handler.prepare(Some(Err("invalid type: integer, expected a string".to_string())), &config);
    assert!(result.is_err());
    match result.unwrap_err() {
        BridgeError::McpInvalidRequest(_) => {}
        e => panic!("Expected McpInvalidRequest, got: {e:?}"),
    }
}

#[test]
fn test_build_command_file_path() {
    let args = SshK8sDiffArgs {
        host: "server1".to_string(),
        manifest: "/tmp/d.yaml".to_string(),
        namespace: Some("default".to_string()),
        kubectl_bin: Some("kubectl".to_string()),
        timeout_seconds: None,
        max_output: None,
        save_output: None,
    };
    let host_config = test_host_config();
    let cmd = K8sDiffTool::build_command(&args, &host_config).unwrap();
    assert!(cmd.contains("diff -f '/tmp/d.yaml'"), "cmd: {cmd}");
    assert!(cmd.contains("-n 'default'"), "cmd: {cmd}");
}

#[test]
fn test_build_command_inline_yaml() {
    let args = SshK8sDiffArgs {
        host: "server1".to_string(),
        manifest: "apiVersion: v1".to_string(),
        namespace: None,
        kubectl_bin: Some("kubectl".to_string()),
        timeout_seconds: None,
        max_output: None,
        save_output: None,
    };
    let host_config = test_host_config();
    let cmd = K8sDiffTool::build_command(&args, &host_config).unwrap();
    assert!(cmd.contains("| "), "cmd: {cmd}");
    assert!(cmd.contains("diff -f -"), "cmd: {cmd}");
}

#[test]
fn test_build_command_with_namespace() {
    let args = SshK8sDiffArgs {
        host: "server1".to_string(),
        manifest: "/tmp/d.yaml".to_string(),
        namespace: Some("production".to_string()),
        kubectl_bin: Some("kubectl".to_string()),
        timeout_seconds: None,
        max_output: None,
        save_output: None,
    };
    let host_config = test_host_config();
    let cmd = K8sDiffTool::build_command(&args, &host_config).unwrap();
    assert!(cmd.contains("diff -f '/tmp/d.yaml'"), "cmd: {cmd}");
    assert!(cmd.contains("-n 'production'"), "cmd: {cmd}");
}

#[test]
fn test_build_command_rejects_flag_like_namespace() {
    let args = SshK8sDiffArgs {
        host: "server1".to_string(),
        manifest: "/tmp/d.yaml".to_string(),
        namespace: Some("--all-namespaces".to_string()),
        kubectl_bin: Some("kubectl".to_string()),
        timeout_seconds: None,
        max_output: None,
        save_output: None,
    };
    let host_config = test_host_config();
    let result = K8sDiffTool::build_command(&args, &host_config);
    assert!(
        result.is_err(),
        "expected rejection for flag-like namespace"
    );
}
