use bridge_mcp::config::{BridgeConfig, HostConfig};
use bridge_mcp::error::BridgeError;
use bridge_mcp::tool::{StandardTool, ToolHandler};
use bridge_mcp::tools::ssh_k8s_create_token::{
    K8sCreateTokenTool, SshK8sCreateTokenArgs, SshK8sCreateTokenHandler,
};

fn test_host_config() -> HostConfig {
    HostConfig {
        hostname: "test".to_string(),
        port: 22,
        user: "test".to_string(),
        description: None,
        proxy_jump: None,
        tags: Vec::new(),
    }
}

fn empty_config() -> BridgeConfig {
    BridgeConfig { hosts: Vec::new(), awx: None }
}

#[test]
fn ssh_k8s_create_token_test_missing_arguments() {
    let handler = SshK8sCreateTokenHandler::new();
    let config = empty_config();
    let result = handler.prepare(None, &config);
    assert!(result.is_err());
    match result.unwrap_err() {
        BridgeError::McpMissingParam { param } => assert_eq!(param, "arguments"),
        e => panic!("Expected McpMissingParam, got: {e:?}"),
    }
}

#[test]
fn ssh_k8s_create_token_test_unknown_host() {
    let handler = SshK8sCreateTokenHandler::new();
    let config = empty_config();
    let args = SshK8sCreateTokenArgs {
        host: "nonexistent".to_string(),
        service_account: "default".to_string(),
        namespace: None,
        duration: None,
        audiences: None,
        bound_object_kind: None,
        bound_object_name: None,
        context: None,
        kubectl_bin: None,
        timeout_seconds: None,
        max_output: None,
        save_output: None,
    };
    let result = handler.prepare(Some(Ok(args)), &config);
    assert!(result.is_err());
    match result.unwrap_err() {
        BridgeError::UnknownHost { host } => assert_eq!(host, "nonexistent"),
        e => panic!("Expected UnknownHost, got: {e:?}"),
    }
}

#[test]
fn ssh_k8s_create_token_test_schema() {
    let handler = SshK8sCreateTokenHandler::new();
    assert_eq!(handler.name(), "ssh_k8s_create_token");
    assert!(!handler.description().is_empty());
    let schema = handler.schema();
    assert_eq!(schema.name, "ssh_k8s_create_token");
    let schema_json: serde_json::Value = serde_json::from_str(schema.input_schema).unwrap();
    assert_eq!(schema_json["type"], "object");
    let required = schema_json["required"].as_array().unwrap();
    assert!(required.contains(&serde_json::Value::from("host")));
    assert!(required.contains(&serde_json::Value::from("service_account")));
}

#[test]
fn ssh_k8s_create_token_test_schema_optional_fields() {
    let handler = SshK8sCreateTokenHandler::new();
    let schema = handler.schema();
    let schema_json: serde_json::Value = serde_json::from_str(schema.input_schema).unwrap();
    let properties = schema_json["properties"].as_object().unwrap();
    assert!(properties.contains_key("namespace"));
    assert!(properties.contains_key("duration"));
    assert!(properties.contains_key("audiences"));
    assert!(properties.contains_key("bound_object_kind"));
    assert!(properties.contains_key("bound_object_name"));
    assert!(properties.contains_key("context"));
    assert!(properties.contains_key("kubectl_bin"));
    assert!(properties.contains_key("timeout_seconds"));
    assert!(properties.contains_key("max_output"));
    assert!(properties.contains_key("save_output"));
}

#[test]
fn ssh_k8s_create_token_test_args_debug() {
    let args = SshK8sCreateTokenArgs {
        host: "server1".to_string(),
        service_account: "default".to_string(),
        namespace: None,
        duration: None,
        audiences: None,
        bound_object_kind: None,
        bound_object_name: None,
        context: None,
        kubectl_bin: None,
        timeout_seconds: None,
        max_output: None,
        save_output: None,
    };
    let debug_str = format!("{args:?}");
    assert!(debug_str.contains("SshK8sCreateTokenArgs"));
}

#[test]
fn ssh_k8s_create_token_test_invalid_json_type() {
    let handler = SshK8sCreateTokenHandler::new();
    let config = empty_config();
    let result = handler.prepare(Some(Err("invalid type: integer, expected a string".to_string())), &config);
    assert!(result.is_err());
    match result.unwrap_err() {
        BridgeError::McpInvalidRequest(_) => {}
        e => panic!("Expected McpInvalidRequest, got: {e:?}"),
    }
}

#[test]
fn test_build_command_create_token_basic() {
    let args = SshK8sCreateTokenArgs {
        host: "s1".into(),
        service_account: "my-sa".into(),
        namespace: Some("prod".into()),
        duration: Some("1h".into()),
        audiences: None,
        bound_object_kind: None,
        bound_object_name: None,
        context: Some("east".into()),
        kubectl_bin: Some("kubectl".into()),
        timeout_seconds: None,
        max_output: None,
        save_output: None,
    };
    let cmd = K8sCreateTokenTool::build_command(&args, &test_host_config()).unwrap();
    assert!(cmd.contains("create token"), "cmd: {cmd}");
    assert!(cmd.contains("my-sa"), "cmd: {cmd}");
    assert!(cmd.contains("-n"), "cmd: {cmd}");
    assert!(cmd.contains("prod"), "cmd: {cmd}");
    assert!(cmd.contains("--duration"), "cmd: {cmd}");
    assert!(cmd.contains("1h"), "cmd: {cmd}");
    assert!(cmd.contains("--context=east"), "cmd: {cmd}");
}

#[test]
fn test_build_command_create_token_with_audiences() {
    let args = SshK8sCreateTokenArgs {
        host: "s1".into(),
        service_account: "ci-deployer".into(),
        namespace: None,
        duration: None,
        audiences: Some(vec!["https://api.example.com".to_string()]),
        bound_object_kind: None,
        bound_object_name: None,
        context: None,
        kubectl_bin: Some("kubectl".into()),
        timeout_seconds: None,
        max_output: None,
        save_output: None,
    };
    let cmd = K8sCreateTokenTool::build_command(&args, &test_host_config()).unwrap();
    assert!(cmd.contains("create token"), "cmd: {cmd}");
    assert!(cmd.contains("--audience"), "cmd: {cmd}");
}

#[test]
fn test_build_command_bound_object_name_without_kind_fails() {
    let args = SshK8sCreateTokenArgs {
        host: "s1".into(),
        service_account: "my-sa".into(),
        namespace: None,
        duration: None,
        audiences: None,
        bound_object_kind: None,
        bound_object_name: Some("my-pod".into()),
        context: None,
        kubectl_bin: None,
        timeout_seconds: None,
        max_output: None,
        save_output: None,
    };
    let result = K8sCreateTokenTool::build_command(&args, &test_host_config());
    assert!(result.is_err());
    match result.unwrap_err() {
        BridgeError::CommandDenied { reason } => {
            assert!(reason.contains("bound_object_name"), "reason: {reason}");
        }
        e => panic!("Expected CommandDenied, got: {e:?}"),
    }
}

#[test]
fn test_build_command_invalid_duration() {
    let args = SshK8sCreateTokenArgs {
        host: "s1".into(),
        service_account: "my-sa".into(),
        namespace: None,
        duration: Some("1d".into()), // invalid: 'd' not allowed
        audiences: None,
        bound_object_kind: None,
        bound_object_name: None,
        context: None,
        kubectl_bin: None,
        timeout_seconds: None,
        max_output: None,
        save_output: None,
    };
    let result = K8sCreateTokenTool::build_command(&args, &test_host_config());
    assert!(result.is_err());
}
