use bridge_mcp::config::{BridgeConfig, HostConfig};
use bridge_mcp::error::BridgeError;
use bridge_mcp::text::starts_with;
use bridge_mcp::tool::{StandardTool, ToolHandler};
use bridge_mcp::tools::ssh_k3s_killall::{K3sKillallTool, SshK3sKillallArgs, SshK3sKillallHandler};

fn test_host_config() -> HostConfig {
    HostConfig {
        hostname: "test".to_string(),
        port: 22,
        user: "test".to_string(),
        description: None,
        proxy_jump: None,
        tags: Vec::new(),
    }
}

fn empty_config() -> BridgeConfig {
    BridgeConfig { hosts: Vec::new(), awx: None }
}

#[test]
fn ssh_k3s_killall_test_missing_arguments() {
    let handler = SshK3sKillallHandler::new();
    let config = empty_config();
    let result = handler.prepare(None, &config);
    assert!(result.is_err());
    match result.unwrap_err() {
        BridgeError::McpMissingParam { param } => assert_eq!(param, "arguments"),
        e => panic!("Expected McpMissingParam, got: {e:?}"),
    }
}

#[test]
fn ssh_k3s_killall_test_unknown_host() {
    let handler = SshK3sKillallHandler::new();
    let config = empty_config();
    let args = SshK3sKillallArgs {
        host: "nohost".to_string(),
        script_path: None,
        timeout_seconds: None,
        max_output: None,
        save_output: None,
    };
    let result = handler.prepare(Some(Ok(args)), &config);
    assert!(result.is_err());
    match result.unwrap_err() {
        BridgeError::UnknownHost { host } => assert_eq!(host, "nohost"),
        e => panic!("Expected UnknownHost, got: {e:?}"),
    }
}

#[test]
fn ssh_k3s_killall_test_schema() {
    let handler = SshK3sKillallHandler::new();
    assert_eq!(handler.name(), "ssh_k3s_killall");
    assert!(!handler.description().is_empty());
    let schema = handler.schema();
    let schema_json: serde_json::Value = serde_json::from_str(schema.input_schema).unwrap();
    assert_eq!(schema_json["type"], "object");
    let required = schema_json["required"].as_array().unwrap();
    assert!(required.contains(&serde_json::Value::from("host")));
    assert!(!required.contains(&serde_json::Value::from("script_path")));
}

#[test]
fn ssh_k3s_killall_test_schema_optional_fields() {
    let handler = SshK3sKillallHandler::new();
    let schema = handler.schema();
    let schema_json: serde_json::Value = serde_json::from_str(schema.input_schema).unwrap();
    let props = schema_json["properties"].as_object().unwrap();
    assert!(props.contains_key("script_path"));
    assert!(props.contains_key("timeout_seconds"));
    assert!(props.contains_key("max_output"));
    assert!(props.contains_key("save_output"));
}

#[test]
fn ssh_k3s_killall_test_args_debug() {
    let args = SshK3sKillallArgs {
        host: "k3s-node".to_string(),
        script_path: None,
        timeout_seconds: None,
        max_output: None,
        save_output: None,
    };
    let debug_str = format!("{args:?}");
    assert!(debug_str.contains("SshK3sKillallArgs"));
}

#[test]
fn ssh_k3s_killall_test_invalid_json_type() {
    let handler = SshK3sKillallHandler::new();
    let config = empty_config();
    let result = handler.prepare(Some(Err("invalid type: integer, expected a string".to_string())), &config);
    assert!(result.is_err());
    match result.unwrap_err() {
        BridgeError::McpInvalidRequest(_) => {}
        e => panic!("Expected McpInvalidRequest, got: {e:?}"),
    }
}

#[test]
fn test_build_command_default_path() {
    let args = SshK3sKillallArgs {
        host: "s1".into(),
        script_path: None,
        timeout_seconds: None,
        max_output: None,
        save_output: None,
    };
    let cmd = K3sKillallTool::build_command(&args, &test_host_config()).unwrap();
    assert!(cmd.starts_with("sudo "), "cmd: {cmd}");
    assert!(cmd.contains("k3s-killall.sh"), "cmd: {cmd}");
    assert!(cmd.contains("/usr/local/bin/k3s-killall.sh"), "cmd: {cmd}");
}

#[test]
fn test_build_command_custom_valid_path() {
    let args = SshK3sKillallArgs {
        host: "s1".into(),
        script_path: Some("/opt/k3s/k3s-killall.sh".into()),
        timeout_seconds: None,
        max_output: None,
        save_output: None,
    };
    let cmd = K3sKillallTool::build_command(&args, &test_host_config()).unwrap();
    assert!(cmd.contains("/opt/k3s/k3s-killall.sh"), "cmd: {cmd}");
}

#[test]
fn test_build_command_wrong_basename_rejected() {
    let args = SshK3sKillallArgs {
        host: "s1".into(),
        script_path: Some("/usr/local/bin/k3s-uninstall.sh".into()),
        timeout_seconds: None,
        max_output: None,
        save_output: None,
    };
    let result = K3sKillallTool::build_command(&args, &test_host_config());
    assert!(result.is_err());
}

#[test]
fn ssh_k3s_killall_test_build_command_invalid_path_rejected() {
    let args = SshK3sKillallArgs {
        host: "s1".into(),
        script_path: Some("relative/k3s-killall.sh".into()),
        timeout_seconds: None,
        max_output: None,
        save_output: None,
    };
    let result = K3sKillallTool::build_command(&args, &test_host_config());
    assert!(result.is_err());
}
