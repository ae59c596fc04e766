use bridge_mcp::config::{BridgeConfig, HostConfig};
use bridge_mcp::error::BridgeError;
use bridge_mcp::tool::{StandardTool, ToolHandler};
use bridge_mcp::tools::ssh_crictl_logs::{CrictlLogsTool, SshCrictlLogsArgs, SshCrictlLogsHandler};

fn test_host_config() -> HostConfig {
    HostConfig {
        hostname: "test".to_string(),
        port: 22,
        user: "test".to_string(),
        description: None,
        proxy_jump: None,
        tags: Vec::new(),
    }
}

fn empty_config() -> BridgeConfig {
    BridgeConfig { hosts: Vec::new(), awx: None }
}

#[test]
fn ssh_crictl_logs_test_missing_arguments() {
    let handler = SshCrictlLogsHandler::new();
    let config = empty_config();
    let result = handler.prepare(None, &config);
    assert!(result.is_err());
    match result.unwrap_err() {
        BridgeError::McpMissingParam { param } => assert_eq!(param, "arguments"),
        e => panic!("Expected McpMissingParam, got: {e:?}"),
    }
}

#[test]
fn ssh_crictl_logs_test_unknown_host() {
    let handler = SshCrictlLogsHandler::new();
    let config = empty_config();
    let args = SshCrictlLogsArgs {
        host: "nonexistent".to_string(),
        container_id: "abc123".to_string(),
        tail: None,
        since: None,
        previous: false,
        timestamps: false,
        crictl_bin: None,
        timeout_seconds: None,
        max_output: None,
        save_output: None,
    };
    let result = handler.prepare(Some(Ok(args)), &config);
    assert!(result.is_err());
    match result.unwrap_err() {
        BridgeError::UnknownHost { host } => assert_eq!(host, "nonexistent"),
        e => panic!("Expected UnknownHost, got: {e:?}"),
    }
}

#[test]
fn ssh_crictl_logs_test_schema() {
    let handler = SshCrictlLogsHandler::new();
    assert_eq!(handler.name(), "ssh_crictl_logs");
    assert!(!handler.description().is_empty());
    let schema = handler.schema();
    assert_eq!(schema.name, "ssh_crictl_logs");
    let schema_json: serde_json::Value = serde_json::from_str(schema.input_schema).unwrap();
    assert_eq!(schema_json["type"], "object");
    let required = schema_json["required"].as_array().unwrap();
    assert!(required.contains(&serde_json::Value::from("host")));
    assert!(required.contains(&serde_json::Value::from("container_id")));
}

#[test]
fn ssh_crictl_logs_test_schema_optional_fields() {
    let handler = SshCrictlLogsHandler::new();
    let schema = handler.schema();
    let schema_json: serde_json::Value = serde_json::from_str(schema.input_schema).unwrap();
    let properties = schema_json["properties"].as_object().unwrap();

    assert!(properties.contains_key("tail"));
    assert!(properties.contains_key("since"));
    assert!(properties.contains_key("previous"));
    assert!(properties.contains_key("timestamps"));
    assert!(properties.contains_key("crictl_bin"));
    assert!(properties.contains_key("timeout_seconds"));
    assert!(properties.contains_key("max_output"));
    assert!(properties.contains_key("save_output"));
}

#[test]
fn ssh_crictl_logs_test_args_debug() {
    let args = SshCrictlLogsArgs {
        host: "k3s-node".to_string(),
        container_id: "abc123".to_string(),
        tail: None,
        since: None,
        previous: false,
        timestamps: false,
        crictl_bin: None,
        timeout_seconds: None,
        max_output: None,
        save_output: None,
    };
    let debug_str = format!("{args:?}");
    assert!(debug_str.contains("SshCrictlLogsArgs"));
}

#[test]
fn ssh_crictl_logs_test_invalid_json_type() {
    let handler = SshCrictlLogsHandler::new();
    let config = empty_config();
    let result = handler.prepare(Some(Err("invalid type: integer, expected a string".to_string())), &config);
    assert!(result.is_err());
    match result.unwrap_err() {
        BridgeError::McpInvalidRequest(_) => {}
        e => panic!("Expected McpInvalidRequest, got: {e:?}"),
    }
}

#[test]
fn test_build_command_logs_minimal() {
    let args = SshCrictlLogsArgs {
        host: "s1".into(),
        container_id: "abc123".into(),
        tail: None,
        since: None,
        previous: false,
        timestamps: false,
        crictl_bin: Some("crictl".into()),
        timeout_seconds: None,
        max_output: None,
        save_output: None,
    };
    let cmd = CrictlLogsTool::build_command(&args, &test_host_config()).unwrap();
    assert!(cmd.contains("crictl logs"), "cmd: {cmd}");
    assert!(cmd.contains("'abc123'"), "cmd: {cmd}");
    assert!(!cmd.contains("-p"), "cmd: {cmd}");
    assert!(!cmd.contains("-t"), "cmd: {cmd}");
}

#[test]
fn test_build_command_logs_all_flags() {
    let args = SshCrictlLogsArgs {
        host: "s1".into(),
        container_id: "abc123".into(),
        tail: Some(50),
        since: Some("10m".into()),
        previous: true,
        timestamps: true,
        crictl_bin: Some("crictl".into()),
        timeout_seconds: None,
        max_output: None,
        save_output: None,
    };
    let cmd = CrictlLogsTool::build_command(&args, &test_host_config()).unwrap();
    assert!(cmd.contains("-p"), "cmd: {cmd}");
    assert!(cmd.contains("--tail 50"), "cmd: {cmd}");
    assert!(cmd.contains("--since '10m'"), "cmd: {cmd}");
    assert!(cmd.contains("-t"), "cmd: {cmd}");
    assert!(cmd.contains("'abc123'"), "cmd: {cmd}");
}
