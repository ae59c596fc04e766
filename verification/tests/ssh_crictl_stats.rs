use bridge_mcp::config::{BridgeConfig, HostConfig};
use bridge_mcp::error::BridgeError;
use bridge_mcp::tool::{StandardTool, ToolHandler};
use bridge_mcp::tools::ssh_crictl_stats::{
    CrictlStatsTool, SshCrictlStatsArgs, SshCrictlStatsHandler,
};

fn test_host_config() -> HostConfig {
    HostConfig {
        hostname: "test".to_string(),
        port: 22,
        user: "test".to_string(),
        description: None,
        proxy_jump: None,
        tags: Vec::new(),
    }
}

fn empty_config() -> BridgeConfig {
    BridgeConfig { hosts: Vec::new(), awx: None }
}

#[test]
fn ssh_crictl_stats_test_missing_arguments() {
    let handler = SshCrictlStatsHandler::new();
    let config = empty_config();
    let result = handler.prepare(None, &config);
    assert!(result.is_err());
    match result.unwrap_err() {
        BridgeError::McpMissingParam { param } => assert_eq!(param, "arguments"),
        e => panic!("Expected McpMissingParam, got: {e:?}"),
    }
}

#[test]
fn ssh_crictl_stats_test_unknown_host() {
    let handler = SshCrictlStatsHandler::new();
    let config = empty_config();
    let args = SshCrictlStatsArgs {
        host: "nonexistent".to_string(),
        all: false,
        id: None,
        output: None,
        crictl_bin: None,
        timeout_seconds: None,
        max_output: None,
        save_output: None,
    };
    let result = handler.prepare(Some(Ok(args)), &config);
    assert!(result.is_err());
    match result.unwrap_err() {
        BridgeError::UnknownHost { host } => assert_eq!(host, "nonexistent"),
        e => panic!("Expected UnknownHost, got: {e:?}"),
    }
}

#[test]
fn ssh_crictl_stats_test_schema() {
    let handler = SshCrictlStatsHandler::new();
    assert_eq!(handler.name(), "ssh_crictl_stats");
    assert!(!handler.description().is_empty());
    let schema = handler.schema();
    assert_eq!(schema.name, "ssh_crictl_stats");
    let schema_json: serde_json::Value = serde_json::from_str(schema.input_schema).unwrap();
    assert_eq!(schema_json["type"], "object");
    let required = schema_json["required"].as_array().unwrap();
    assert!(required.contains(&serde_json::Value::from("host")));
}

#[test]
fn ssh_crictl_stats_test_schema_optional_fields() {
    let handler = SshCrictlStatsHandler::new();
    let schema = handler.schema();
    let schema_json: serde_json::Value = serde_json::from_str(schema.input_schema).unwrap();
    let properties = schema_json["properties"].as_object().unwrap();

    assert!(properties.contains_key("all"));
    assert!(properties.contains_key("id"));
    assert!(properties.contains_key("output"));
    assert!(properties.contains_key("crictl_bin"));
    assert!(properties.contains_key("timeout_seconds"));
    assert!(properties.contains_key("max_output"));
    assert!(properties.contains_key("save_output"));
}

#[test]
fn ssh_crictl_stats_test_args_debug() {
    let args = SshCrictlStatsArgs {
        host: "k3s-node".to_string(),
        all: false,
        id: None,
        output: None,
        crictl_bin: None,
        timeout_seconds: None,
        max_output: None,
        save_output: None,
    };
    let debug_str = format!("{args:?}");
    assert!(debug_str.contains("SshCrictlStatsArgs"));
}

#[test]
fn ssh_crictl_stats_test_invalid_json_type() {
    let handler = SshCrictlStatsHandler::new();
    let config = empty_config();
    let result = handler.prepare(Some(Err("invalid type: integer, expected a string".to_string())), &config);
    assert!(result.is_err());
    match result.unwrap_err() {
        BridgeError::McpInvalidRequest(_) => {}
        e => panic!("Expected McpInvalidRequest, got: {e:?}"),
    }
}

#[test]
fn test_build_command_stats_all() {
    let args = SshCrictlStatsArgs {
        host: "s1".into(),
        all: true,
        id: None,
        output: None,
        crictl_bin: Some("crictl".into()),
        timeout_seconds: None,
        max_output: None,
        save_output: None,
    };
    let cmd = CrictlStatsTool::build_command(&args, &test_host_config()).unwrap();
    assert!(cmd.contains("crictl stats -a"), "cmd: {cmd}");
    assert!(cmd.contains("-o 'json'"), "cmd: {cmd}");
}

#[test]
fn test_build_command_stats_with_id() {
    let args = SshCrictlStatsArgs {
        host: "s1".into(),
        all: false,
        id: Some("abc123".into()),
        output: None,
        crictl_bin: Some("crictl".into()),
        timeout_seconds: None,
        max_output: None,
        save_output: None,
    };
    let cmd = CrictlStatsTool::build_command(&args, &test_host_config()).unwrap();
    assert!(cmd.contains("crictl stats"), "cmd: {cmd}");
    assert!(cmd.contains("--id 'abc123'"), "cmd: {cmd}");
    assert!(!cmd.contains("-a"), "no -a flag: {cmd}");
}
