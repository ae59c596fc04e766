use bridge_mcp::config::{BridgeConfig, HostConfig};
use bridge_mcp::error::BridgeError;
use bridge_mcp::tool::{StandardTool, ToolHandler};
use bridge_mcp::tools::ssh_crictl_inspect::{
    CrictlInspectTool, SshCrictlInspectArgs, SshCrictlInspectHandler,
};

fn test_host_config() -> HostConfig {
    HostConfig {
        hostname: "test".to_string(),
        port: 22,
        user: "test".to_string(),
        description: None,
        proxy_jump: None,
        tags: Vec::new(),
    }
}

fn empty_config() -> BridgeConfig {
    BridgeConfig { hosts: Vec::new(), awx: None }
}

#[test]
fn ssh_crictl_inspect_test_missing_arguments() {
    let handler = SshCrictlInspectHandler::new();
    let config = empty_config();
    let result = handler.prepare(None, &config);
    assert!(result.is_err());
    match result.unwrap_err() {
        BridgeError::McpMissingParam { param } => assert_eq!(param, "arguments"),
        e => panic!("Expected McpMissingParam, got: {e:?}"),
    }
}

#[test]
fn ssh_crictl_inspect_test_unknown_host() {
    let handler = SshCrictlInspectHandler::new();
    let config = empty_config();
    let args = SshCrictlInspectArgs {
        host: "nonexistent".to_string(),
        kind: "container".to_string(),
        id: "abc123".to_string(),
        output: None,
        crictl_bin: None,
        timeout_seconds: None,
        max_output: None,
        save_output: None,
    };
    let result = handler.prepare(Some(Ok(args)), &config);
    assert!(result.is_err());
    match result.unwrap_err() {
        BridgeError::UnknownHost { host } => assert_eq!(host, "nonexistent"),
        e => panic!("Expected UnknownHost, got: {e:?}"),
    }
}

#[test]
fn ssh_crictl_inspect_test_schema() {
    let handler = SshCrictlInspectHandler::new();
    assert_eq!(handler.name(), "ssh_crictl_inspect");
    assert!(!handler.description().is_empty());
    let schema = handler.schema();
    assert_eq!(schema.name, "ssh_crictl_inspect");
    let schema_json: serde_json::Value = serde_json::from_str(schema.input_schema).unwrap();
    assert_eq!(schema_json["type"], "object");
    let required = schema_json["required"].as_array().unwrap();
    assert!(required.contains(&serde_json::Value::from("host")));
    assert!(required.contains(&serde_json::Value::from("kind")));
    assert!(required.contains(&serde_json::Value::from("id")));
}

#[test]
fn ssh_crictl_inspect_test_schema_optional_fields() {
    let handler = SshCrictlInspectHandler::new();
    let schema = handler.schema();
    let schema_json: serde_json::Value = serde_json::from_str(schema.input_schema).unwrap();
    let properties = schema_json["properties"].as_object().unwrap();

    assert!(properties.contains_key("output"));
    assert!(properties.contains_key("crictl_bin"));
    assert!(properties.contains_key("timeout_seconds"));
    assert!(properties.contains_key("max_output"));
    assert!(properties.contains_key("save_output"));
}

#[test]
fn ssh_crictl_inspect_test_args_debug() {
    let args = SshCrictlInspectArgs {
        host: "k3s-node".to_string(),
        kind: "image".to_string(),
        id: "ubuntu".to_string(),
        output: None,
        crictl_bin: None,
        timeout_seconds: None,
        max_output: None,
        save_output: None,
    };
    let debug_str = format!("{args:?}");
    assert!(debug_str.contains("SshCrictlInspectArgs"));
}

#[test]
fn ssh_crictl_inspect_test_invalid_json_type() {
    let handler = SshCrictlInspectHandler::new();
    let config = empty_config();
    let result = handler.prepare(Some(Err("invalid type: integer, expected a string".to_string())), &config);
    assert!(result.is_err());
    match result.unwrap_err() {
        BridgeError::McpInvalidRequest(_) => {}
        e => panic!("Expected McpInvalidRequest, got: {e:?}"),
    }
}

#[test]
fn test_build_command_inspect_container() {
    let args = SshCrictlInspectArgs {
        host: "s1".into(),
        kind: "container".into(),
        id: "abc123".into(),
        output: None,
        crictl_bin: Some("crictl".into()),
        timeout_seconds: None,
        max_output: None,
        save_output: None,
    };
    let cmd = CrictlInspectTool::build_command(&args, &test_host_config()).unwrap();
    assert!(cmd.contains("crictl inspect"), "cmd: {cmd}");
    assert!(cmd.contains("'abc123'"), "cmd: {cmd}");
    assert!(cmd.contains("-o 'json'"), "cmd: {cmd}");
}

#[test]
fn test_build_command_inspect_pod() {
    let args = SshCrictlInspectArgs {
        host: "s1".into(),
        kind: "pod".into(),
        id: "pod456".into(),
        output: Some("yaml".into()),
        crictl_bin: Some("crictl".into()),
        timeout_seconds: None,
        max_output: None,
        save_output: None,
    };
    let cmd = CrictlInspectTool::build_command(&args, &test_host_config()).unwrap();
    assert!(cmd.contains("crictl inspectp"), "cmd: {cmd}");
    assert!(cmd.contains("'pod456'"), "cmd: {cmd}");
    assert!(cmd.contains("-o 'yaml'"), "cmd: {cmd}");
}
