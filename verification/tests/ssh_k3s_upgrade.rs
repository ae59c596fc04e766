use bridge_mcp::config::{BridgeConfig, HostConfig};
use bridge_mcp::error::BridgeError;
use bridge_mcp::tool::{StandardTool, ToolHandler};
use bridge_mcp::tools::ssh_k3s_upgrade::{K3sUpgradeTool, SshK3sUpgradeArgs, SshK3sUpgradeHandler};

fn test_host_config() -> HostConfig {
    HostConfig {
        hostname: "test".to_string(),
        port: 22,
        user: "test".to_string(),
        description: None,
        proxy_jump: None,
        tags: Vec::new(),
    }
}

fn empty_config() -> BridgeConfig {
    BridgeConfig { hosts: Vec::new(), awx: None }
}

#[test]
fn ssh_k3s_upgrade_test_missing_arguments() {
    let handler = SshK3sUpgradeHandler::new();
    let config = empty_config();
    let result = handler.prepare(None, &config);
    assert!(result.is_err());
    match result.unwrap_err() {
        BridgeError::McpMissingParam { param } => assert_eq!(param, "arguments"),
        e => panic!("Expected McpMissingParam, got: {e:?}"),
    }
}

#[test]
fn ssh_k3s_upgrade_test_unknown_host() {
    let handler = SshK3sUpgradeHandler::new();
    let config = empty_config();
    let args = SshK3sUpgradeArgs {
        host: "nohost".to_string(),
        version: "v1.30.2+k3s1".to_string(),
        channel: None,
        timeout_seconds: None,
        max_output: None,
        save_output: None,
    };
    let result = handler.prepare(Some(Ok(args)), &config);
    assert!(result.is_err());
    match result.unwrap_err() {
        BridgeError::UnknownHost { host } => assert_eq!(host, "nohost"),
        e => panic!("Expected UnknownHost, got: {e:?}"),
    }
}

#[test]
fn ssh_k3s_upgrade_test_schema() {
    let handler = SshK3sUpgradeHandler::new();
    assert_eq!(handler.name(), "ssh_k3s_upgrade");
    assert!(!handler.description().is_empty());
    let schema = handler.schema();
    let schema_json: serde_json::Value = serde_json::from_str(schema.input_schema).unwrap();
    assert_eq!(schema_json["type"], "object");
    let required = schema_json["required"].as_array().unwrap();
    assert!(required.contains(&serde_json::Value::from("host")));
    assert!(required.contains(&serde_json::Value::from("version")));
}

#[test]
fn ssh_k3s_upgrade_test_schema_optional_fields() {
    let handler = SshK3sUpgradeHandler::new();
    let schema = handler.schema();
    let schema_json: serde_json::Value = serde_json::from_str(schema.input_schema).unwrap();
    let props = schema_json["properties"].as_object().unwrap();
    assert!(props.contains_key("channel"));
    assert!(props.contains_key("timeout_seconds"));
    assert!(props.contains_key("max_output"));
    assert!(props.contains_key("save_output"));
}

#[test]
fn ssh_k3s_upgrade_test_args_debug() {
    let args = SshK3sUpgradeArgs {
        host: "k3s-node".to_string(),
        version: "v1.30.2+k3s1".to_string(),
        channel: None,
        timeout_seconds: None,
        max_output: None,
        save_output: None,
    };
    let debug_str = format!("{args:?}");
    assert!(debug_str.contains("SshK3sUpgradeArgs"));
}

#[test]
fn ssh_k3s_upgrade_test_invalid_json_type() {
    let handler = SshK3sUpgradeHandler::new();
    let config = empty_config();
    let result = handler.prepare(Some(Err("invalid type: integer, expected a string".to_string())), &config);
    assert!(result.is_err());
    match result.unwrap_err() {
        BridgeError::McpInvalidRequest(_) => {}
        e => panic!("Expected McpInvalidRequest, got: {e:?}"),
    }
}

#[test]
fn test_build_command_k3s_version_tag() {
    let args = SshK3sUpgradeArgs {
        host: "s1".into(),
        version: "v1.30.2+k3s1".into(),
        channel: None,
        timeout_seconds: None,
        max_output: None,
        save_output: None,
    };
    let cmd = K3sUpgradeTool::build_command(&args, &test_host_config()).unwrap();
    assert!(cmd.contains("https://get.k3s.io"), "cmd: {cmd}");
    assert!(cmd.contains("INSTALL_K3S_VERSION="), "cmd: {cmd}");
    assert!(cmd.contains("v1.30.2"), "cmd: {cmd}");
    assert!(cmd.ends_with("sh -"), "cmd: {cmd}");
}

#[test]
fn test_build_command_plain_semver() {
    let args = SshK3sUpgradeArgs {
        host: "s1".into(),
        version: "v1.30.2".into(),
        channel: None,
        timeout_seconds: None,
        max_output: None,
        save_output: None,
    };
    let cmd = K3sUpgradeTool::build_command(&args, &test_host_config()).unwrap();
    assert!(cmd.contains("v1.30.2"), "cmd: {cmd}");
}

#[test]
fn test_build_command_with_channel() {
    let args = SshK3sUpgradeArgs {
        host: "s1".into(),
        version: "v1.30.2+k3s1".into(),
        channel: Some("stable".into()),
        timeout_seconds: None,
        max_output: None,
        save_output: None,
    };
    let cmd = K3sUpgradeTool::build_command(&args, &test_host_config()).unwrap();
    assert!(cmd.contains("INSTALL_K3S_CHANNEL="), "cmd: {cmd}");
    assert!(cmd.contains("stable"), "cmd: {cmd}");
}

#[test]
fn test_build_command_invalid_version_rejected() {
    let args = SshK3sUpgradeArgs {
        host: "s1".into(),
        version: "latest".into(),
        channel: None,
        timeout_seconds: None,
        max_output: None,
        save_output: None,
    };
    let result = K3sUpgradeTool::build_command(&args, &test_host_config());
    assert!(result.is_err());
}

#[test]
fn test_build_command_invalid_channel_rejected() {
    let args = SshK3sUpgradeArgs {
        host: "s1".into(),
        version: "v1.30.2+k3s1".into(),
        channel: Some("edge".into()),
        timeout_seconds: None,
        max_output: None,
        save_output: None,
    };
    let result = K3sUpgradeTool::build_command(&args, &test_host_config());
    assert!(result.is_err());
}
