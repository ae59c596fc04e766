use bridge_mcp::config::{BridgeConfig, HostConfig};
use bridge_mcp::error::BridgeError;
use bridge_mcp::tool::{StandardTool, ToolHandler};
use bridge_mcp::tools::ssh_k3s_cert_rotate::{
    K3sCertRotateTool, SshK3sCertRotateArgs, SshK3sCertRotateHandler,
};

fn test_host_config() -> HostConfig {
    HostConfig {
        hostname: "test".to_string(),
        port: 22,
        user: "test".to_string(),
        description: None,
        proxy_jump: None,
        tags: Vec::new(),
    }
}

fn empty_config() -> BridgeConfig {
    BridgeConfig { hosts: Vec::new(), awx: None }
}

#[test]
fn ssh_k3s_cert_rotate_test_missing_arguments() {
    let handler = SshK3sCertRotateHandler::new();
    let config = empty_config();
    let result = handler.prepare(None, &config);
    assert!(result.is_err());
    match result.unwrap_err() {
        BridgeError::McpMissingParam { param } => assert_eq!(param, "arguments"),
        e => panic!("Expected McpMissingParam, got: {e:?}"),
    }
}

#[test]
fn ssh_k3s_cert_rotate_test_unknown_host() {
    let handler = SshK3sCertRotateHandler::new();
    let config = empty_config();
    let args = SshK3sCertRotateArgs {
        host: "nohost".to_string(),
        service: None,
        k3s_bin: None,
        timeout_seconds: None,
        max_output: None,
        save_output: None,
    };
    let result = handler.prepare(Some(Ok(args)), &config);
    assert!(result.is_err());
    match result.unwrap_err() {
        BridgeError::UnknownHost { host } => assert_eq!(host, "nohost"),
        e => panic!("Expected UnknownHost, got: {e:?}"),
    }
}

#[test]
fn ssh_k3s_cert_rotate_test_schema() {
    let handler = SshK3sCertRotateHandler::new();
    assert_eq!(handler.name(), "ssh_k3s_cert_rotate");
    assert!(!handler.description().is_empty());
    let schema = handler.schema();
    let schema_json: serde_json::Value = serde_json::from_str(schema.input_schema).unwrap();
    assert_eq!(schema_json["type"], "object");
    let required = schema_json["required"].as_array().unwrap();
    assert!(required.contains(&serde_json::Value::from("host")));
    assert!(!required.contains(&serde_json::Value::from("service")));
}

#[test]
fn ssh_k3s_cert_rotate_test_schema_optional_fields() {
    let handler = SshK3sCertRotateHandler::new();
    let schema = handler.schema();
    let schema_json: serde_json::Value = serde_json::from_str(schema.input_schema).unwrap();
    let props = schema_json["properties"].as_object().unwrap();
    assert!(props.contains_key("service"));
    assert!(props.contains_key("k3s_bin"));
    assert!(props.contains_key("timeout_seconds"));
    assert!(props.contains_key("max_output"));
    assert!(props.contains_key("save_output"));
}

#[test]
fn ssh_k3s_cert_rotate_test_args_debug() {
    let args = SshK3sCertRotateArgs {
        host: "k3s-node".to_string(),
        service: None,
        k3s_bin: None,
        timeout_seconds: None,
        max_output: None,
        save_output: None,
    };
    let debug_str = format!("{args:?}");
    assert!(debug_str.contains("SshK3sCertRotateArgs"));
}

#[test]
fn ssh_k3s_cert_rotate_test_invalid_json_type() {
    let handler = SshK3sCertRotateHandler::new();
    let config = empty_config();
    let result = handler.prepare(Some(Err("invalid type: integer, expected a string".to_string())), &config);
    assert!(result.is_err());
    match result.unwrap_err() {
        BridgeError::McpInvalidRequest(_) => {}
        e => panic!("Expected McpInvalidRequest, got: {e:?}"),
    }
}

#[test]
fn test_build_command_no_service_rotates_all() {
    let args = SshK3sCertRotateArgs {
        host: "s1".into(),
        service: None,
        k3s_bin: Some("k3s".into()),
        timeout_seconds: None,
        max_output: None,
        save_output: None,
    };
    let cmd = K3sCertRotateTool::build_command(&args, &test_host_config()).unwrap();
    assert!(cmd.contains("sudo k3s certificate rotate"), "cmd: {cmd}");
    assert!(!cmd.contains("--service"), "cmd: {cmd}");
}

#[test]
fn test_build_command_with_valid_services() {
    let args = SshK3sCertRotateArgs {
        host: "s1".into(),
        service: Some(vec!["etcd".into(), "api-server".into()]),
        k3s_bin: Some("k3s".into()),
        timeout_seconds: None,
        max_output: None,
        save_output: None,
    };
    let cmd = K3sCertRotateTool::build_command(&args, &test_host_config()).unwrap();
    assert!(cmd.contains("--service"), "cmd: {cmd}");
    assert!(cmd.contains("etcd"), "cmd: {cmd}");
    assert!(cmd.contains("api-server"), "cmd: {cmd}");
}

#[test]
fn test_build_command_invalid_service_rejected() {
    let args = SshK3sCertRotateArgs {
        host: "s1".into(),
        service: Some(vec!["invalid-service".into()]),
        k3s_bin: Some("k3s".into()),
        timeout_seconds: None,
        max_output: None,
        save_output: None,
    };
    let result = K3sCertRotateTool::build_command(&args, &test_host_config());
    assert!(result.is_err());
}
