use bridge_mcp::config::{BridgeConfig, HostConfig};
use bridge_mcp::error::BridgeError;
use bridge_mcp::tool::{StandardTool, ToolHandler};
use bridge_mcp::tools::ssh_k3s_kubeconfig_get::{
    SshK3sKubeconfigGetArgs, SshK3sKubeconfigGetHandler, SshK3sKubeconfigGetTool,
};

fn test_host_config() -> HostConfig {
    HostConfig {
        hostname: "test".to_string(),
        port: 22,
        user: "test".to_string(),
        description: None,
        proxy_jump: None,
        tags: Vec::new(),
    }
}

fn empty_config() -> BridgeConfig {
    BridgeConfig { hosts: Vec::new(), awx: None }
}

#[test]
fn ssh_k3s_kubeconfig_get_test_missing_arguments() {
    let handler = SshK3sKubeconfigGetHandler::new();
    let config = empty_config();
    let result = handler.prepare(None, &config);
    assert!(result.is_err());
    match result.unwrap_err() {
        BridgeError::McpMissingParam { param } => assert_eq!(param, "arguments"),
        e => panic!("Expected McpMissingParam, got: {e:?}"),
    }
}

#[test]
fn ssh_k3s_kubeconfig_get_test_unknown_host() {
    let handler = SshK3sKubeconfigGetHandler::new();
    let config = empty_config();
    let args = SshK3sKubeconfigGetArgs {
        host: "nonexistent".to_string(),
        path: None,
        server_ip: None,
        timeout_seconds: None,
        max_output: None,
        save_output: None,
    };
    let result = handler.prepare(Some(Ok(args)), &config);
    assert!(result.is_err());
    match result.unwrap_err() {
        BridgeError::UnknownHost { host } => assert_eq!(host, "nonexistent"),
        e => panic!("Expected UnknownHost, got: {e:?}"),
    }
}

#[test]
fn ssh_k3s_kubeconfig_get_test_schema() {
    let handler = SshK3sKubeconfigGetHandler::new();
    assert_eq!(handler.name(), "ssh_k3s_kubeconfig_get");
    assert!(!handler.description().is_empty());
    let schema = handler.schema();
    assert_eq!(schema.name, "ssh_k3s_kubeconfig_get");
    let schema_json: serde_json::Value = serde_json::from_str(schema.input_schema).unwrap();
    assert_eq!(schema_json["type"], "object");
    let required = schema_json["required"].as_array().unwrap();
    assert!(required.contains(&serde_json::Value::from("host")));
}

#[test]
fn ssh_k3s_kubeconfig_get_test_schema_optional_fields() {
    let handler = SshK3sKubeconfigGetHandler::new();
    let schema = handler.schema();
    let schema_json: serde_json::Value = serde_json::from_str(schema.input_schema).unwrap();
    let properties = schema_json["properties"].as_object().unwrap();
    assert!(properties.contains_key("path"));
    assert!(properties.contains_key("server_ip"));
    assert!(properties.contains_key("timeout_seconds"));
    assert!(properties.contains_key("max_output"));
    assert!(properties.contains_key("save_output"));
}

#[test]
fn ssh_k3s_kubeconfig_get_test_args_debug() {
    let args = SshK3sKubeconfigGetArgs {
        host: "k3s-node".to_string(),
        path: None,
        server_ip: None,
        timeout_seconds: None,
        max_output: None,
        save_output: None,
    };
    let debug_str = format!("{args:?}");
    assert!(debug_str.contains("SshK3sKubeconfigGetArgs"));
}

#[test]
fn ssh_k3s_kubeconfig_get_test_invalid_json_type() {
    let handler = SshK3sKubeconfigGetHandler::new();
    let config = empty_config();
    let result = handler.prepare(Some(Err("invalid type: integer, expected a string".to_string())), &config);
    assert!(result.is_err());
    match result.unwrap_err() {
        BridgeError::McpInvalidRequest(_) => {}
        e => panic!("Expected McpInvalidRequest, got: {e:?}"),
    }
}

#[test]
fn test_build_command_default() {
    let args = SshK3sKubeconfigGetArgs {
        host: "k3s".into(),
        path: None,
        server_ip: None,
        timeout_seconds: None,
        max_output: None,
        save_output: None,
    };
    let cmd = SshK3sKubeconfigGetTool::build_command(&args, &test_host_config()).unwrap();
    assert!(
        cmd.contains("sudo cat '/etc/rancher/k3s/k3s.yaml'"),
        "cmd: {cmd}"
    );
    assert!(!cmd.contains("sed"), "cmd: {cmd}");
}

#[test]
fn test_build_command_with_server_ip() {
    let args = SshK3sKubeconfigGetArgs {
        host: "k3s".into(),
        path: None,
        server_ip: Some("192.168.1.100".into()),
        timeout_seconds: None,
        max_output: None,
        save_output: None,
    };
    let cmd = SshK3sKubeconfigGetTool::build_command(&args, &test_host_config()).unwrap();
    assert!(cmd.contains("sed"), "cmd: {cmd}");
    assert!(cmd.contains("192.168.1.100:6443"), "cmd: {cmd}");
}

#[test]
fn test_build_command_invalid_server_ip_rejected() {
    let args = SshK3sKubeconfigGetArgs {
        host: "k3s".into(),
        path: None,
        server_ip: Some("192.168.1.1;rm -rf /".into()),
        timeout_seconds: None,
        max_output: None,
        save_output: None,
    };
    assert!(SshK3sKubeconfigGetTool::build_command(&args, &test_host_config()).is_err());
}
