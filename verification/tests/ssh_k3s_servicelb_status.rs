use bridge_mcp::config::{BridgeConfig, HostConfig};
use bridge_mcp::error::BridgeError;
use bridge_mcp::text::starts_with;
use bridge_mcp::tool::{StandardTool, ToolHandler};
use bridge_mcp::tools::ssh_k3s_servicelb_status::{
    K3sServicelbStatus, SshK3sServicelbStatusArgs, SshK3sServicelbStatusHandler,
};

fn test_host_config() -> HostConfig {
    HostConfig {
        hostname: "test".to_string(),
        port: 22,
        user: "test".to_string(),
        description: None,
        proxy_jump: None,
        tags: Vec::new(),
    }
}

fn empty_config() -> BridgeConfig {
    BridgeConfig { hosts: Vec::new(), awx: None }
}

#[test]
fn ssh_k3s_servicelb_status_test_args_debug() {
    let args = SshK3sServicelbStatusArgs {
        host: "k8s".to_string(),
        namespace: None,
        context: None,
        kubectl_bin: None,
        timeout_seconds: None,
        max_output: None,
        save_output: None,
    };
    let s = format!("{args:?}");
    assert!(s.contains("SshK3sServicelbStatusArgs"));
}

#[test]
fn ssh_k3s_servicelb_status_test_schema_optional_fields() {
    let handler = SshK3sServicelbStatusHandler::new();
    let schema = handler.schema();
    let schema_json: serde_json::Value = serde_json::from_str(schema.input_schema).unwrap();
    let props = schema_json["properties"].as_object().unwrap();
    assert!(props.contains_key("namespace"));
    assert!(props.contains_key("context"));
    assert!(props.contains_key("kubectl_bin"));
    assert!(props.contains_key("timeout_seconds"));
    assert!(props.contains_key("max_output"));
    assert!(props.contains_key("save_output"));
}

#[test]
fn ssh_k3s_servicelb_status_test_invalid_json_type() {
    let handler = SshK3sServicelbStatusHandler::new();
    let config = empty_config();
    let result = handler.prepare(Some(Err("invalid type: integer, expected a string".to_string())), &config);
    assert!(result.is_err());
    match result.unwrap_err() {
        BridgeError::McpInvalidRequest(_) => {}
        e => panic!("expected McpInvalidRequest, got: {e:?}"),
    }
}

#[test]
fn ssh_k3s_servicelb_status_test_build_command_basic() {
    let args = SshK3sServicelbStatusArgs {
        host: "k8s".into(),
        namespace: None,
        context: None,
        kubectl_bin: Some("kubectl".into()),
        timeout_seconds: None,
        max_output: None,
        save_output: None,
    };
    let cmd = K3sServicelbStatus::build_command(&args, &test_host_config()).unwrap();
    assert!(cmd.contains("type=LoadBalancer"), "cmd: {cmd}");
    assert!(cmd.contains("klipper svclb"), "cmd: {cmd}");
    assert!(cmd.contains("svclb pods"), "cmd: {cmd}");
}

#[test]
fn ssh_k3s_servicelb_status_test_build_command_rejects_invalid_namespace() {
    let args = SshK3sServicelbStatusArgs {
        host: "k8s".into(),
        namespace: Some("--all-namespaces".into()),
        context: None,
        kubectl_bin: Some("kubectl".into()),
        timeout_seconds: None,
        max_output: None,
        save_output: None,
    };
    let result = K3sServicelbStatus::build_command(&args, &test_host_config());
    assert!(result.is_err());
}

#[test]
fn ssh_k3s_servicelb_status_test_build_command_with_context() {
    let args = SshK3sServicelbStatusArgs {
        host: "k8s".into(),
        namespace: None,
        context: Some("prod".into()),
        kubectl_bin: Some("kubectl".into()),
        timeout_seconds: None,
        max_output: None,
        save_output: None,
    };
    let cmd = K3sServicelbStatus::build_command(&args, &test_host_config()).unwrap();
    assert!(cmd.contains("--context=prod"), "cmd: {cmd}");
}

#[test]
fn ssh_k3s_servicelb_status_test_build_command_includes_kubectl_prefix() {
    let args = SshK3sServicelbStatusArgs {
        host: "k8s".into(),
        namespace: None,
        context: None,
        kubectl_bin: Some("kubectl".into()),
        timeout_seconds: None,
        max_output: None,
        save_output: None,
    };
    let cmd = K3sServicelbStatus::build_command(&args, &test_host_config()).unwrap();
    assert!(cmd.starts_with("K='kubectl'"), "cmd: {cmd}");
}
