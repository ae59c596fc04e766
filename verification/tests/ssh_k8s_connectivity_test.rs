use bridge_mcp::config::{BridgeConfig, HostConfig};
use bridge_mcp::error::BridgeError;
use bridge_mcp::tool::{StandardTool, ToolHandler};
use bridge_mcp::tools::ssh_k8s_connectivity_test::{
    K8sConnectivityTest, SshK8sConnectivityTestArgs, SshK8sConnectivityTestHandler,
    default_wait_secs,
};

fn test_host_config() -> HostConfig {
    HostConfig {
        hostname: "test".to_string(),
        port: 22,
        user: "test".to_string(),
        description: None,
        proxy_jump: None,
        tags: Vec::new(),
    }
}

fn empty_config() -> BridgeConfig {
    BridgeConfig { hosts: Vec::new(), awx: None }
}

#[test]
fn ssh_k8s_connectivity_test_test_args_debug() {
    let args = SshK8sConnectivityTestArgs {
        host: "k8s".to_string(),
        target_host: "redis".to_string(),
        target_port: 6379,
        namespace: None,
        image: None,
        wait_secs: default_wait_secs(),
        context: None,
        kubectl_bin: None,
        timeout_seconds: None,
        max_output: None,
        save_output: None,
    };
    let s = format!("{args:?}");
    assert!(s.contains("SshK8sConnectivityTestArgs"));
}

#[test]
fn ssh_k8s_connectivity_test_test_schema_optional_fields() {
    let handler = SshK8sConnectivityTestHandler::new();
    let schema = handler.schema();
    let schema_json: serde_json::Value = serde_json::from_str(schema.input_schema).unwrap();
    let props = schema_json["properties"].as_object().unwrap();
    assert!(props.contains_key("namespace"));
    assert!(props.contains_key("image"));
    assert!(props.contains_key("wait_secs"));
    assert!(props.contains_key("context"));
    assert!(props.contains_key("kubectl_bin"));
    assert!(props.contains_key("timeout_seconds"));
    assert!(props.contains_key("max_output"));
    assert!(props.contains_key("save_output"));
}

#[test]
fn ssh_k8s_connectivity_test_test_invalid_json_type() {
    let handler = SshK8sConnectivityTestHandler::new();
    let config = empty_config();
    let result = handler.prepare(Some(Err("invalid type: integer, expected a string".to_string())), &config);
    assert!(result.is_err());
    match result.unwrap_err() {
        BridgeError::McpInvalidRequest(_) => {}
        e => panic!("expected McpInvalidRequest, got: {e:?}"),
    }
}

#[test]
fn ssh_k8s_connectivity_test_test_build_command_basic() {
    let args = SshK8sConnectivityTestArgs {
        host: "k8s".into(),
        target_host: "my-service".into(),
        target_port: 8080,
        namespace: Some("default".into()),
        image: None,
        wait_secs: 15,
        context: None,
        kubectl_bin: Some("kubectl".into()),
        timeout_seconds: None,
        max_output: None,
        save_output: None,
    };
    let cmd = K8sConnectivityTest::build_command(&args, &test_host_config()).unwrap();
    assert!(cmd.contains("conn-probe-$$"), "cmd: {cmd}");
    assert!(cmd.contains("'my-service'"), "cmd: {cmd}");
    assert!(cmd.contains("nc -z -w 5"), "cmd: {cmd}");
    assert!(cmd.contains("--rm"), "cmd: {cmd}");
    assert!(cmd.contains("delete pod"), "cmd: {cmd}");
}

#[test]
fn test_build_command_rejects_invalid_host() {
    let args = SshK8sConnectivityTestArgs {
        host: "k8s".into(),
        target_host: "BadHost".into(),
        target_port: 80,
        namespace: None,
        image: None,
        wait_secs: 15,
        context: None,
        kubectl_bin: Some("kubectl".into()),
        timeout_seconds: None,
        max_output: None,
        save_output: None,
    };
    let result = K8sConnectivityTest::build_command(&args, &test_host_config());
    assert!(result.is_err());
}

#[test]
fn ssh_k8s_connectivity_test_test_build_command_rejects_invalid_namespace() {
    let args = SshK8sConnectivityTestArgs {
        host: "k8s".into(),
        target_host: "redis".into(),
        target_port: 6379,
        namespace: Some("--all-namespaces".into()),
        image: None,
        wait_secs: 15,
        context: None,
        kubectl_bin: Some("kubectl".into()),
        timeout_seconds: None,
        max_output: None,
        save_output: None,
    };
    let result = K8sConnectivityTest::build_command(&args, &test_host_config());
    assert!(result.is_err());
}

#[test]
fn ssh_k8s_connectivity_test_test_build_command_with_context() {
    let args = SshK8sConnectivityTestArgs {
        host: "k8s".into(),
        target_host: "postgres".into(),
        target_port: 5432,
        namespace: None,
        image: None,
        wait_secs: 15,
        context: Some("prod".into()),
        kubectl_bin: Some("kubectl".into()),
        timeout_seconds: None,
        max_output: None,
        save_output: None,
    };
    let cmd = K8sConnectivityTest::build_command(&args, &test_host_config()).unwrap();
    assert!(cmd.contains("--context=prod"), "cmd: {cmd}");
}

#[test]
fn ssh_k8s_connectivity_test_test_build_command_includes_kubectl_prefix() {
    let args = SshK8sConnectivityTestArgs {
        host: "k8s".into(),
        target_host: "redis".into(),
        target_port: 6379,
        namespace: None,
        image: None,
        wait_secs: 15,
        context: None,
        kubectl_bin: Some("kubectl".into()),
        timeout_seconds: None,
        max_output: None,
        save_output: None,
    };
    let cmd = K8sConnectivityTest::build_command(&args, &test_host_config()).unwrap();
    assert!(cmd.contains("K='kubectl'"), "cmd: {cmd}");
}
