use bridge_mcp::config::{BridgeConfig, HostConfig};
use bridge_mcp::error::BridgeError;
use bridge_mcp::tool::{StandardTool, ToolHandler};
use bridge_mcp::tools::ssh_k8s_auth_reconcile::{
    K8sAuthReconcileTool, SshK8sAuthReconcileArgs, SshK8sAuthReconcileHandler,
};

fn test_host_config() -> HostConfig {
    HostConfig {
        hostname: "test".to_string(),
        port: 22,
        user: "test".to_string(),
        description: None,
        proxy_jump: None,
        tags: Vec::new(),
    }
}

fn empty_config() -> BridgeConfig {
    BridgeConfig { hosts: Vec::new(), awx: None }
}

#[test]
fn ssh_k8s_auth_reconcile_test_missing_arguments() {
    let handler = SshK8sAuthReconcileHandler::new();
    let config = empty_config();
    let result = handler.prepare(None, &config);
    assert!(result.is_err());
    match result.unwrap_err() {
        BridgeError::McpMissingParam { param } => assert_eq!(param, "arguments"),
        e => panic!("Expected McpMissingParam, got: {e:?}"),
    }
}

#[test]
fn ssh_k8s_auth_reconcile_test_unknown_host() {
    let handler = SshK8sAuthReconcileHandler::new();
    let config = empty_config();
    let args = SshK8sAuthReconcileArgs {
        host: "nonexistent".to_string(),
        manifest: "/tmp/rbac.yaml".to_string(),
        dry_run: false,
        remove_extra_permissions: false,
        remove_extra_subjects: false,
        context: None,
        kubectl_bin: None,
        timeout_seconds: None,
        max_output: None,
        save_output: None,
    };
    let result = handler.prepare(Some(Ok(args)), &config);
    assert!(result.is_err());
    match result.unwrap_err() {
        BridgeError::UnknownHost { host } => assert_eq!(host, "nonexistent"),
        e => panic!("Expected UnknownHost, got: {e:?}"),
    }
}

#[test]
fn ssh_k8s_auth_reconcile_test_schema() {
    let handler = SshK8sAuthReconcileHandler::new();
    assert_eq!(handler.name(), "ssh_k8s_auth_reconcile");
    assert!(!handler.description().is_empty());
    let schema = handler.schema();
    assert_eq!(schema.name, "ssh_k8s_auth_reconcile");
    let schema_json: serde_json::Value = serde_json::from_str(schema.input_schema).unwrap();
    assert_eq!(schema_json["type"], "object");
    let required = schema_json["required"].as_array().unwrap();
    assert!(required.contains(&serde_json::Value::from("host")));
    assert!(required.contains(&serde_json::Value::from("manifest")));
}

#[test]
fn ssh_k8s_auth_reconcile_test_schema_optional_fields() {
    let handler = SshK8sAuthReconcileHandler::new();
    let schema = handler.schema();
    let schema_json: serde_json::Value = serde_json::from_str(schema.input_schema).unwrap();
    let properties = schema_json["properties"].as_object().unwrap();
    assert!(properties.contains_key("dry_run"));
    assert!(properties.contains_key("remove_extra_permissions"));
    assert!(properties.contains_key("remove_extra_subjects"));
    assert!(properties.contains_key("context"));
    assert!(properties.contains_key("kubectl_bin"));
    assert!(properties.contains_key("timeout_seconds"));
    assert!(properties.contains_key("max_output"));
    assert!(properties.contains_key("save_output"));
}

#[test]
fn ssh_k8s_auth_reconcile_test_args_debug() {
    let args = SshK8sAuthReconcileArgs {
        host: "server1".to_string(),
        manifest: "/tmp/rbac.yaml".to_string(),
        dry_run: false,
        remove_extra_permissions: false,
        remove_extra_subjects: false,
        context: None,
        kubectl_bin: None,
        timeout_seconds: None,
        max_output: None,
        save_output: None,
    };
    let debug_str = format!("{args:?}");
    assert!(debug_str.contains("SshK8sAuthReconcileArgs"));
}

#[test]
fn ssh_k8s_auth_reconcile_test_invalid_json_type() {
    let handler = SshK8sAuthReconcileHandler::new();
    let config = empty_config();
    let result = handler.prepare(Some(Err("invalid type: integer, expected a string".to_string())), &config);
    assert!(result.is_err());
    match result.unwrap_err() {
        BridgeError::McpInvalidRequest(_) => {}
        e => panic!("Expected McpInvalidRequest, got: {e:?}"),
    }
}

#[test]
fn test_build_command_reconcile_file_path() {
    let args = SshK8sAuthReconcileArgs {
        host: "s1".into(),
        manifest: "/etc/k8s/rbac.yaml".into(),
        dry_run: false,
        remove_extra_permissions: false,
        remove_extra_subjects: false,
        context: Some("east".into()),
        kubectl_bin: Some("kubectl".into()),
        timeout_seconds: None,
        max_output: None,
        save_output: None,
    };
    let cmd = K8sAuthReconcileTool::build_command(&args, &test_host_config()).unwrap();
    assert!(cmd.contains("auth reconcile"), "cmd: {cmd}");
    assert!(cmd.contains("-f"), "cmd: {cmd}");
    assert!(cmd.contains("/etc/k8s/rbac.yaml"), "cmd: {cmd}");
    assert!(cmd.contains("--context=east"), "cmd: {cmd}");
    assert!(!cmd.contains("echo"), "should be file path, not inline: {cmd}");
}

#[test]
fn test_build_command_reconcile_inline_manifest() {
    let args = SshK8sAuthReconcileArgs {
        host: "s1".into(),
        manifest: "apiVersion: rbac.authorization.k8s.io/v1\nkind: Role".into(),
        dry_run: true,
        remove_extra_permissions: true,
        remove_extra_subjects: true,
        context: None,
        kubectl_bin: Some("kubectl".into()),
        timeout_seconds: None,
        max_output: None,
        save_output: None,
    };
    let cmd = K8sAuthReconcileTool::build_command(&args, &test_host_config()).unwrap();
    assert!(cmd.contains("echo"), "should be inline: {cmd}");
    assert!(cmd.contains("auth reconcile -f -"), "cmd: {cmd}");
    assert!(cmd.contains("--dry-run=client"), "cmd: {cmd}");
    assert!(cmd.contains("--remove-extra-permissions"), "cmd: {cmd}");
    assert!(cmd.contains("--remove-extra-subjects"), "cmd: {cmd}");
}
