use bridge_mcp::config::{BridgeConfig, HostConfig};
use bridge_mcp::error::BridgeError;
use bridge_mcp::tool::{StandardTool, ToolHandler};
use bridge_mcp::tools::ssh_k3s_etcd_snapshot_restore::{
    K3sEtcdSnapshotRestoreTool, SshK3sEtcdSnapshotRestoreArgs, SshK3sEtcdSnapshotRestoreHandler,
};

fn test_host_config() -> HostConfig {
    HostConfig {
        hostname: "test".to_string(),
        port: 22,
        user: "test".to_string(),
        description: None,
        proxy_jump: None,
        tags: Vec::new(),
    }
}

fn empty_config() -> BridgeConfig {
    BridgeConfig { hosts: Vec::new(), awx: None }
}

#[test]
fn ssh_k3s_etcd_snapshot_restore_test_missing_arguments() {
    let handler = SshK3sEtcdSnapshotRestoreHandler::new();
    let config = empty_config();
    let result = handler.prepare(None, &config);
    assert!(result.is_err());
    match result.unwrap_err() {
        BridgeError::McpMissingParam { param } => assert_eq!(param, "arguments"),
        e => panic!("Expected McpMissingParam, got: {e:?}"),
    }
}

#[test]
fn ssh_k3s_etcd_snapshot_restore_test_unknown_host() {
    let handler = SshK3sEtcdSnapshotRestoreHandler::new();
    let config = empty_config();
    let args = SshK3sEtcdSnapshotRestoreArgs {
        host: "nohost".to_string(),
        snapshot_path: "/var/lib/rancher/k3s/server/db/snapshots/snap.db".to_string(),
        k3s_bin: None,
        timeout_seconds: None,
        max_output: None,
        save_output: None,
    };
    let result = handler.prepare(Some(Ok(args)), &config);
    assert!(result.is_err());
    match result.unwrap_err() {
        BridgeError::UnknownHost { host } => assert_eq!(host, "nohost"),
        e => panic!("Expected UnknownHost, got: {e:?}"),
    }
}

#[test]
fn ssh_k3s_etcd_snapshot_restore_test_schema() {
    let handler = SshK3sEtcdSnapshotRestoreHandler::new();
    assert_eq!(handler.name(), "ssh_k3s_etcd_snapshot_restore");
    assert!(!handler.description().is_empty());
    let schema = handler.schema();
    let schema_json: serde_json::Value = serde_json::from_str(schema.input_schema).unwrap();
    assert_eq!(schema_json["type"], "object");
    let required = schema_json["required"].as_array().unwrap();
    assert!(required.contains(&serde_json::Value::from("host")));
    assert!(required.contains(&serde_json::Value::from("snapshot_path")));
}

#[test]
fn ssh_k3s_etcd_snapshot_restore_test_schema_optional_fields() {
    let handler = SshK3sEtcdSnapshotRestoreHandler::new();
    let schema = handler.schema();
    let schema_json: serde_json::Value = serde_json::from_str(schema.input_schema).unwrap();
    let props = schema_json["properties"].as_object().unwrap();
    assert!(props.contains_key("k3s_bin"));
    assert!(props.contains_key("timeout_seconds"));
    assert!(props.contains_key("max_output"));
    assert!(props.contains_key("save_output"));
}

#[test]
fn ssh_k3s_etcd_snapshot_restore_test_args_debug() {
    let args = SshK3sEtcdSnapshotRestoreArgs {
        host: "k3s-node".to_string(),
        snapshot_path: "/var/snap.db".to_string(),
        k3s_bin: None,
        timeout_seconds: None,
        max_output: None,
        save_output: None,
    };
    let debug_str = format!("{args:?}");
    assert!(debug_str.contains("SshK3sEtcdSnapshotRestoreArgs"));
}

#[test]
fn ssh_k3s_etcd_snapshot_restore_test_invalid_json_type() {
    let handler = SshK3sEtcdSnapshotRestoreHandler::new();
    let config = empty_config();
    let result = handler.prepare(Some(Err("invalid type: integer, expected a string".to_string())), &config);
    assert!(result.is_err());
    match result.unwrap_err() {
        BridgeError::McpInvalidRequest(_) => {}
        e => panic!("Expected McpInvalidRequest, got: {e:?}"),
    }
}

#[test]
fn test_build_command_restore() {
    let args = SshK3sEtcdSnapshotRestoreArgs {
        host: "s1".into(),
        snapshot_path: "/var/lib/rancher/k3s/server/db/snapshots/snap.db".into(),
        k3s_bin: Some("k3s".into()),
        timeout_seconds: None,
        max_output: None,
        save_output: None,
    };
    let cmd = K3sEtcdSnapshotRestoreTool::build_command(&args, &test_host_config()).unwrap();
    assert!(cmd.contains("sudo k3s server"), "cmd: {cmd}");
    assert!(cmd.contains("--cluster-reset"), "cmd: {cmd}");
    assert!(cmd.contains("--cluster-reset-restore-path="), "cmd: {cmd}");
    assert!(cmd.contains("snap.db"), "cmd: {cmd}");
}

#[test]
fn ssh_k3s_etcd_snapshot_restore_test_build_command_invalid_path_rejected() {
    let args = SshK3sEtcdSnapshotRestoreArgs {
        host: "s1".into(),
        snapshot_path: "relative/path/snap.db".into(),
        k3s_bin: Some("k3s".into()),
        timeout_seconds: None,
        max_output: None,
        save_output: None,
    };
    let result = K3sEtcdSnapshotRestoreTool::build_command(&args, &test_host_config());
    assert!(result.is_err());
}
