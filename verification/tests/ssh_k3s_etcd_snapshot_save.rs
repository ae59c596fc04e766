use bridge_mcp::config::{BridgeConfig, HostConfig};
use bridge_mcp::error::BridgeError;
use bridge_mcp::tool::{StandardTool, ToolHandler};
use bridge_mcp::tools::ssh_k3s_etcd_snapshot_save::{
    SshK3sEtcdSnapshotSaveArgs, SshK3sEtcdSnapshotSaveHandler, SshK3sEtcdSnapshotSaveTool,
};

fn test_host_config() -> HostConfig {
    HostConfig {
        hostname: "test".to_string(),
        port: 22,
        user: "test".to_string(),
        description: None,
        proxy_jump: None,
        tags: Vec::new(),
    }
}

fn empty_config() -> BridgeConfig {
    BridgeConfig { hosts: Vec::new(), awx: None }
}

#[test]
fn ssh_k3s_etcd_snapshot_save_test_missing_arguments() {
    let handler = SshK3sEtcdSnapshotSaveHandler::new();
    let config = empty_config();
    let result = handler.prepare(None, &config);
    assert!(result.is_err());
    match result.unwrap_err() {
        BridgeError::McpMissingParam { param } => assert_eq!(param, "arguments"),
        e => panic!("Expected McpMissingParam, got: {e:?}"),
    }
}

#[test]
fn ssh_k3s_etcd_snapshot_save_test_unknown_host() {
    let handler = SshK3sEtcdSnapshotSaveHandler::new();
    let config = empty_config();
    let args = SshK3sEtcdSnapshotSaveArgs {
        host: "nonexistent".to_string(),
        name: None,
        dir: None,
        k3s_bin: None,
        timeout_seconds: None,
        max_output: None,
        save_output: None,
    };
    let result = handler.prepare(Some(Ok(args)), &config);
    assert!(result.is_err());
    match result.unwrap_err() {
        BridgeError::UnknownHost { host } => assert_eq!(host, "nonexistent"),
        e => panic!("Expected UnknownHost, got: {e:?}"),
    }
}

#[test]
fn ssh_k3s_etcd_snapshot_save_test_schema() {
    let handler = SshK3sEtcdSnapshotSaveHandler::new();
    assert_eq!(handler.name(), "ssh_k3s_etcd_snapshot_save");
    assert!(!handler.description().is_empty());
    let schema = handler.schema();
    assert_eq!(schema.name, "ssh_k3s_etcd_snapshot_save");
    let schema_json: serde_json::Value = serde_json::from_str(schema.input_schema).unwrap();
    assert_eq!(schema_json["type"], "object");
    let required = schema_json["required"].as_array().unwrap();
    assert!(required.contains(&serde_json::Value::from("host")));
}

#[test]
fn ssh_k3s_etcd_snapshot_save_test_schema_optional_fields() {
    let handler = SshK3sEtcdSnapshotSaveHandler::new();
    let schema = handler.schema();
    let schema_json: serde_json::Value = serde_json::from_str(schema.input_schema).unwrap();
    let properties = schema_json["properties"].as_object().unwrap();
    assert!(properties.contains_key("name"));
    assert!(properties.contains_key("dir"));
    assert!(properties.contains_key("k3s_bin"));
    assert!(properties.contains_key("timeout_seconds"));
    assert!(properties.contains_key("max_output"));
    assert!(properties.contains_key("save_output"));
}

#[test]
fn ssh_k3s_etcd_snapshot_save_test_args_debug() {
    let args = SshK3sEtcdSnapshotSaveArgs {
        host: "k3s-node".to_string(),
        name: None,
        dir: None,
        k3s_bin: None,
        timeout_seconds: None,
        max_output: None,
        save_output: None,
    };
    let debug_str = format!("{args:?}");
    assert!(debug_str.contains("SshK3sEtcdSnapshotSaveArgs"));
}

#[test]
fn ssh_k3s_etcd_snapshot_save_test_invalid_json_type() {
    let handler = SshK3sEtcdSnapshotSaveHandler::new();
    let config = empty_config();
    let result = handler.prepare(Some(Err("invalid type: integer, expected a string".to_string())), &config);
    assert!(result.is_err());
    match result.unwrap_err() {
        BridgeError::McpInvalidRequest(_) => {}
        e => panic!("Expected McpInvalidRequest, got: {e:?}"),
    }
}

#[test]
fn ssh_k3s_etcd_snapshot_save_test_build_command_minimal() {
    let args = SshK3sEtcdSnapshotSaveArgs {
        host: "k3s".into(),
        name: None,
        dir: None,
        k3s_bin: Some("k3s".into()),
        timeout_seconds: None,
        max_output: None,
        save_output: None,
    };
    let cmd = SshK3sEtcdSnapshotSaveTool::build_command(&args, &test_host_config()).unwrap();
    assert!(cmd.contains("sudo k3s etcd-snapshot save"), "cmd: {cmd}");
    assert!(!cmd.contains("--name"), "cmd: {cmd}");
    assert!(!cmd.contains("--dir"), "cmd: {cmd}");
}

#[test]
fn test_build_command_with_name_and_dir() {
    let args = SshK3sEtcdSnapshotSaveArgs {
        host: "k3s".into(),
        name: Some("my-snap".into()),
        dir: Some("/var/lib/rancher/k3s/server/db/snapshots".into()),
        k3s_bin: Some("k3s".into()),
        timeout_seconds: None,
        max_output: None,
        save_output: None,
    };
    let cmd = SshK3sEtcdSnapshotSaveTool::build_command(&args, &test_host_config()).unwrap();
    assert!(cmd.contains("--name 'my-snap'"), "cmd: {cmd}");
    assert!(
        cmd.contains("--dir '/var/lib/rancher/k3s/server/db/snapshots'"),
        "cmd: {cmd}"
    );
}

#[test]
fn test_build_command_invalid_name_rejected() {
    let args = SshK3sEtcdSnapshotSaveArgs {
        host: "k3s".into(),
        name: Some("bad/name".into()),
        dir: None,
        k3s_bin: Some("k3s".into()),
        timeout_seconds: None,
        max_output: None,
        save_output: None,
    };
    assert!(SshK3sEtcdSnapshotSaveTool::build_command(&args, &test_host_config()).is_err());
}
