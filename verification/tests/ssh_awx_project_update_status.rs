use bridge_mcp::awx::AwxTool;
use bridge_mcp::config::BridgeConfig;
use bridge_mcp::error::BridgeError;
use bridge_mcp::tool::{OutputKind, ToolHandler};
use bridge_mcp::tools::ssh_awx_project_update_status::{
    SshAwxProjectUpdateStatusArgs, SshAwxProjectUpdateStatusHandler,
};

fn empty_config() -> BridgeConfig {
    BridgeConfig { hosts: Vec::new(), awx: None }
}

#[test]
fn ssh_awx_project_update_status_test_missing_arguments() {
    let handler = SshAwxProjectUpdateStatusHandler;
    let config = empty_config();

    let result = handler.prepare(None, &config);
    assert!(result.is_err());

    match result.unwrap_err() {
        BridgeError::McpMissingParam { param } => {
            assert_eq!(param, "arguments");
        }
        e => panic!("Expected McpMissingParam error, got: {e:?}"),
    }
}

#[test]
fn ssh_awx_project_update_status_test_schema() {
    let handler = SshAwxProjectUpdateStatusHandler;
    assert_eq!(handler.name(), "ssh_awx_project_update_status");
    assert!(!handler.description().is_empty());

    let schema = handler.schema();
    assert_eq!(schema.name, "ssh_awx_project_update_status");

    let schema_json: serde_json::Value = serde_json::from_str(schema.input_schema).unwrap();
    assert_eq!(schema_json["type"], "object");
    let required = schema_json["required"].as_array().unwrap();
    assert!(required.contains(&serde_json::Value::from("project_update_id")));
}

#[test]
fn ssh_awx_project_update_status_test_schema_optional_fields() {
    let handler = SshAwxProjectUpdateStatusHandler;
    let schema_json: serde_json::Value =
        serde_json::from_str(handler.schema().input_schema).unwrap();
    assert!(schema_json["properties"].is_object());
    assert!(schema_json["properties"]["timeout_seconds"].is_object());
}

#[test]
fn ssh_awx_project_update_status_test_args_debug() {
    let args = SshAwxProjectUpdateStatusArgs {
        project_update_id: 5,
        timeout_seconds: None,
    };
    let debug_str = format!("{args:?}");
    assert!(debug_str.contains("SshAwxProjectUpdateStatusArgs"));
}

#[test]
fn ssh_awx_project_update_status_test_invalid_json_type() {
    let handler = SshAwxProjectUpdateStatusHandler;
    let config = empty_config();
    let result = handler.prepare(Some(Err("invalid type: integer, expected a string".to_string())), &config);
    assert!(result.is_err());
    match result.unwrap_err() {
        BridgeError::McpInvalidRequest(_) => {}
        e => panic!("Expected McpInvalidRequest, got: {e:?}"),
    }
}

#[test]
fn ssh_awx_project_update_status_test_no_awx_config() {
    let handler = SshAwxProjectUpdateStatusHandler;
    let config = empty_config();

    let args = SshAwxProjectUpdateStatusArgs {
        project_update_id: 1,
        timeout_seconds: None,
    };
    let result = handler.prepare(Some(Ok(args)), &config);
    assert!(result.is_err());
    match result.unwrap_err() {
        BridgeError::McpInvalidRequest(msg) => {
            assert!(msg.contains("AWX not configured"));
        }
        e => panic!("Expected McpInvalidRequest about AWX config, got: {e:?}"),
    }
}

#[test]
fn ssh_awx_project_update_status_test_validate_id_zero() {
    let handler = SshAwxProjectUpdateStatusHandler;
    let config = empty_config();

    let args = SshAwxProjectUpdateStatusArgs {
        project_update_id: 0,
        timeout_seconds: None,
    };
    let result = handler.prepare(Some(Ok(args)), &config);
    assert!(result.is_err());
    match result.unwrap_err() {
        BridgeError::CommandDenied { reason } => {
            assert!(reason.contains("positive integer"));
        }
        e => panic!("Expected CommandDenied, got: {e:?}"),
    }
}

#[test]
fn ssh_awx_project_update_status_test_output_kind() {
    let handler = SshAwxProjectUpdateStatusHandler;
    assert_eq!(handler.output_kind(), OutputKind::Json);
}
