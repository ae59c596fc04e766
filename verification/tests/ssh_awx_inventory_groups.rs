use bridge_mcp::awx::AwxTool;
use bridge_mcp::config::BridgeConfig;
use bridge_mcp::error::BridgeError;
use bridge_mcp::tool::{OutputKind, ToolHandler};
use bridge_mcp::tools::ssh_awx_inventory_groups::{
    SshAwxInventoryGroupsArgs, SshAwxInventoryGroupsHandler,
};

fn empty_config() -> BridgeConfig {
    BridgeConfig { hosts: Vec::new(), awx: None }
}

#[test]
fn ssh_awx_inventory_groups_test_missing_arguments() {
    let handler = SshAwxInventoryGroupsHandler;
    let config = empty_config();

    let result = handler.prepare(None, &config);
    assert!(result.is_err());

    match result.unwrap_err() {
        BridgeError::McpMissingParam { param } => {
            assert_eq!(param, "arguments");
        }
        e => panic!("Expected McpMissingParam error, got: {e:?}"),
    }
}

#[test]
fn ssh_awx_inventory_groups_test_schema() {
    let handler = SshAwxInventoryGroupsHandler;
    assert_eq!(handler.name(), "ssh_awx_inventory_groups");
    assert!(!handler.description().is_empty());

    let schema = handler.schema();
    assert_eq!(schema.name, "ssh_awx_inventory_groups");

    let schema_json: serde_json::Value = serde_json::from_str(schema.input_schema).unwrap();
    assert_eq!(schema_json["type"], "object");
    let required = schema_json["required"].as_array().unwrap();
    assert!(required.contains(&serde_json::Value::from("inventory_id")));
}

#[test]
fn ssh_awx_inventory_groups_test_schema_optional_fields() {
    let schema_json: serde_json::Value =
        serde_json::from_str(SshAwxInventoryGroupsHandler.schema().input_schema).unwrap();
    assert!(schema_json["properties"].is_object());
    assert!(schema_json["properties"]["page_size"].is_object());
}

#[test]
fn ssh_awx_inventory_groups_test_args_debug() {
    let args = SshAwxInventoryGroupsArgs {
        inventory_id: 5,
        page_size: None,
        timeout_seconds: None,
    };
    let debug_str = format!("{args:?}");
    assert!(debug_str.contains("SshAwxInventoryGroupsArgs"));
}

#[test]
fn ssh_awx_inventory_groups_test_invalid_json_type() {
    let handler = SshAwxInventoryGroupsHandler;
    let config = empty_config();
    let result = handler.prepare(Some(Err("invalid type: integer, expected a string".to_string())), &config);
    assert!(result.is_err());
    match result.unwrap_err() {
        BridgeError::McpInvalidRequest(_) => {}
        e => panic!("Expected McpInvalidRequest, got: {e:?}"),
    }
}

#[test]
fn ssh_awx_inventory_groups_test_no_awx_config() {
    let handler = SshAwxInventoryGroupsHandler;
    let config = empty_config();

    let args = SshAwxInventoryGroupsArgs {
        inventory_id: 1,
        page_size: None,
        timeout_seconds: None,
    };
    let result = handler.prepare(Some(Ok(args)), &config);
    assert!(result.is_err());
    match result.unwrap_err() {
        BridgeError::McpInvalidRequest(msg) => {
            assert!(msg.contains("AWX not configured"));
        }
        e => panic!("Expected McpInvalidRequest about AWX config, got: {e:?}"),
    }
}

#[test]
fn test_validate_inventory_id_zero() {
    let handler = SshAwxInventoryGroupsHandler;
    let config = empty_config();

    let args = SshAwxInventoryGroupsArgs {
        inventory_id: 0,
        page_size: None,
        timeout_seconds: None,
    };
    let result = handler.prepare(Some(Ok(args)), &config);
    assert!(result.is_err());
}

#[test]
fn ssh_awx_inventory_groups_test_output_kind() {
    let handler = SshAwxInventoryGroupsHandler;
    assert_eq!(handler.output_kind(), OutputKind::Json);
}
