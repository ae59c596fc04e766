use bridge_mcp::awx::AwxTool;
use bridge_mcp::config::BridgeConfig;
use bridge_mcp::error::BridgeError;
use bridge_mcp::tool::ToolHandler;
use bridge_mcp::tools::ssh_awx_host_create::{
    build_host_body, SshAwxHostCreateArgs, SshAwxHostCreateHandler,
};

fn empty_config() -> BridgeConfig {
    BridgeConfig { hosts: Vec::new(), awx: None }
}

#[test]
fn ssh_awx_host_create_test_missing_arguments() {
    let handler = SshAwxHostCreateHandler;
    let config = empty_config();
    let result = handler.prepare(None, &config);
    assert!(result.is_err());
    match result.unwrap_err() {
        BridgeError::McpMissingParam { param } => assert_eq!(param, "arguments"),
        e => panic!("Expected McpMissingParam, got: {e:?}"),
    }
}

#[test]
fn ssh_awx_host_create_test_no_awx_config() {
    let handler = SshAwxHostCreateHandler;
    let config = empty_config();
    let args = SshAwxHostCreateArgs {
        inventory_id: 7,
        name: "web1".to_string(),
        variables: None,
        enabled: None,
        description: None,
    };
    let result = handler.prepare(Some(Ok(args)), &config);
    assert!(result.is_err());
    let err_msg = result.unwrap_err().to_text();
    assert!(
        err_msg.contains("AWX not configured"),
        "Expected AWX not configured error, got: {err_msg}"
    );
}

#[test]
fn ssh_awx_host_create_test_schema() {
    let handler = SshAwxHostCreateHandler;
    assert_eq!(handler.name(), "ssh_awx_host_create");
    assert!(!handler.description().is_empty());
    let schema = handler.schema();
    assert_eq!(schema.name, "ssh_awx_host_create");
    let schema_json: serde_json::Value = serde_json::from_str(schema.input_schema).unwrap();
    assert_eq!(schema_json["type"], "object");
    let required = schema_json["required"].as_array().unwrap();
    assert!(required.contains(&serde_json::Value::from("inventory_id")));
    assert!(required.contains(&serde_json::Value::from("name")));
}

#[test]
fn ssh_awx_host_create_test_schema_optional_fields() {
    let schema_json: serde_json::Value =
        serde_json::from_str(SshAwxHostCreateHandler.schema().input_schema).unwrap();
    assert!(schema_json["properties"].is_object());
}

#[test]
fn ssh_awx_host_create_test_args_debug() {
    let args = SshAwxHostCreateArgs {
        inventory_id: 1,
        name: "host-a".to_string(),
        variables: None,
        enabled: None,
        description: None,
    };
    let debug_str = format!("{args:?}");
    assert!(debug_str.contains("SshAwxHostCreateArgs"));
}

#[test]
fn ssh_awx_host_create_test_invalid_json_type() {
    let handler = SshAwxHostCreateHandler;
    let config = empty_config();
    let result = handler.prepare(Some(Err("invalid type: integer, expected a string".to_string())), &config);
    assert!(result.is_err());
    match result.unwrap_err() {
        BridgeError::McpInvalidRequest(_) => {}
        e => panic!("Expected McpInvalidRequest, got: {e:?}"),
    }
}

#[test]
fn test_body_has_name() {
    // The request body must carry the host `name` as a JSON string field so
    // AWX creates the host under the inventory.
    let args = SshAwxHostCreateArgs {
        inventory_id: 7,
        name: "web1.internal".to_string(),
        variables: None,
        enabled: None,
        description: None,
    };
    let body_str = build_host_body(&args).to_string();
    assert!(
        body_str.contains("\"name\":\"web1.internal\""),
        "body missing name field: {body_str}"
    );
}
