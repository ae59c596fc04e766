use bridge_mcp::awx::AwxTool;
use bridge_mcp::builders::awx::{AwxCommandBuilder, HttpMethod};
use bridge_mcp::config::BridgeConfig;
use bridge_mcp::error::BridgeError;
use bridge_mcp::tool::ToolHandler;
use bridge_mcp::tools::ssh_awx_adhoc_launch::{
    SshAwxAdhocLaunchArgs, SshAwxAdhocLaunchHandler, build_adhoc_body, default_module_name,
};

fn empty_config() -> BridgeConfig {
    BridgeConfig { hosts: Vec::new(), awx: None }
}

#[test]
fn ssh_awx_adhoc_launch_test_missing_arguments() {
    let handler = SshAwxAdhocLaunchHandler;
    let config = empty_config();
    let result = handler.prepare(None, &config);
    assert!(result.is_err());
    match result.unwrap_err() {
        BridgeError::McpMissingParam { param } => assert_eq!(param, "arguments"),
        e => panic!("Expected McpMissingParam, got: {e:?}"),
    }
}

#[test]
fn ssh_awx_adhoc_launch_test_schema() {
    let handler = SshAwxAdhocLaunchHandler;
    assert_eq!(handler.name(), "ssh_awx_adhoc_launch");
    assert!(!handler.description().is_empty());
    let schema = handler.schema();
    assert_eq!(schema.name, "ssh_awx_adhoc_launch");
    let schema_json: serde_json::Value = serde_json::from_str(schema.input_schema).unwrap();
    let required = schema_json["required"].as_array().unwrap();
    assert!(required.contains(&serde_json::Value::from("inventory")));
    assert!(required.contains(&serde_json::Value::from("credential")));
    assert!(required.contains(&serde_json::Value::from("module_args")));
}

#[test]
fn ssh_awx_adhoc_launch_test_schema_optional_fields() {
    let schema_json: serde_json::Value =
        serde_json::from_str(SshAwxAdhocLaunchHandler.schema().input_schema).unwrap();
    assert!(schema_json["properties"].is_object());
    assert!(schema_json["properties"]["limit"].is_object());
    assert!(schema_json["properties"]["verbosity"].is_object());
    assert!(schema_json["properties"]["become_enabled"].is_object());
}

#[test]
fn ssh_awx_adhoc_launch_test_args_debug() {
    let args = SshAwxAdhocLaunchArgs {
        inventory: 1,
        credential: 2,
        module_name: default_module_name(),
        module_args: "whoami".to_string(),
        limit: None,
        verbosity: None,
        become_enabled: None,
    };
    let debug_str = format!("{args:?}");
    assert!(debug_str.contains("SshAwxAdhocLaunchArgs"));
}

#[test]
fn ssh_awx_adhoc_launch_test_invalid_json_type() {
    let handler = SshAwxAdhocLaunchHandler;
    let config = empty_config();
    let result = handler.prepare(Some(Err("invalid type: integer, expected a string".to_string())), &config);
    assert!(result.is_err());
    match result.unwrap_err() {
        BridgeError::McpInvalidRequest(_) => {}
        e => panic!("Expected McpInvalidRequest, got: {e:?}"),
    }
}

#[test]
fn ssh_awx_adhoc_launch_test_no_awx_config() {
    let handler = SshAwxAdhocLaunchHandler;
    let config = empty_config();
    let args = SshAwxAdhocLaunchArgs {
        inventory: 7,
        credential: 3,
        module_name: default_module_name(),
        module_args: "uptime".to_string(),
        limit: None,
        verbosity: None,
        become_enabled: None,
    };
    let result = handler.prepare(Some(Ok(args)), &config);
    assert!(result.is_err());
    let err_msg = result.unwrap_err().to_text();
    assert!(
        err_msg.contains("AWX not configured"),
        "Expected AWX not configured error, got: {err_msg}"
    );
}

#[test]
fn test_body_contains_module_args() {
    // module_args must be carried in the JSON body as a string field, never
    // interpolated into the shell command.
    let args = SshAwxAdhocLaunchArgs {
        inventory: 7,
        credential: 3,
        module_name: "shell".to_string(),
        module_args: "rm -rf /tmp/foo && echo done".to_string(),
        limit: None,
        verbosity: None,
        become_enabled: None,
    };
    let body = build_adhoc_body(&args);
    let body_str = body.to_string();
    let cmd = AwxCommandBuilder::build_api_call_checked(
        "https://awx.internal",
        "tok",
        "/api/v2/ad_hoc_commands/",
        HttpMethod::Post,
        Some(&body_str),
        true,
        &[],
        30,
    );
    assert!(cmd.contains("-X POST"));
    assert!(cmd.contains("module_args"));
    assert!(cmd.contains("rm -rf /tmp/foo"));
}

#[test]
fn test_validate_inventory_zero() {
    let handler = SshAwxAdhocLaunchHandler;
    let config = empty_config();
    let args = SshAwxAdhocLaunchArgs {
        inventory: 0,
        credential: 3,
        module_name: default_module_name(),
        module_args: "uptime".to_string(),
        limit: None,
        verbosity: None,
        become_enabled: None,
    };
    let result = handler.prepare(Some(Ok(args)), &config);
    assert!(result.is_err());
    match result.unwrap_err() {
        BridgeError::CommandDenied { .. } => {}
        e => panic!("Expected CommandDenied, got: {e:?}"),
    }
}
