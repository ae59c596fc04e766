use bridge_mcp::awx::AwxTool;
use bridge_mcp::builders::awx::{AwxCommandBuilder, HttpMethod};
use bridge_mcp::config::BridgeConfig;
use bridge_mcp::error::BridgeError;
use bridge_mcp::tool::ToolHandler;
use bridge_mcp::tools::ssh_awx_schedule_set::{SshAwxScheduleSetArgs, SshAwxScheduleSetHandler};

fn empty_config() -> BridgeConfig {
    BridgeConfig { hosts: Vec::new(), awx: None }
}

#[test]
fn ssh_awx_schedule_set_test_missing_arguments() {
    let handler = SshAwxScheduleSetHandler;
    let config = empty_config();
    let result = handler.prepare(None, &config);
    assert!(result.is_err());
    match result.unwrap_err() {
        BridgeError::McpMissingParam { param } => assert_eq!(param, "arguments"),
        e => panic!("Expected McpMissingParam, got: {e:?}"),
    }
}

#[test]
fn ssh_awx_schedule_set_test_no_awx_config() {
    let handler = SshAwxScheduleSetHandler;
    let config = empty_config();
    let args = SshAwxScheduleSetArgs {
        schedule_id: 5,
        enabled: false,
    };
    let result = handler.prepare(Some(Ok(args)), &config);
    assert!(result.is_err());
    let err_msg = result.unwrap_err().to_text();
    assert!(
        err_msg.contains("AWX not configured"),
        "Expected AWX not configured error, got: {err_msg}"
    );
}

#[test]
fn ssh_awx_schedule_set_test_schema() {
    let handler = SshAwxScheduleSetHandler;
    assert_eq!(handler.name(), "ssh_awx_schedule_set");
    assert!(!handler.description().is_empty());
    let schema = handler.schema();
    assert_eq!(schema.name, "ssh_awx_schedule_set");
    let schema_json: serde_json::Value = serde_json::from_str(schema.input_schema).unwrap();
    assert_eq!(schema_json["type"], "object");
    let required = schema_json["required"].as_array().unwrap();
    assert!(required.contains(&serde_json::Value::from("schedule_id")));
    assert!(required.contains(&serde_json::Value::from("enabled")));
}

#[test]
fn ssh_awx_schedule_set_test_schema_optional_fields() {
    let schema_json: serde_json::Value =
        serde_json::from_str(SshAwxScheduleSetHandler.schema().input_schema).unwrap();
    assert!(schema_json["properties"].is_object());
}

#[test]
fn ssh_awx_schedule_set_test_args_debug() {
    let args = SshAwxScheduleSetArgs {
        schedule_id: 5,
        enabled: false,
    };
    let debug_str = format!("{args:?}");
    assert!(debug_str.contains("SshAwxScheduleSetArgs"));
}

#[test]
fn ssh_awx_schedule_set_test_invalid_json_type() {
    let handler = SshAwxScheduleSetHandler;
    let config = empty_config();
    let result = handler.prepare(Some(Err("invalid type: integer, expected a string".to_string())), &config);
    assert!(result.is_err());
    match result.unwrap_err() {
        BridgeError::McpInvalidRequest(_) => {}
        e => panic!("Expected McpInvalidRequest, got: {e:?}"),
    }
}

#[test]
fn test_patch_body_enabled() {
    // The PATCH body must carry the boolean `enabled` field verbatim.
    let cmd = AwxCommandBuilder::build_api_call_checked(
        "https://awx.internal",
        "tok",
        "/api/v2/schedules/5/",
        HttpMethod::Patch,
        Some(r#"{"enabled":false}"#),
        true,
        &[],
        30,
    );
    assert!(cmd.contains(r#"{"enabled":false}"#), "body missing: {cmd}");
}

#[test]
fn ssh_awx_schedule_set_test_method_is_patch() {
    let cmd = AwxCommandBuilder::build_api_call_checked(
        "https://awx.internal",
        "tok",
        "/api/v2/schedules/5/",
        HttpMethod::Patch,
        Some(r#"{"enabled":true}"#),
        true,
        &[],
        30,
    );
    assert!(cmd.contains("-X PATCH"), "method not PATCH: {cmd}");
}
