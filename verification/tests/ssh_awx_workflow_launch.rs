use bridge_mcp::awx::AwxTool;
use bridge_mcp::config::BridgeConfig;
use bridge_mcp::error::BridgeError;
use bridge_mcp::tool::{OutputKind, ToolHandler};
use bridge_mcp::tools::ssh_awx_workflow_launch::{
    SshAwxWorkflowLaunchArgs, SshAwxWorkflowLaunchHandler,
};

fn empty_config() -> BridgeConfig {
    BridgeConfig { hosts: Vec::new(), awx: None }
}

#[test]
fn ssh_awx_workflow_launch_test_missing_arguments() {
    let handler = SshAwxWorkflowLaunchHandler;
    let config = empty_config();
    let result = handler.prepare(None, &config);
    assert!(result.is_err());
    match result.unwrap_err() {
        BridgeError::McpMissingParam { param } => assert_eq!(param, "arguments"),
        e => panic!("Expected McpMissingParam, got: {e:?}"),
    }
}

#[test]
fn ssh_awx_workflow_launch_test_schema() {
    let handler = SshAwxWorkflowLaunchHandler;
    assert_eq!(handler.name(), "ssh_awx_workflow_launch");
    assert!(!handler.description().is_empty());
    let schema = handler.schema();
    assert_eq!(schema.name, "ssh_awx_workflow_launch");
    let schema_json: serde_json::Value = serde_json::from_str(schema.input_schema).unwrap();
    assert_eq!(schema_json["type"], "object");
    let required = schema_json["required"].as_array().unwrap();
    assert!(required.contains(&serde_json::Value::from("workflow_template_id")));
}

#[test]
fn ssh_awx_workflow_launch_test_args_debug() {
    let args = SshAwxWorkflowLaunchArgs {
        workflow_template_id: 1,
        extra_vars: None,
        limit: None,
        inventory: None,
    };
    let debug_str = format!("{args:?}");
    assert!(debug_str.contains("SshAwxWorkflowLaunchArgs"));
}

#[test]
fn ssh_awx_workflow_launch_test_invalid_json_type() {
    let handler = SshAwxWorkflowLaunchHandler;
    let config = empty_config();
    let result = handler.prepare(Some(Err("invalid type: integer, expected a string".to_string())), &config);
    assert!(result.is_err());
    match result.unwrap_err() {
        BridgeError::McpInvalidRequest(_) => {}
        e => panic!("Expected McpInvalidRequest, got: {e:?}"),
    }
}

#[test]
fn ssh_awx_workflow_launch_test_no_awx_config() {
    let handler = SshAwxWorkflowLaunchHandler;
    let config = empty_config();
    let args = SshAwxWorkflowLaunchArgs {
        workflow_template_id: 7,
        extra_vars: None,
        limit: None,
        inventory: None,
    };
    let result = handler.prepare(Some(Ok(args)), &config);
    assert!(result.is_err());
    let err_msg = result.unwrap_err().to_text();
    assert!(
        err_msg.contains("AWX not configured"),
        "Expected AWX not configured error, got: {err_msg}"
    );
}

#[test]
fn ssh_awx_workflow_launch_test_output_kind() {
    let handler = SshAwxWorkflowLaunchHandler;
    assert_eq!(handler.output_kind(), OutputKind::Json);
}
