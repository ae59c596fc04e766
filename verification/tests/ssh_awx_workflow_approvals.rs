use bridge_mcp::awx::AwxTool;
use bridge_mcp::builders::awx::{AwxCommandBuilder, HttpMethod};
use bridge_mcp::config::BridgeConfig;
use bridge_mcp::error::BridgeError;
use bridge_mcp::tool::{OutputKind, ToolHandler};
use bridge_mcp::tools::ssh_awx_workflow_approvals::{
    SshAwxWorkflowApprovalsArgs, SshAwxWorkflowApprovalsHandler,
};

fn empty_config() -> BridgeConfig {
    BridgeConfig { hosts: Vec::new(), awx: None }
}

#[test]
fn ssh_awx_workflow_approvals_test_missing_arguments() {
    let handler = SshAwxWorkflowApprovalsHandler;
    let config = empty_config();

    let result = handler.prepare(None, &config);
    assert!(result.is_err());

    match result.unwrap_err() {
        BridgeError::McpMissingParam { param } => {
            assert_eq!(param, "arguments");
        }
        e => panic!("Expected McpMissingParam error, got: {e:?}"),
    }
}

#[test]
fn ssh_awx_workflow_approvals_test_no_awx_config() {
    let handler = SshAwxWorkflowApprovalsHandler;
    let config = empty_config();

    let args = SshAwxWorkflowApprovalsArgs {
        workflow_job_id: 42,
        status: None,
        page_size: None,
        timeout_seconds: None,
    };
    let result = handler.prepare(Some(Ok(args)), &config);
    assert!(result.is_err());
    match result.unwrap_err() {
        BridgeError::McpInvalidRequest(msg) => {
            assert!(msg.contains("AWX not configured"));
        }
        e => panic!("Expected McpInvalidRequest about AWX config, got: {e:?}"),
    }
}

#[test]
fn ssh_awx_workflow_approvals_test_schema() {
    let handler = SshAwxWorkflowApprovalsHandler;
    assert_eq!(handler.name(), "ssh_awx_workflow_approvals");
    assert!(!handler.description().is_empty());

    let schema = handler.schema();
    assert_eq!(schema.name, "ssh_awx_workflow_approvals");

    let schema_json: serde_json::Value = serde_json::from_str(schema.input_schema).unwrap();
    assert_eq!(schema_json["type"], "object");
}

#[test]
fn ssh_awx_workflow_approvals_test_schema_optional_fields() {
    let schema_json: serde_json::Value =
        serde_json::from_str(SshAwxWorkflowApprovalsHandler.schema().input_schema).unwrap();
    assert!(schema_json["properties"].is_object());
    assert!(schema_json["properties"]["status"].is_object());
    assert!(schema_json["properties"]["page_size"].is_object());
}

#[test]
fn ssh_awx_workflow_approvals_test_args_debug() {
    let args = SshAwxWorkflowApprovalsArgs {
        workflow_job_id: 1,
        status: None,
        page_size: None,
        timeout_seconds: None,
    };
    let debug_str = format!("{args:?}");
    assert!(debug_str.contains("SshAwxWorkflowApprovalsArgs"));
}

#[test]
fn ssh_awx_workflow_approvals_test_invalid_json_type() {
    let handler = SshAwxWorkflowApprovalsHandler;
    let config = empty_config();
    let result = handler.prepare(Some(Err("invalid type: integer, expected a string".to_string())), &config);
    assert!(result.is_err());
    match result.unwrap_err() {
        BridgeError::McpInvalidRequest(_) => {}
        e => panic!("Expected McpInvalidRequest, got: {e:?}"),
    }
}

#[test]
fn ssh_awx_workflow_approvals_test_output_kind() {
    let handler = SshAwxWorkflowApprovalsHandler;
    assert_eq!(handler.output_kind(), OutputKind::Json);
}

#[test]
fn test_validate_workflow_job_id_zero() {
    // workflow_job_id=0 must be rejected by validate_id (CommandDenied),
    // independent of AWX configuration.
    let handler = SshAwxWorkflowApprovalsHandler;
    let config = empty_config();
    let args = SshAwxWorkflowApprovalsArgs {
        workflow_job_id: 0,
        status: None,
        page_size: None,
        timeout_seconds: None,
    };
    let result = handler.prepare(Some(Ok(args)), &config);
    assert!(result.is_err());
    match result.unwrap_err() {
        BridgeError::CommandDenied { .. } => {}
        e => panic!("Expected CommandDenied for id=0, got: {e:?}"),
    }
}

#[test]
fn test_default_status_is_pending() {
    // When `status` is omitted, the handler defaults the query to "pending".
    let args = SshAwxWorkflowApprovalsArgs {
        workflow_job_id: 5,
        status: None,
        page_size: None,
        timeout_seconds: None,
    };
    let status = args.status.as_deref().unwrap_or("pending");
    assert_eq!(status, "pending");
}

#[test]
fn test_query_uses_source_workflow_job_id() {
    // A filter by the run is relayed as a query parameter.
    let id_str = 5u64.to_string();
    let query_params: Vec<(&str, &str)> = vec![("source_workflow_job__id", &id_str)];
    let cmd = AwxCommandBuilder::build_api_call(
        "https://awx.internal",
        "tok",
        "/api/v2/workflow_approvals/",
        HttpMethod::Get,
        None,
        true,
        &query_params,
        30,
    );
    assert!(
        cmd.contains("source_workflow_job__id=5"),
        "missing id filter: {cmd}"
    );
}
