use bridge_mcp::awx::AwxTool;
use bridge_mcp::builders::awx::{AwxCommandBuilder, HttpMethod};
use bridge_mcp::config::BridgeConfig;
use bridge_mcp::error::BridgeError;
use bridge_mcp::tool::{OutputKind, ToolHandler};
use bridge_mcp::tools::ssh_awx_jobs::{SshAwxJobsArgs, SshAwxJobsHandler};

fn empty_config() -> BridgeConfig {
    BridgeConfig { hosts: Vec::new(), awx: None }
}

#[test]
fn ssh_awx_jobs_test_missing_arguments() {
    let handler = SshAwxJobsHandler;
    let config = empty_config();

    let result = handler.prepare(None, &config);
    assert!(result.is_err());

    match result.unwrap_err() {
        BridgeError::McpMissingParam { param } => {
            assert_eq!(param, "arguments");
        }
        e => panic!("Expected McpMissingParam error, got: {e:?}"),
    }
}

#[test]
fn ssh_awx_jobs_test_no_awx_config() {
    let handler = SshAwxJobsHandler;
    let config = empty_config();

    let args = SshAwxJobsArgs {
        status: None,
        job_type: None,
        name_contains: None,
        page_size: None,
        timeout_seconds: None,
    };
    let result = handler.prepare(Some(Ok(args)), &config);
    assert!(result.is_err());
    match result.unwrap_err() {
        BridgeError::McpInvalidRequest(msg) => {
            assert!(msg.contains("AWX not configured"));
        }
        e => panic!("Expected McpInvalidRequest about AWX config, got: {e:?}"),
    }
}

#[test]
fn ssh_awx_jobs_test_schema() {
    let handler = SshAwxJobsHandler;
    assert_eq!(handler.name(), "ssh_awx_jobs");
    assert!(!handler.description().is_empty());

    let schema = handler.schema();
    assert_eq!(schema.name, "ssh_awx_jobs");

    let schema_json: serde_json::Value = serde_json::from_str(schema.input_schema).unwrap();
    assert_eq!(schema_json["type"], "object");
}

#[test]
fn ssh_awx_jobs_test_schema_optional_fields() {
    let schema_json: serde_json::Value =
        serde_json::from_str(SshAwxJobsHandler.schema().input_schema).unwrap();
    assert!(schema_json["properties"].is_object());
}

#[test]
fn ssh_awx_jobs_test_args_debug() {
    let args = SshAwxJobsArgs {
        status: None,
        job_type: None,
        name_contains: None,
        page_size: None,
        timeout_seconds: None,
    };
    let debug_str = format!("{args:?}");
    assert!(debug_str.contains("SshAwxJobsArgs"));
}

#[test]
fn ssh_awx_jobs_test_invalid_json_type() {
    let handler = SshAwxJobsHandler;
    let config = empty_config();
    let result = handler.prepare(Some(Err("invalid type: integer, expected a string".to_string())), &config);
    assert!(result.is_err());
    match result.unwrap_err() {
        BridgeError::McpInvalidRequest(_) => {}
        e => panic!("Expected McpInvalidRequest, got: {e:?}"),
    }
}

#[test]
fn ssh_awx_jobs_test_output_kind() {
    let handler = SshAwxJobsHandler;
    assert_eq!(handler.output_kind(), OutputKind::Json);
}

#[test]
fn test_query_includes_order_by() {
    // The unified-jobs feed must always sort by most-recently-finished so the
    // triage view surfaces the latest runs first.
    let cmd = AwxCommandBuilder::build_api_call_checked(
        "https://awx.internal",
        "tok",
        "/api/v2/unified_jobs/",
        HttpMethod::Get,
        None,
        true,
        &[("page_size", "25"), ("order_by", "-finished")],
        30,
    );
    // `-finished` percent-encodes to `-finished` (unreserved) so it survives verbatim.
    assert!(
        cmd.contains("order_by=-finished"),
        "order_by not present: {cmd}"
    );
}

#[test]
fn test_status_filter_maps_to_query() {
    // A `status` filter must be relayed as a `status=` query parameter.
    let cmd = AwxCommandBuilder::build_api_call_checked(
        "https://awx.internal",
        "tok",
        "/api/v2/unified_jobs/",
        HttpMethod::Get,
        None,
        true,
        &[
            ("page_size", "25"),
            ("status", "failed"),
            ("order_by", "-finished"),
        ],
        30,
    );
    assert!(
        cmd.contains("status=failed"),
        "status filter missing: {cmd}"
    );
}
