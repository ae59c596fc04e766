use bridge_mcp::awx::AwxTool;
use bridge_mcp::config::BridgeConfig;
use bridge_mcp::error::BridgeError;
use bridge_mcp::tool::ToolHandler;
use bridge_mcp::tools::ssh_awx_bulk_launch::{
    BulkJob, SshAwxBulkLaunchArgs, SshAwxBulkLaunchHandler, build_bulk_body,
};

fn empty_config() -> BridgeConfig {
    BridgeConfig { hosts: Vec::new(), awx: None }
}

#[test]
fn ssh_awx_bulk_launch_test_missing_arguments() {
    let handler = SshAwxBulkLaunchHandler;
    let config = empty_config();
    let result = handler.prepare(None, &config);
    assert!(result.is_err());
    match result.unwrap_err() {
        BridgeError::McpMissingParam { param } => assert_eq!(param, "arguments"),
        e => panic!("Expected McpMissingParam, got: {e:?}"),
    }
}

#[test]
fn ssh_awx_bulk_launch_test_no_awx_config() {
    let handler = SshAwxBulkLaunchHandler;
    let config = empty_config();
    let args = SshAwxBulkLaunchArgs {
        jobs: vec![
            BulkJob {
                unified_job_template: 1,
                inventory: None,
                limit: None,
                extra_vars: None,
            },
        ],
        name: None,
    };
    let result = handler.prepare(Some(Ok(args)), &config);
    assert!(result.is_err());
    let err_msg = result.unwrap_err().to_text();
    assert!(
        err_msg.contains("AWX not configured"),
        "Expected AWX not configured error, got: {err_msg}"
    );
}

#[test]
fn ssh_awx_bulk_launch_test_schema() {
    let handler = SshAwxBulkLaunchHandler;
    assert_eq!(handler.name(), "ssh_awx_bulk_launch");
    assert!(!handler.description().is_empty());
    let schema = handler.schema();
    assert_eq!(schema.name, "ssh_awx_bulk_launch");
    let schema_json: serde_json::Value = serde_json::from_str(schema.input_schema).unwrap();
    assert_eq!(schema_json["type"], "object");
    let required = schema_json["required"].as_array().unwrap();
    assert!(required.contains(&serde_json::Value::from("jobs")));
}

#[test]
fn ssh_awx_bulk_launch_test_schema_optional_fields() {
    let schema_json: serde_json::Value =
        serde_json::from_str(SshAwxBulkLaunchHandler.schema().input_schema).unwrap();
    assert!(schema_json["properties"].is_object());
}

#[test]
fn ssh_awx_bulk_launch_test_args_debug() {
    let args = SshAwxBulkLaunchArgs {
        jobs: vec![
            BulkJob {
                unified_job_template: 1,
                inventory: None,
                limit: None,
                extra_vars: None,
            },
        ],
        name: None,
    };
    let debug_str = format!("{args:?}");
    assert!(debug_str.contains("SshAwxBulkLaunchArgs"));
}

#[test]
fn ssh_awx_bulk_launch_test_invalid_json_type() {
    let handler = SshAwxBulkLaunchHandler;
    let config = empty_config();
    let result = handler.prepare(Some(Err("missing field `unified_job_template`".to_string())), &config);
    assert!(result.is_err());
    match result.unwrap_err() {
        BridgeError::McpInvalidRequest(_) => {}
        e => panic!("Expected McpInvalidRequest, got: {e:?}"),
    }
}

#[test]
fn test_rejects_empty_jobs() {
    let handler = SshAwxBulkLaunchHandler;
    let config = empty_config();
    let args = SshAwxBulkLaunchArgs {
        jobs: vec![],
        name: None,
    };
    let result = handler.prepare(Some(Ok(args)), &config);
    assert!(result.is_err());
    match result.unwrap_err() {
        BridgeError::McpInvalidRequest(msg) => {
            assert!(
                msg.contains("at least one job"),
                "unexpected message: {msg}"
            );
        }
        e => panic!("Expected McpInvalidRequest, got: {e:?}"),
    }
}

#[test]
fn test_body_has_jobs_array() {
    // The serialized body sent to AWX must carry a top-level "jobs" array
    // whose entries omit None fields but always include the template id.
    let args = SshAwxBulkLaunchArgs {
        jobs: vec![
            BulkJob {
                unified_job_template: 42,
                inventory: Some(5),
                limit: None,
                extra_vars: None,
            },
            BulkJob {
                unified_job_template: 7,
                inventory: None,
                limit: None,
                extra_vars: None,
            },
        ],
        name: Some("wave".to_string()),
    };

    let body = build_bulk_body(&args);
    let jobs = body["jobs"].as_array().expect("jobs must be an array");
    assert_eq!(jobs.len(), 2);
    assert_eq!(jobs[0]["unified_job_template"], 42);
    assert_eq!(jobs[0]["inventory"], 5);
    assert_eq!(jobs[1]["unified_job_template"], 7);
    assert!(jobs[1].get("inventory").is_none());
    assert_eq!(body["name"], "wave");
}

#[test]
fn test_body_always_sends_name_when_omitted() {
    // AWX requires `name` on the bulk request on some releases; the body must
    // carry a non-empty default even when the caller omits it.
    let args = SshAwxBulkLaunchArgs {
        jobs: vec![
            BulkJob {
                unified_job_template: 1,
                inventory: None,
                limit: None,
                extra_vars: None,
            },
        ],
        name: None,
    };
    assert!(args.name.is_none());

    let body = build_bulk_body(&args);
    let name = body["name"].as_str().expect("name must be present");
    assert!(!name.is_empty(), "default name must be non-empty");
}
