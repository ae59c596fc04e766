use bridge_mcp::awx::AwxTool;
use bridge_mcp::config::BridgeConfig;
use bridge_mcp::error::BridgeError;
use bridge_mcp::tool::{OutputKind, ToolHandler};
use bridge_mcp::tools::ssh_awx_job_relaunch::{
    RelaunchHosts, SshAwxJobRelaunchArgs, SshAwxJobRelaunchHandler,
};

fn empty_config() -> BridgeConfig {
    BridgeConfig { hosts: Vec::new(), awx: None }
}

#[test]
fn ssh_awx_job_relaunch_test_missing_arguments() {
    let handler = SshAwxJobRelaunchHandler;
    let config = empty_config();
    let result = handler.prepare(None, &config);
    assert!(result.is_err());
    match result.unwrap_err() {
        BridgeError::McpMissingParam { param } => assert_eq!(param, "arguments"),
        e => panic!("Expected McpMissingParam, got: {e:?}"),
    }
}

#[test]
fn ssh_awx_job_relaunch_test_schema() {
    let handler = SshAwxJobRelaunchHandler;
    assert_eq!(handler.name(), "ssh_awx_job_relaunch");
    assert!(!handler.description().is_empty());
    let schema = handler.schema();
    assert_eq!(schema.name, "ssh_awx_job_relaunch");
    let schema_json: serde_json::Value = serde_json::from_str(schema.input_schema).unwrap();
    assert_eq!(schema_json["type"], "object");
    let required = schema_json["required"].as_array().unwrap();
    assert!(required.contains(&serde_json::Value::from("job_id")));
}

#[test]
fn ssh_awx_job_relaunch_test_args_debug() {
    let args = SshAwxJobRelaunchArgs {
        job_id: 1,
        hosts: None,
    };
    let debug_str = format!("{args:?}");
    assert!(debug_str.contains("SshAwxJobRelaunchArgs"));
}

#[test]
fn ssh_awx_job_relaunch_test_invalid_json_type() {
    let handler = SshAwxJobRelaunchHandler;
    let config = empty_config();
    let result = handler.prepare(Some(Err("invalid type: integer, expected a string".to_string())), &config);
    assert!(result.is_err());
    match result.unwrap_err() {
        BridgeError::McpInvalidRequest(_) => {}
        e => panic!("Expected McpInvalidRequest, got: {e:?}"),
    }
}

#[test]
fn ssh_awx_job_relaunch_test_no_awx_config() {
    let handler = SshAwxJobRelaunchHandler;
    let config = empty_config();
    let args = SshAwxJobRelaunchArgs {
        job_id: 99,
        hosts: None,
    };
    let result = handler.prepare(Some(Ok(args)), &config);
    assert!(result.is_err());
    let err_msg = result.unwrap_err().to_text();
    assert!(
        err_msg.contains("AWX not configured"),
        "Expected AWX not configured error, got: {err_msg}"
    );
}

#[test]
fn ssh_awx_job_relaunch_test_output_kind() {
    let handler = SshAwxJobRelaunchHandler;
    assert_eq!(handler.output_kind(), OutputKind::Json);
}

#[test]
fn test_hosts_enum_rejects_invalid() {
    assert!(RelaunchHosts::from_text("bogus").is_none());
}

#[test]
fn relaunch_choices_read_back() {
    for hosts in [RelaunchHosts::All, RelaunchHosts::Failed] {
        let text = hosts.as_str();
        assert_eq!(RelaunchHosts::from_text(text).unwrap().as_str(), text);
    }
    for text in ["", "All", "failed ", "pending"] {
        assert!(RelaunchHosts::from_text(text).is_none(), "{text}");
    }
}
