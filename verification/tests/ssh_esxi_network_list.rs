use bridge_mcp::config::{BridgeConfig, HostConfig, NamedHost};
use bridge_mcp::error::BridgeError;
use bridge_mcp::result::{ToolCallResult, ToolContent};
use bridge_mcp::tool::{ArgCheck, StandardTool, ToolHandler};
use bridge_mcp::tools::ssh_esxi_network_list::{
    EsxiNetworkListTool, SshEsxiNetworkListArgs, SshEsxiNetworkListHandler,
};

fn test_host_config() -> HostConfig {
    HostConfig {
        hostname: "esxi.local".to_string(),
        port: 22,
        user: "root".to_string(),
        description: None,
        proxy_jump: None,
        tags: Vec::new(),
    }
}

fn config_with_host(name: &str) -> BridgeConfig {
    BridgeConfig {
        hosts: vec![NamedHost { name: name.to_string(), config: test_host_config() }],
        awx: None,
    }
}

fn empty_config() -> BridgeConfig {
    BridgeConfig { hosts: Vec::new(), awx: None }
}

fn args_with_component(component: Option<&str>) -> SshEsxiNetworkListArgs {
    SshEsxiNetworkListArgs {
        host: "esxi1".to_string(),
        component: component.map(str::to_string),
        timeout_seconds: None,
        max_output: None,
        save_output: None,
    }
}

#[test]
fn ssh_esxi_network_list_test_missing_arguments() {
    let handler = SshEsxiNetworkListHandler::new();
    let config = empty_config();
    let result = handler.prepare(None, &config);
    assert!(result.is_err());
    match result.unwrap_err() {
        BridgeError::McpMissingParam { param } => assert_eq!(param, "arguments"),
        e => panic!("Expected McpMissingParam, got: {e:?}"),
    }
}

#[test]
fn ssh_esxi_network_list_test_unknown_host() {
    let handler = SshEsxiNetworkListHandler::new();
    let config = empty_config();
    let args = SshEsxiNetworkListArgs {
        host: "nonexistent".to_string(),
        component: None,
        timeout_seconds: None,
        max_output: None,
        save_output: None,
    };
    let result = handler.prepare(Some(Ok(args)), &config);
    assert!(result.is_err());
    match result.unwrap_err() {
        BridgeError::UnknownHost { host } => assert_eq!(host, "nonexistent"),
        e => panic!("Expected UnknownHost, got: {e:?}"),
    }
}

#[test]
fn test_invalid_component() {
    let handler = SshEsxiNetworkListHandler::new();
    let config = config_with_host("server1");
    let args = SshEsxiNetworkListArgs {
        host: "server1".to_string(),
        component: Some("firewall".to_string()),
        timeout_seconds: None,
        max_output: None,
        save_output: None,
    };
    let result = handler.prepare(Some(Ok(args)), &config);
    assert!(result.is_err());
    match result.unwrap_err() {
        BridgeError::CommandDenied { reason } => {
            assert!(reason.contains("firewall"));
        }
        e => panic!("Expected CommandDenied, got: {e:?}"),
    }
}

#[test]
fn ssh_esxi_network_list_test_schema() {
    let handler = SshEsxiNetworkListHandler::new();
    assert_eq!(handler.name(), "ssh_esxi_network_list");
    assert!(!handler.description().is_empty());
    let schema = handler.schema();
    assert_eq!(schema.name, "ssh_esxi_network_list");
    let schema_json: serde_json::Value = serde_json::from_str(schema.input_schema).unwrap();
    let required = schema_json["required"].as_array().unwrap();
    assert!(required.contains(&serde_json::Value::from("host")));
}

#[test]
fn ssh_esxi_network_list_test_schema_optional_fields() {
    let handler = SshEsxiNetworkListHandler::new();
    let schema = handler.schema();
    let schema_json: serde_json::Value = serde_json::from_str(schema.input_schema).unwrap();
    let properties = schema_json["properties"].as_object().unwrap();
    assert!(properties.contains_key("component"));
    assert!(properties.contains_key("timeout_seconds"));
    assert!(properties.contains_key("max_output"));
    assert!(properties.contains_key("save_output"));
}

#[test]
fn ssh_esxi_network_list_test_args_debug() {
    let args = SshEsxiNetworkListArgs {
        host: "esxi1".to_string(),
        component: None,
        timeout_seconds: None,
        max_output: None,
        save_output: None,
    };
    let debug_str = format!("{args:?}");
    assert!(debug_str.contains("SshEsxiNetworkListArgs"));
}

#[test]
fn ssh_esxi_network_list_test_invalid_json_type() {
    let handler = SshEsxiNetworkListHandler::new();
    let config = empty_config();
    let result = handler.prepare(Some(Err("invalid type: integer, expected a string".to_string())), &config);
    assert!(result.is_err());
    match result.unwrap_err() {
        BridgeError::McpInvalidRequest(_) => {}
        e => panic!("Expected McpInvalidRequest, got: {e:?}"),
    }
}

#[test]
fn test_validate_valid_component_ok() {
    let host = test_host_config();
    let args = args_with_component(Some("nic"));
    assert!(EsxiNetworkListTool::validate(&args, &host).is_ok());
}

#[test]
fn test_validate_none_component_ok() {
    // No component => validation branch is skipped entirely.
    let host = test_host_config();
    let args = args_with_component(None);
    assert!(EsxiNetworkListTool::validate(&args, &host).is_ok());
}

#[test]
fn test_validate_invalid_component_denied() {
    let host = test_host_config();
    let args = args_with_component(Some("firewall"));
    match EsxiNetworkListTool::validate(&args, &host).unwrap_err() {
        BridgeError::CommandDenied { reason } => assert!(reason.contains("firewall")),
        e => panic!("Expected CommandDenied, got: {e:?}"),
    }
}

#[test]
fn test_build_command_default_all() {
    // None component => "all" branch combining the three esxcli queries.
    let host = test_host_config();
    let args = args_with_component(None);
    let cmd = EsxiNetworkListTool::build_command(&args, &host).unwrap();
    assert!(cmd.contains("esxcli network ip interface list"));
    assert!(cmd.contains("esxcli network vswitch standard list"));
    assert!(cmd.contains("esxcli network nic list"));
}

#[test]
fn test_build_command_interface_only() {
    let host = test_host_config();
    let args = args_with_component(Some("interface"));
    let cmd = EsxiNetworkListTool::build_command(&args, &host).unwrap();
    assert_eq!(cmd, "esxcli network ip interface list");
}

#[test]
fn test_build_command_nic_only() {
    let host = test_host_config();
    let args = args_with_component(Some("nic"));
    let cmd = EsxiNetworkListTool::build_command(&args, &host).unwrap();
    assert_eq!(cmd, "esxcli network nic list");
}

#[test]
fn test_post_process_with_columnar_output() {
    // Multi-column, space-padded sample drives the table-building branch
    // that the standard execute() tests never reach.
    let sample = "Name    MAC Address        MTU   Link\n\
                  vmnic0  00:11:22:33:44:55  1500  Up\n\
                  vmnic1  00:11:22:33:44:66  1500  Down\n";
    let args = args_with_component(None);
    let base = ToolCallResult::text(sample.to_string());
    let processed = EsxiNetworkListTool::post_process(base, &args, sample);
    assert!(!processed.content.is_empty());
}

#[test]
fn test_post_process_unparsable_input_returns_input() {
    // Single non-empty line cannot form a header+row table; parse returns
    // None and post_process returns the original result unchanged.
    let args = args_with_component(None);
    let base = ToolCallResult::text("only one line".to_string());
    let processed = EsxiNetworkListTool::post_process(base, &args, "only one line");
    assert!(!processed.content.is_empty());
}

#[test]
fn table_answer_has_columns_rows_and_refresh() {
    let sample = "Name    MAC Address        Link\n\
                  vmnic0  00:11:22:33:44:55  Up\n\
                  \n\
                  vmnic1  00:11:22:33:44:66\n";
    let args = args_with_component(None);
    let base = ToolCallResult::text(sample.to_string());
    let processed = EsxiNetworkListTool::post_process(base, &args, sample);
    match &processed.content[0] {
        ToolContent::Text { text } => assert_eq!(
            text,
            "Name\tMAC Address\tLink\nvmnic0\t00:11:22:33:44:55\tUp\nvmnic1\t00:11:22:33:44:66"
        ),
        other => panic!("Expected text content, got: {other:?}"),
    }
    let app = processed.app.unwrap();
    assert_eq!(app.title, "ESXi Networks");
    assert_eq!(app.columns.len(), 3);
    assert_eq!(app.columns[1].key, "MAC Address");
    assert_eq!(app.columns[1].label, "MAC ADDRESS");
    assert_eq!(app.rows.len(), 2);
    assert_eq!(app.rows[0]["Link"], "Up");
    assert_eq!(app.rows[1]["Name"], "vmnic1");
    assert_eq!(app.rows[1]["Link"], "");
    assert_eq!(app.actions.len(), 1);
    assert_eq!(app.actions[0].tool, "ssh_esxi_network_list");
    assert_eq!(app.actions[0].arguments["host"], "esxi1");
}
