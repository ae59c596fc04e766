//! The commands of the AWX tools, character by character, and what their output says.
use bridge_mcp::awx::AwxTool;
use bridge_mcp::builders::awx::{percent_encode, AwxCommandBuilder, HttpMethod};
use bridge_mcp::config::{AwxConfig, BridgeConfig, HostConfig, NamedHost};
use bridge_mcp::error::BridgeError;
use bridge_mcp::tools::ssh_awx_adhoc_launch::{SshAwxAdhocLaunchArgs, SshAwxAdhocLaunchHandler};
use bridge_mcp::tools::ssh_awx_approval_approve::{
    SshAwxApprovalApproveArgs, SshAwxApprovalApproveHandler,
};
use bridge_mcp::tools::ssh_awx_approvals::{
    ApprovalStatus, SshAwxApprovalsArgs, SshAwxApprovalsHandler,
};
use bridge_mcp::tools::ssh_awx_bulk_launch::{
    BulkJob, SshAwxBulkLaunchArgs, SshAwxBulkLaunchHandler,
};
use bridge_mcp::tools::ssh_awx_host_create::{SshAwxHostCreateArgs, SshAwxHostCreateHandler};
use bridge_mcp::tools::ssh_awx_host_update::{SshAwxHostUpdateArgs, SshAwxHostUpdateHandler};
use bridge_mcp::tools::ssh_awx_inventory_groups::{
    SshAwxInventoryGroupsArgs, SshAwxInventoryGroupsHandler,
};
use bridge_mcp::tools::ssh_awx_job_relaunch::{
    RelaunchHosts, SshAwxJobRelaunchArgs, SshAwxJobRelaunchHandler,
};
use bridge_mcp::tools::ssh_awx_jobs::{SshAwxJobsArgs, SshAwxJobsHandler};
use bridge_mcp::tools::ssh_awx_project_update_status::{
    SshAwxProjectUpdateStatusArgs, SshAwxProjectUpdateStatusHandler,
};
use bridge_mcp::tools::ssh_awx_project_update_stdout::{
    SshAwxProjectUpdateStdoutArgs, SshAwxProjectUpdateStdoutHandler,
};
use bridge_mcp::tools::ssh_awx_resolve::{SshAwxResolveArgs, SshAwxResolveHandler};
use bridge_mcp::tools::ssh_awx_schedule_set::{SshAwxScheduleSetArgs, SshAwxScheduleSetHandler};
use bridge_mcp::tools::ssh_awx_workflow_approvals::{
    SshAwxWorkflowApprovalsArgs, SshAwxWorkflowApprovalsHandler,
};
use bridge_mcp::tools::ssh_awx_workflow_launch::{
    SshAwxWorkflowLaunchArgs, SshAwxWorkflowLaunchHandler,
};

fn awx_config() -> AwxConfig {
    AwxConfig {
        url: "https://awx.example".to_string(),
        token: "tok".to_string(),
        ssh_host: "bastion".to_string(),
        verify_ssl: true,
        api_timeout: 30,
    }
}

fn named_host(name: &str) -> NamedHost {
    NamedHost {
        name: name.to_string(),
        config: HostConfig {
            hostname: "10.0.0.1".to_string(),
            port: 22,
            user: "ops".to_string(),
            description: None,
            proxy_jump: None,
            tags: Vec::new(),
        },
    }
}

fn config() -> BridgeConfig {
    BridgeConfig { hosts: vec![named_host("bastion")], awx: Some(awx_config()) }
}

/// The command that the tool makes of the arguments.
fn command<T: AwxTool>(tool: T, args: T::Args) -> String {
    let call = tool.prepare(Some(Ok(args)), &config()).unwrap();
    assert_eq!(call.host, "bastion");
    call.command
}

fn reason<T: AwxTool>(tool: T, args: T::Args) -> String {
    tool.prepare(Some(Ok(args)), &config()).unwrap_err().to_text()
}

/// A call that reports its status, for the given method, body option and target.
fn checked(method: &str, body: &str, target: &str) -> String {
    let head = "-H 'Authorization: Bearer tok' -H 'Content-Type: application/json'";
    let status = "-w '\\nHTTP_STATUS:%{http_code}'";
    format!("curl -sS --max-time 30 -X {method} {head}{body} {status} 'https://awx.example{target}'")
}

/// A call that reports no status.
fn unchecked(method: &str, body: &str, target: &str) -> String {
    let head = "-H 'Authorization: Bearer tok' -H 'Content-Type: application/json'";
    format!("curl -sS --max-time 30 -X {method} {head}{body} 'https://awx.example{target}'")
}

fn json(text: &str) -> serde_json::Value {
    serde_json::from_str(text).unwrap()
}

#[test]
fn percent_encoding_of_a_text() {
    assert_eq!(percent_encode("Az09-_.~"), "Az09-_.~");
    assert_eq!(percent_encode("a b&c=d"), "a%20b%26c%3Dd");
    assert_eq!(percent_encode("é/?"), "%C3%A9%2F%3F");
    assert_eq!(percent_encode(""), "");
}

#[test]
fn method_names() {
    assert_eq!(HttpMethod::Get.as_str(), "GET");
    assert_eq!(HttpMethod::Post.as_str(), "POST");
    assert_eq!(HttpMethod::Patch.as_str(), "PATCH");
}

#[test]
fn call_without_certificate_check() {
    let cmd = AwxCommandBuilder::build_api_call(
        "https://a",
        "it's",
        "/api/",
        HttpMethod::Get,
        None,
        false,
        &[("k", "v w"), ("n", "1")],
        5,
    );
    assert_eq!(
        cmd,
        "curl -sS --max-time 5 -k -X GET -H 'Authorization: Bearer it'\\''s' \
         -H 'Content-Type: application/json' 'https://a/api/?k=v%20w&n=1'"
    );
}

#[test]
fn checked_output_is_taken_apart() {
    let read = AwxCommandBuilder::parse_checked_response;
    assert_eq!(read("{\"id\": 1}\nHTTP_STATUS:200").unwrap(), "{\"id\": 1}");
    assert_eq!(read("a\nb\n\nHTTP_STATUS:204\n").unwrap(), "a\nb\n");
    assert_eq!(read("\nHTTP_STATUS:201").unwrap(), "");
    assert_eq!(
        read("nope\nHTTP_STATUS:404").unwrap_err().to_text(),
        "Invalid request: AWX API returned HTTP 404: nope"
    );
    assert_eq!(
        read("\nHTTP_STATUS:2x0").unwrap_err().to_text(),
        "Invalid request: AWX API returned HTTP 2x0: "
    );
    for raw in ["", "plain", "HTTP_STATUS:200", "body\nSTATUS:200"] {
        assert_eq!(
            read(raw).unwrap_err().to_text(),
            "Invalid request: AWX API call returned no HTTP status"
        );
    }
}

#[test]
fn status_lines_inside_a_body_do_not_count() {
    let body = "x\nHTTP_STATUS:500\ny";
    let raw = format!("{body}\nHTTP_STATUS:200");
    assert_eq!(AwxCommandBuilder::parse_checked_response(&raw).unwrap(), body);
}

#[test]
fn tools_read_their_output() {
    let checked_tool = SshAwxJobsHandler::new();
    assert_eq!(checked_tool.read_response("[]\nHTTP_STATUS:200").unwrap(), "[]");
    assert!(checked_tool.read_response("[]").is_err());
    let unchecked_tool = SshAwxApprovalApproveHandler::new();
    assert_eq!(unchecked_tool.read_response("[]").unwrap(), "[]");
}

#[test]
fn only_id_zero_is_refused() {
    assert!(AwxCommandBuilder::validate_id(1).is_ok());
    assert!(AwxCommandBuilder::validate_id(u64::MAX).is_ok());
    assert_eq!(
        AwxCommandBuilder::validate_id(0).unwrap_err().to_text(),
        "Command denied: AWX resource ID must be a positive integer"
    );
}

#[test]
fn refusals_come_in_order() {
    let tool = SshAwxApprovalApproveHandler::new();
    let nowhere = BridgeConfig { hosts: Vec::new(), awx: None };
    let zero = Some(Ok(SshAwxApprovalApproveArgs { approval_id: 0 }));
    assert!(matches!(tool.prepare(zero, &nowhere), Err(BridgeError::CommandDenied { .. })));
    let one = Some(Ok(SshAwxApprovalApproveArgs { approval_id: 1 }));
    assert!(matches!(tool.prepare(one, &nowhere), Err(BridgeError::McpInvalidRequest(_))));
    let hostless = BridgeConfig { hosts: vec![named_host("other")], awx: Some(awx_config()) };
    let one = Some(Ok(SshAwxApprovalApproveArgs { approval_id: 1 }));
    match tool.prepare(one, &hostless) {
        Err(BridgeError::UnknownHost { host }) => assert_eq!(host, "bastion"),
        other => panic!("{other:?}"),
    }
    match tool.prepare(Some(Err("expected a map".to_string())), &config()) {
        Err(BridgeError::McpInvalidRequest(message)) => assert_eq!(message, "expected a map"),
        other => panic!("{other:?}"),
    }
}

#[test]
fn adhoc_launch_command() {
    let args = SshAwxAdhocLaunchArgs {
        inventory: 3,
        credential: 4,
        module_name: "shell".to_string(),
        module_args: "echo 'hi'".to_string(),
        limit: Some("web*".to_string()),
        verbosity: Some(2),
        become_enabled: Some(true),
    };
    let body = " -d '{\"become_enabled\":true,\"credential\":4,\"inventory\":3,\"limit\":\"web*\",\
                \"module_args\":\"echo '\\''hi'\\''\",\"module_name\":\"shell\",\"verbosity\":2}'";
    assert_eq!(
        command(SshAwxAdhocLaunchHandler::new(), args),
        checked("POST", body, "/api/v2/ad_hoc_commands/")
    );
}

#[test]
fn approval_approve_command() {
    let args = SshAwxApprovalApproveArgs { approval_id: 12 };
    assert_eq!(
        command(SshAwxApprovalApproveHandler::new(), args),
        unchecked("POST", "", "/api/v2/workflow_approvals/12/approve/")
    );
}

#[test]
fn approvals_command() {
    let args = SshAwxApprovalsArgs {
        status: ApprovalStatus::Pending,
        page_size: Some(5),
        timeout_seconds: None,
    };
    assert_eq!(
        command(SshAwxApprovalsHandler::new(), args),
        checked("GET", "", "/api/v2/workflow_approvals/?page_size=5&status=pending")
    );
}

#[test]
fn bulk_launch_command() {
    let job = BulkJob {
        unified_job_template: 7,
        inventory: None,
        limit: None,
        extra_vars: Some(json("{\"a\":1}")),
    };
    let args = SshAwxBulkLaunchArgs { jobs: vec![job], name: Some("nightly".to_string()) };
    let body = " -d '{\"jobs\":[{\"extra_vars\":{\"a\":1},\"unified_job_template\":7}],\
                \"name\":\"nightly\"}'";
    assert_eq!(
        command(SshAwxBulkLaunchHandler::new(), args),
        checked("POST", body, "/api/v2/bulk/job_launch/")
    );
}

#[test]
fn bulk_launch_refusals() {
    let none = SshAwxBulkLaunchArgs { jobs: Vec::new(), name: None };
    assert_eq!(
        reason(SshAwxBulkLaunchHandler::new(), none),
        "Invalid request: jobs must contain at least one job"
    );
    let zero = BulkJob { unified_job_template: 0, inventory: None, limit: None, extra_vars: None };
    let args = SshAwxBulkLaunchArgs { jobs: vec![zero], name: None };
    assert_eq!(
        reason(SshAwxBulkLaunchHandler::new(), args),
        "Command denied: AWX resource ID must be a positive integer"
    );
}

#[test]
fn host_create_command() {
    let args = SshAwxHostCreateArgs {
        inventory_id: 9,
        name: "web1".to_string(),
        variables: Some(json("{\"x\":[true,null]}")),
        enabled: Some(false),
        description: Some("d".to_string()),
    };
    let body = " -d '{\"description\":\"d\",\"enabled\":false,\"name\":\"web1\",\
                \"variables\":{\"x\":[true,null]}}'";
    assert_eq!(
        command(SshAwxHostCreateHandler::new(), args),
        checked("POST", body, "/api/v2/inventories/9/hosts/")
    );
}

#[test]
fn host_update_command() {
    let args = SshAwxHostUpdateArgs {
        host_id: 5,
        enabled: Some(true),
        variables: None,
        description: None,
    };
    assert_eq!(
        command(SshAwxHostUpdateHandler::new(), args),
        checked("PATCH", " -d '{\"enabled\":true}'", "/api/v2/hosts/5/")
    );
}

#[test]
fn host_update_needs_a_field() {
    let args = SshAwxHostUpdateArgs {
        host_id: 5,
        enabled: None,
        variables: None,
        description: None,
    };
    assert_eq!(
        reason(SshAwxHostUpdateHandler::new(), args),
        "Invalid request: no fields to update"
    );
}

#[test]
fn inventory_groups_command() {
    let args =
        SshAwxInventoryGroupsArgs { inventory_id: 2, page_size: Some(3), timeout_seconds: None };
    assert_eq!(
        command(SshAwxInventoryGroupsHandler::new(), args),
        checked("GET", "", "/api/v2/inventories/2/groups/?page_size=3")
    );
}

#[test]
fn job_relaunch_command() {
    let args = SshAwxJobRelaunchArgs { job_id: 8, hosts: Some(RelaunchHosts::Failed) };
    assert_eq!(
        command(SshAwxJobRelaunchHandler::new(), args),
        unchecked("POST", " -d '{\"hosts\":\"failed\"}'", "/api/v2/jobs/8/relaunch/")
    );
    let args = SshAwxJobRelaunchArgs { job_id: 8, hosts: None };
    assert_eq!(
        command(SshAwxJobRelaunchHandler::new(), args),
        unchecked("POST", "", "/api/v2/jobs/8/relaunch/")
    );
}

#[test]
fn jobs_command() {
    let args = SshAwxJobsArgs {
        status: Some("failed".to_string()),
        job_type: Some("job".to_string()),
        name_contains: Some("a&b".to_string()),
        page_size: None,
        timeout_seconds: None,
    };
    assert_eq!(
        command(SshAwxJobsHandler::new(), args),
        checked(
            "GET",
            "",
            "/api/v2/unified_jobs/?page_size=25&status=failed&type=job\
             &name__icontains=a%26b&order_by=-finished"
        )
    );
}

#[test]
fn project_update_status_command() {
    let args = SshAwxProjectUpdateStatusArgs { project_update_id: 6, timeout_seconds: None };
    assert_eq!(
        command(SshAwxProjectUpdateStatusHandler::new(), args),
        checked("GET", "", "/api/v2/project_updates/6/")
    );
}

#[test]
fn project_update_stdout_command() {
    let args = SshAwxProjectUpdateStdoutArgs { project_update_id: 6 };
    assert_eq!(
        command(SshAwxProjectUpdateStdoutHandler::new(), args),
        checked("GET", "", "/api/v2/project_updates/6/stdout/?format=txt")
    );
}

#[test]
fn resolve_command() {
    let args = |exact: Option<bool>| SshAwxResolveArgs {
        kind: "job_templates".to_string(),
        name: "my app".to_string(),
        exact,
        timeout_seconds: None,
    };
    let exact = checked("GET", "", "/api/v2/job_templates/?name__iexact=my%20app");
    assert_eq!(command(SshAwxResolveHandler::new(), args(None)), exact);
    assert_eq!(command(SshAwxResolveHandler::new(), args(Some(true))), exact);
    assert_eq!(
        command(SshAwxResolveHandler::new(), args(Some(false))),
        checked("GET", "", "/api/v2/job_templates/?name__icontains=my%20app")
    );
}

#[test]
fn resolve_refuses_unknown_kinds() {
    let args = SshAwxResolveArgs {
        kind: "users/1".to_string(),
        name: "x".to_string(),
        exact: None,
        timeout_seconds: None,
    };
    assert!(reason(SshAwxResolveHandler::new(), args)
        .starts_with("Invalid request: Unknown kind 'users/1'. Allowed: "));
}

#[test]
fn schedule_set_command() {
    let args = SshAwxScheduleSetArgs { schedule_id: 4, enabled: false };
    assert_eq!(
        command(SshAwxScheduleSetHandler::new(), args),
        checked("PATCH", " -d '{\"enabled\":false}'", "/api/v2/schedules/4/")
    );
}

#[test]
fn workflow_approvals_command() {
    let args = SshAwxWorkflowApprovalsArgs {
        workflow_job_id: 42,
        status: None,
        page_size: None,
        timeout_seconds: None,
    };
    assert_eq!(
        command(SshAwxWorkflowApprovalsHandler::new(), args),
        checked(
            "GET",
            "",
            "/api/v2/workflow_approvals/?unified_job_node__workflow_job=42\
             &status=pending&page_size=50"
        )
    );
}

#[test]
fn workflow_launch_command() {
    let args = SshAwxWorkflowLaunchArgs {
        workflow_template_id: 11,
        extra_vars: Some(json("{\"v\":\"1\"}")),
        limit: None,
        inventory: Some(2),
    };
    let body = r#" -d '{"extra_vars":"{\"v\":\"1\"}","inventory":2}'"#;
    let target = "/api/v2/workflow_job_templates/11/launch/";
    assert_eq!(
        command(SshAwxWorkflowLaunchHandler::new(), args),
        checked("POST", body, target)
    );
    let bare = SshAwxWorkflowLaunchArgs {
        workflow_template_id: 11,
        extra_vars: None,
        limit: None,
        inventory: None,
    };
    assert_eq!(command(SshAwxWorkflowLaunchHandler::new(), bare), checked("POST", "", target));
}

#[test]
fn arguments_leave_the_shell_text_alone() {
    let shell_text = |name: &str| {
        let args = SshAwxResolveArgs {
            kind: "projects".to_string(),
            name: name.to_string(),
            exact: None,
            timeout_seconds: None,
        };
        let cmd = command(SshAwxResolveHandler::new(), args);
        cmd.split('\'').step_by(2).map(|s| s.to_string()).collect::<Vec<String>>()
    };
    assert_eq!(shell_text("x"), shell_text("x'; rm -rf / #$(id)"));
}

#[test]
fn callers_timeout_is_used() {
    let limit = |cmd: String| {
        let rest = cmd.strip_prefix("curl -sS --max-time ").unwrap().to_string();
        rest.split(' ').next().unwrap().parse::<u64>().unwrap()
    };
    for (asked, used) in [(Some(7), 7), (Some(3600), 3600), (None, 30)] {
        let jobs = SshAwxJobsArgs {
            status: None,
            job_type: None,
            name_contains: None,
            page_size: None,
            timeout_seconds: asked,
        };
        assert_eq!(limit(command(SshAwxJobsHandler::new(), jobs)), used);
        let approvals = SshAwxApprovalsArgs {
            status: ApprovalStatus::Failed,
            page_size: None,
            timeout_seconds: asked,
        };
        assert_eq!(limit(command(SshAwxApprovalsHandler::new(), approvals)), used);
        let groups =
            SshAwxInventoryGroupsArgs { inventory_id: 1, page_size: None, timeout_seconds: asked };
        assert_eq!(limit(command(SshAwxInventoryGroupsHandler::new(), groups)), used);
        let status =
            SshAwxProjectUpdateStatusArgs { project_update_id: 1, timeout_seconds: asked };
        assert_eq!(limit(command(SshAwxProjectUpdateStatusHandler::new(), status)), used);
        let resolve = SshAwxResolveArgs {
            kind: "hosts".to_string(),
            name: "x".to_string(),
            exact: None,
            timeout_seconds: asked,
        };
        assert_eq!(limit(command(SshAwxResolveHandler::new(), resolve)), used);
        let of_run = SshAwxWorkflowApprovalsArgs {
            workflow_job_id: 1,
            status: None,
            page_size: None,
            timeout_seconds: asked,
        };
        assert_eq!(limit(command(SshAwxWorkflowApprovalsHandler::new(), of_run)), used);
    }
}
