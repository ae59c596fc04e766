//! Which call of the AWX API each tool makes.
use crate::awx::{ApiRequest, AwxTool};
use crate::builders::awx::HttpMethod;
use crate::error::Refusal;
use crate::json::{json_text, no_fields, Json};
use crate::text::decimal;
use crate::tools::ssh_awx_adhoc_launch::{
    adhoc_fields, SshAwxAdhocLaunchArgs, SshAwxAdhocLaunchHandler,
};
use crate::tools::ssh_awx_approval_approve::{
    SshAwxApprovalApproveArgs, SshAwxApprovalApproveHandler,
};
use crate::tools::ssh_awx_approvals::{ApprovalStatus, SshAwxApprovalsArgs, SshAwxApprovalsHandler};
use crate::tools::ssh_awx_bulk_launch::{bulk_fields, SshAwxBulkLaunchArgs, SshAwxBulkLaunchHandler};
use crate::tools::ssh_awx_host_create::{host_fields, SshAwxHostCreateArgs, SshAwxHostCreateHandler};
use crate::tools::ssh_awx_host_update::{
    update_fields, SshAwxHostUpdateArgs, SshAwxHostUpdateHandler,
};
use crate::tools::ssh_awx_inventory_groups::{
    SshAwxInventoryGroupsArgs, SshAwxInventoryGroupsHandler,
};
use crate::tools::ssh_awx_job_relaunch::{
    RelaunchHosts, SshAwxJobRelaunchArgs, SshAwxJobRelaunchHandler,
};
use crate::tools::ssh_awx_jobs::{SshAwxJobsArgs, SshAwxJobsHandler};
use crate::tools::ssh_awx_project_update_status::{
    SshAwxProjectUpdateStatusArgs, SshAwxProjectUpdateStatusHandler,
};
use crate::tools::ssh_awx_project_update_stdout::{
    SshAwxProjectUpdateStdoutArgs, SshAwxProjectUpdateStdoutHandler,
};
use crate::tools::ssh_awx_resolve::{SshAwxResolveArgs, SshAwxResolveHandler};
use crate::tools::ssh_awx_schedule_set::{SshAwxScheduleSetArgs, SshAwxScheduleSetHandler};
use crate::tools::ssh_awx_workflow_approvals::{
    SshAwxWorkflowApprovalsArgs, SshAwxWorkflowApprovalsHandler,
};
use crate::tools::ssh_awx_workflow_launch::{
    launch_fields, SshAwxWorkflowLaunchArgs, SshAwxWorkflowLaunchHandler,
};
use vstd::prelude::*;

verus! {

/// A call that only asks: a GET without a body.
pub open spec fn asks(
    request: Result<ApiRequest, Refusal>,
    endpoint: Seq<char>,
    params: Seq<(Seq<char>, Seq<char>)>,
    timeout: Option<u64>,
) -> bool {
    request matches Ok(q) && q.method == HttpMethod::Get && q.endpoint == endpoint && q.params
        == params && q.body is None && q.timeout == timeout
}

/// A call that changes something: it has no query, and runs under the configured limit.
pub open spec fn changes(
    request: Result<ApiRequest, Refusal>,
    method: HttpMethod,
    endpoint: Seq<char>,
    body: Option<Seq<char>>,
) -> bool {
    request matches Ok(q) && q.method == method && q.endpoint == endpoint && q.params.len() == 0
        && q.body == body && q.timeout is None
}

/// The page size that is asked for, or else the tool's own.
pub open spec fn page(size: Option<u32>, default: nat) -> (Seq<char>, Seq<char>) {
    (
        "page_size"@,
        match size {
            Some(n) => decimal(n as nat),
            None => decimal(default),
        },
    )
}

/// A parameter that is sent where it has a value.
pub open spec fn param(name: &str, value: Option<String>) -> Seq<(Seq<char>, Seq<char>)> {
    match value {
        Some(v) => seq![(name@, v@)],
        None => seq![],
    }
}

/// An ad-hoc launch posts its body to the ad-hoc commands.
pub proof fn adhoc_launch_is_posted(args: SshAwxAdhocLaunchArgs)
    ensures
        changes(
            SshAwxAdhocLaunchHandler::request(args),
            HttpMethod::Post,
            "/api/v2/ad_hoc_commands/"@,
            Some(json_text(Json::Object(adhoc_fields(args)))),
        ),
{
}

/// A bulk launch posts its body to the bulk launch of jobs.
pub proof fn bulk_launch_is_posted(args: SshAwxBulkLaunchArgs)
    ensures
        changes(
            SshAwxBulkLaunchHandler::request(args),
            HttpMethod::Post,
            "/api/v2/bulk/job_launch/"@,
            Some(json_text(Json::Object(bulk_fields(args)))),
        ),
{
}

/// The approval of that ID, and no other, is approved.
pub proof fn approval_is_posted(args: SshAwxApprovalApproveArgs)
    ensures
        changes(
            SshAwxApprovalApproveHandler::request(args),
            HttpMethod::Post,
            "/api/v2/workflow_approvals/"@ + decimal(args.approval_id as nat) + "/approve/"@,
            None,
        ),
{
}

/// A host is created in the inventory of that ID.
pub proof fn host_is_created_in_its_inventory(args: SshAwxHostCreateArgs)
    ensures
        changes(
            SshAwxHostCreateHandler::request(args),
            HttpMethod::Post,
            "/api/v2/inventories/"@ + decimal(args.inventory_id as nat) + "/hosts/"@,
            Some(json_text(Json::Object(host_fields(args)))),
        ),
{
}

/// The host of that ID is updated, where there is something to change.
pub proof fn host_of_that_id_is_updated(args: SshAwxHostUpdateArgs)
    requires
        args.enabled is Some || args.variables is Some || args.description is Some,
    ensures
        changes(
            SshAwxHostUpdateHandler::request(args),
            HttpMethod::Patch,
            "/api/v2/hosts/"@ + decimal(args.host_id as nat) + "/"@,
            Some(json_text(Json::Object(update_fields(args)))),
        ),
{
    crate::laws::bodies::update_changes_only_what_is_supplied(args);
}

/// The schedule of that ID is switched as the caller says.
pub proof fn schedule_of_that_id_is_switched(args: SshAwxScheduleSetArgs)
    ensures
        changes(
            SshAwxScheduleSetHandler::request(args),
            HttpMethod::Patch,
            "/api/v2/schedules/"@ + decimal(args.schedule_id as nat) + "/"@,
            Some(
                json_text(
                    Json::Object(no_fields().insert("enabled"@, Json::Bool(args.enabled))),
                ),
            ),
        ),
{
}

/// The job of that ID is relaunched, on the hosts that the caller names where there are any.
pub proof fn job_of_that_id_is_relaunched(args: SshAwxJobRelaunchArgs)
    ensures
        changes(
            SshAwxJobRelaunchHandler::request(args),
            HttpMethod::Post,
            "/api/v2/jobs/"@ + decimal(args.job_id as nat) + "/relaunch/"@,
            match args.hosts {
                Some(RelaunchHosts::All) => Some(
                    json_text(Json::Object(no_fields().insert("hosts"@, Json::Text("all"@)))),
                ),
                Some(RelaunchHosts::Failed) => Some(
                    json_text(Json::Object(no_fields().insert("hosts"@, Json::Text("failed"@)))),
                ),
                None => None,
            },
        ),
{
}

/// The workflow template of that ID is launched, with a body only where something is overridden.
pub proof fn workflow_of_that_id_is_launched(args: SshAwxWorkflowLaunchArgs)
    ensures
        changes(
            SshAwxWorkflowLaunchHandler::request(args),
            HttpMethod::Post,
            "/api/v2/workflow_job_templates/"@ + decimal(args.workflow_template_id as nat)
                + "/launch/"@,
            if args.extra_vars is None && args.limit is None && args.inventory is None {
                None
            } else {
                Some(json_text(Json::Object(launch_fields(args))))
            },
        ),
{
    crate::laws::bodies::launch_without_overrides_has_no_body(args);
}

/// The approvals of the status that is asked for are listed, on pages of the size that is asked
/// for.
pub proof fn approvals_are_listed(args: SshAwxApprovalsArgs)
    ensures
        asks(
            SshAwxApprovalsHandler::request(args),
            "/api/v2/workflow_approvals/"@,
            seq![
                page(args.page_size, 50),
                (
                    "status"@,
                    match args.status {
                        ApprovalStatus::Pending => "pending"@,
                        ApprovalStatus::Successful => "successful"@,
                        ApprovalStatus::Failed => "failed"@,
                    },
                ),
            ],
            args.timeout_seconds,
        ),
{
}

/// The approvals of the run of that ID are listed, those that are pending unless another status
/// is asked for.
pub proof fn approvals_of_that_run_are_listed(args: SshAwxWorkflowApprovalsArgs)
    ensures
        asks(
            SshAwxWorkflowApprovalsHandler::request(args),
            "/api/v2/workflow_approvals/"@,
            seq![
                ("unified_job_node__workflow_job"@, decimal(args.workflow_job_id as nat)),
                (
                    "status"@,
                    match args.status {
                        Some(s) => s@,
                        None => "pending"@,
                    },
                ),
                page(args.page_size, 50),
            ],
            args.timeout_seconds,
        ),
{
    let params = (SshAwxWorkflowApprovalsHandler::request(args)->Ok_0).params;
    assert(params =~= seq![
        ("unified_job_node__workflow_job"@, decimal(args.workflow_job_id as nat)),
        (
            "status"@,
            match args.status {
                Some(s) => s@,
                None => "pending"@,
            },
        ),
        page(args.page_size, 50),
    ]);
}

/// The groups of the inventory of that ID are listed.
pub proof fn groups_of_that_inventory_are_listed(args: SshAwxInventoryGroupsArgs)
    ensures
        asks(
            SshAwxInventoryGroupsHandler::request(args),
            "/api/v2/inventories/"@ + decimal(args.inventory_id as nat) + "/groups/"@,
            seq![page(args.page_size, 50)],
            args.timeout_seconds,
        ),
{
}

/// The jobs are listed by exactly the filters that are given, the one that finished last first.
pub proof fn jobs_are_listed_by_their_filters(args: SshAwxJobsArgs)
    ensures
        asks(
            SshAwxJobsHandler::request(args),
            "/api/v2/unified_jobs/"@,
            seq![page(args.page_size, 25)] + param("status", args.status) + param(
                "type",
                args.job_type,
            ) + param("name__icontains", args.name_contains) + seq![("order_by"@, "-finished"@)],
            args.timeout_seconds,
        ),
{
}

/// The project update of that ID is looked up.
pub proof fn project_update_of_that_id_is_shown(args: SshAwxProjectUpdateStatusArgs)
    ensures
        asks(
            SshAwxProjectUpdateStatusHandler::request(args),
            "/api/v2/project_updates/"@ + decimal(args.project_update_id as nat) + "/"@,
            seq![],
            args.timeout_seconds,
        ),
{
}

/// The output of the project update of that ID is fetched as plain text.
pub proof fn project_update_output_is_text(args: SshAwxProjectUpdateStdoutArgs)
    ensures
        asks(
            SshAwxProjectUpdateStdoutHandler::request(args),
            "/api/v2/project_updates/"@ + decimal(args.project_update_id as nat) + "/stdout/"@,
            seq![("format"@, "txt"@)],
            None,
        ),
{
}

/// An object is looked up by name among those of its kind.
pub proof fn name_is_looked_up_among_its_kind(args: SshAwxResolveArgs)
    ensures
        asks(
            SshAwxResolveHandler::request(args),
            "/api/v2/"@ + args.kind@ + "/"@,
            seq![
                (
                    if args.exact == Some(false) {
                        "name__icontains"@
                    } else {
                        "name__iexact"@
                    },
                    args.name@,
                ),
            ],
            args.timeout_seconds,
        ),
{
}

/// A refusal of arguments for the IDs in them: the ID 0, which no object has, is refused.
pub open spec fn refused_for_id(refusal: Option<Refusal>, zero: bool) -> bool {
    refusal == if zero {
        Some(Refusal::Denied("AWX resource ID must be a positive integer"@))
    } else {
        None
    }
}

/// A tool that takes an ID refuses the ID 0, and nothing else.
pub proof fn only_a_zero_id_is_refused(
    adhoc: SshAwxAdhocLaunchArgs,
    approve: SshAwxApprovalApproveArgs,
    create: SshAwxHostCreateArgs,
    update: SshAwxHostUpdateArgs,
    groups: SshAwxInventoryGroupsArgs,
    relaunch: SshAwxJobRelaunchArgs,
    status: SshAwxProjectUpdateStatusArgs,
    stdout: SshAwxProjectUpdateStdoutArgs,
    schedule: SshAwxScheduleSetArgs,
    of_run: SshAwxWorkflowApprovalsArgs,
    launch: SshAwxWorkflowLaunchArgs,
)
    ensures
        refused_for_id(
            SshAwxAdhocLaunchHandler::refusal(adhoc),
            adhoc.inventory == 0 || adhoc.credential == 0,
        ),
        refused_for_id(SshAwxApprovalApproveHandler::refusal(approve), approve.approval_id == 0),
        refused_for_id(SshAwxHostCreateHandler::refusal(create), create.inventory_id == 0),
        refused_for_id(SshAwxHostUpdateHandler::refusal(update), update.host_id == 0),
        refused_for_id(SshAwxInventoryGroupsHandler::refusal(groups), groups.inventory_id == 0),
        refused_for_id(SshAwxJobRelaunchHandler::refusal(relaunch), relaunch.job_id == 0),
        refused_for_id(
            SshAwxProjectUpdateStatusHandler::refusal(status),
            status.project_update_id == 0,
        ),
        refused_for_id(
            SshAwxProjectUpdateStdoutHandler::refusal(stdout),
            stdout.project_update_id == 0,
        ),
        refused_for_id(SshAwxScheduleSetHandler::refusal(schedule), schedule.schedule_id == 0),
        refused_for_id(
            SshAwxWorkflowApprovalsHandler::refusal(of_run),
            of_run.workflow_job_id == 0,
        ),
        refused_for_id(
            SshAwxWorkflowLaunchHandler::refusal(launch),
            launch.workflow_template_id == 0,
        ),
{
}

/// Lists that take no ID accept every argument.
pub proof fn lists_accept_everything(jobs: SshAwxJobsArgs, approvals: SshAwxApprovalsArgs)
    ensures
        SshAwxJobsHandler::refusal(jobs) is None,
        SshAwxApprovalsHandler::refusal(approvals) is None,
{
}

/// A name is looked up only among kinds of objects that are known; any other kind is refused
/// with its name in the message.
pub proof fn only_known_kinds_are_looked_up(args: SshAwxResolveArgs)
    ensures
        SshAwxResolveHandler::refusal(args) is None <==> (args.kind@ == "job_templates"@
            || args.kind@ == "workflow_job_templates"@ || args.kind@ == "inventories"@
            || args.kind@ == "projects"@ || args.kind@ == "credentials"@ || args.kind@
            == "hosts"@),
        SshAwxResolveHandler::refusal(args) matches Some(refusal) ==> refusal
            == Refusal::InvalidRequest(
            "Unknown kind "@ + "'"@ + args.kind@ + "'"@
                + ". Allowed: job_templates, workflow_job_templates, inventories, projects, credentials, hosts"@,
        ),
{
}

} // verus!
