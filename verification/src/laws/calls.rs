//! What the AWX tools ask the server for.
use crate::awx::{timeout_or, AwxTool};
use crate::builders::awx::HttpMethod;
use crate::config::AwxConfig;
use crate::error::Refusal;
use crate::json::{json_text, no_fields, Json};
use crate::tools::ssh_awx_approvals::{SshAwxApprovalsArgs, SshAwxApprovalsHandler};
use crate::tools::ssh_awx_bulk_launch::{
    jobs_refusal, BulkJob, SshAwxBulkLaunchArgs, SshAwxBulkLaunchHandler,
};
use crate::tools::ssh_awx_host_update::{SshAwxHostUpdateArgs, SshAwxHostUpdateHandler};
use crate::tools::ssh_awx_inventory_groups::{
    SshAwxInventoryGroupsArgs, SshAwxInventoryGroupsHandler,
};
use crate::tools::ssh_awx_job_relaunch::{SshAwxJobRelaunchArgs, SshAwxJobRelaunchHandler};
use crate::tools::ssh_awx_jobs::{jobs_params, SshAwxJobsArgs, SshAwxJobsHandler};
use crate::tools::ssh_awx_project_update_status::{
    SshAwxProjectUpdateStatusArgs, SshAwxProjectUpdateStatusHandler,
};
use crate::tools::ssh_awx_resolve::{SshAwxResolveArgs, SshAwxResolveHandler};
use crate::tools::ssh_awx_schedule_set::{SshAwxScheduleSetArgs, SshAwxScheduleSetHandler};
use crate::tools::ssh_awx_workflow_approvals::{
    SshAwxWorkflowApprovalsArgs, SshAwxWorkflowApprovalsHandler,
};
use vstd::prelude::*;

verus! {

/// The feed of jobs always comes with the one that finished last in front, whatever it is
/// filtered by.
pub proof fn jobs_come_latest_first(args: SshAwxJobsArgs)
    ensures
        jobs_params(args).last() == ("order_by"@, "-finished"@),
{
}

/// Every filter that the caller gives is relayed as a parameter of its own, with its value, and a
/// filter that is not given is not sent.
pub proof fn job_filters_are_relayed(args: SshAwxJobsArgs)
    ensures
        args.status matches Some(s) ==> jobs_params(args).contains(("status"@, s@)),
        args.job_type matches Some(t) ==> jobs_params(args).contains(("type"@, t@)),
        args.name_contains matches Some(n) ==> jobs_params(args).contains(
            ("name__icontains"@, n@),
        ),
        jobs_params(args).len() == 2 + (if args.status is Some {
            1int
        } else {
            0
        }) + (if args.job_type is Some {
            1int
        } else {
            0
        }) + (if args.name_contains is Some {
            1int
        } else {
            0
        }),
{
    let params = jobs_params(args);
    let type_at: int = if args.status is Some {
        2
    } else {
        1
    };
    let name_at: int = if args.job_type is Some {
        type_at + 1
    } else {
        type_at
    };
    if let Some(s) = args.status {
        assert(params[1] == ("status"@, s@));
    }
    if let Some(t) = args.job_type {
        assert(params[type_at] == ("type"@, t@));
    }
    if let Some(n) = args.name_contains {
        assert(params[name_at] == ("name__icontains"@, n@));
    }
}

/// A call runs under the limit that the caller sets, and under the configured one only where the
/// caller sets none.
pub proof fn callers_timeout_comes_first(
    awx: AwxConfig,
    jobs: SshAwxJobsArgs,
    approvals: SshAwxApprovalsArgs,
    groups: SshAwxInventoryGroupsArgs,
    status: SshAwxProjectUpdateStatusArgs,
    resolve: SshAwxResolveArgs,
    of_run: SshAwxWorkflowApprovalsArgs,
)
    ensures
        SshAwxJobsHandler::request(jobs)->Ok_0.timeout == jobs.timeout_seconds,
        SshAwxApprovalsHandler::request(approvals)->Ok_0.timeout == approvals.timeout_seconds,
        SshAwxInventoryGroupsHandler::request(groups)->Ok_0.timeout == groups.timeout_seconds,
        SshAwxProjectUpdateStatusHandler::request(status)->Ok_0.timeout == status.timeout_seconds,
        SshAwxResolveHandler::request(resolve)->Ok_0.timeout == resolve.timeout_seconds,
        SshAwxWorkflowApprovalsHandler::request(of_run)->Ok_0.timeout == of_run.timeout_seconds,
        forall|t: u64| #[trigger] timeout_or(Some(t), awx) == t,
        timeout_or(None, awx) == awx.api_timeout,
{
}

/// The approvals of a run are asked for by the ID of the run, and are the pending ones unless the
/// caller names another status.
pub proof fn approvals_of_a_run_are_pending_by_default(args: SshAwxWorkflowApprovalsArgs)
    ensures
        SshAwxWorkflowApprovalsHandler::request(args) matches Ok(request)
            && request.params.contains(
            ("unified_job_node__workflow_job"@, crate::text::decimal(args.workflow_job_id as nat)),
        ) && request.params.contains(
            (
                "status"@,
                match args.status {
                    Some(s) => s@,
                    None => "pending"@,
                },
            ),
        ),
{
    let request = SshAwxWorkflowApprovalsHandler::request(args)->Ok_0;
    assert(request.params[0].0 == "unified_job_node__workflow_job"@);
    assert(request.params[1].0 == "status"@);
}

/// A name is matched as a whole unless the caller asks for a part, and the name itself goes into
/// the query and nowhere else.
pub proof fn names_are_matched_whole_by_default(args: SshAwxResolveArgs)
    ensures
        SshAwxResolveHandler::request(args) matches Ok(request) && request.params == seq![
            (
                if args.exact == Some(false) {
                    "name__icontains"@
                } else {
                    "name__iexact"@
                },
                args.name@,
            ),
        ] && request.endpoint == "/api/v2/"@ + args.kind@ + "/"@ && request.body is None,
{
}

/// A host update is a PATCH call, and there is none without a field to change: the update is
/// refused exactly where the caller supplies no field.
pub proof fn update_needs_a_field(args: SshAwxHostUpdateArgs)
    ensures
        match SshAwxHostUpdateHandler::request(args) {
            Ok(request) => request.method == HttpMethod::Patch,
            Err(refusal) => refusal == Refusal::InvalidRequest("no fields to update"@),
        },
        SshAwxHostUpdateHandler::request(args) is Err <==> (args.enabled is None && args.variables
            is None && args.description is None),
{
    crate::laws::bodies::update_changes_only_what_is_supplied(args);
}

/// The body of a schedule change is the switch as the caller sets it, and nothing else.
pub proof fn schedule_body_is_the_switch(args: SshAwxScheduleSetArgs)
    ensures
        SshAwxScheduleSetHandler::request(args) matches Ok(request) && request.method
            == HttpMethod::Patch && request.body == Some(
            json_text(Json::Object(no_fields().insert("enabled"@, Json::Bool(args.enabled)))),
        ),
{
}

/// A relaunch names the hosts where the caller does, and leaves the choice to the server
/// otherwise.
pub proof fn relaunch_names_hosts_on_request(args: SshAwxJobRelaunchArgs)
    ensures
        SshAwxJobRelaunchHandler::request(args) matches Ok(request) && match args.hosts {
            Some(h) => request.body == Some(
                json_text(Json::Object(no_fields().insert("hosts"@, Json::Text(h.text()@)))),
            ),
            None => request.body is None,
        },
{
}

/// A job of a bulk launch is accepted: no ID in it is 0.
pub open spec fn job_has_ids(job: BulkJob) -> bool {
    job.unified_job_template > 0 && job.inventory != Some(0u64)
}

proof fn jobs_pass_together(jobs: Seq<BulkJob>)
    ensures
        jobs_refusal(jobs) is None <==> forall|i: int|
            0 <= i < jobs.len() ==> job_has_ids(#[trigger] jobs[i]),
    decreases jobs.len(),
{
    if jobs.len() > 0 {
        let rest = jobs.skip(1);
        jobs_pass_together(rest);
        if jobs_refusal(jobs) is None {
            assert forall|i: int| 0 <= i < jobs.len() implies job_has_ids(#[trigger] jobs[i]) by {
                if i > 0 {
                    assert(rest[i - 1] == jobs[i]);
                }
            }
        }
        if forall|i: int| 0 <= i < jobs.len() ==> job_has_ids(#[trigger] jobs[i]) {
            assert(job_has_ids(jobs[0]));
            assert forall|i: int| 0 <= i < rest.len() implies job_has_ids(#[trigger] rest[i]) by {
                assert(rest[i] == jobs[i + 1]);
            }
        }
    }
}

/// A bulk launch is all or nothing: it is accepted exactly where it has a job and every job in it
/// names a template, and no inventory that cannot be.
pub proof fn bulk_launch_is_checked_as_a_whole(args: SshAwxBulkLaunchArgs)
    ensures
        SshAwxBulkLaunchHandler::refusal(args) is None <==> args.jobs@.len() > 0 && forall|i: int|
            0 <= i < args.jobs@.len() ==> job_has_ids(#[trigger] args.jobs@[i]),
{
    jobs_pass_together(args.jobs@);
}

} // verus!
