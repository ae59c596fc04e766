//! What the bodies of AWX requests hold.
use crate::json::{contents, json_text, no_fields, Json};
use crate::text::decimal;
use crate::tools::ssh_awx_adhoc_launch::{adhoc_fields, SshAwxAdhocLaunchArgs};
use crate::tools::ssh_awx_bulk_launch::{
    bulk_fields, job_entries, job_fields, BulkJob, SshAwxBulkLaunchArgs,
};
use crate::tools::ssh_awx_host_create::{host_fields, SshAwxHostCreateArgs};
use crate::tools::ssh_awx_host_update::{update_fields, SshAwxHostUpdateArgs};
use crate::tools::ssh_awx_workflow_launch::{launch_body, launch_fields, SshAwxWorkflowLaunchArgs};
use vstd::prelude::*;

verus! {

proof fn field_names_differ()
    ensures
        "unified_job_template"@.len() == 20,
        "description"@.len() == 11,
        "module_name"@.len() == 11,
        "module_args"@.len() == 11,
        "module_name"@ != "module_args"@,
        "credential"@.len() == 10,
        "extra_vars"@.len() == 10,
        "inventory"@.len() == 9,
        "variables"@.len() == 9,
        "verbosity"@.len() == 9,
        "inventory"@ != "verbosity"@,
        "become_enabled"@.len() == 14,
        "enabled"@.len() == 7,
        "limit"@.len() == 5,
        "name"@.len() == 4,
        "jobs"@.len() == 4,
        "name"@ != "jobs"@,
{
    reveal_strlit("unified_job_template");
    reveal_strlit("description");
    reveal_strlit("module_name");
    reveal_strlit("module_args");
    reveal_strlit("credential");
    reveal_strlit("extra_vars");
    reveal_strlit("inventory");
    reveal_strlit("variables");
    reveal_strlit("verbosity");
    reveal_strlit("become_enabled");
    reveal_strlit("enabled");
    reveal_strlit("limit");
    reveal_strlit("name");
    reveal_strlit("jobs");
    assert("module_name"@[7] != "module_args"@[7]);
    assert("inventory"@[0] != "verbosity"@[0]);
    assert("name"@[0] != "jobs"@[0]);
}

/// An object has a field of that name, with that value, where there is a value, and none else.
pub open spec fn carries(object: Map<Seq<char>, Json>, name: &str, value: Option<Json>) -> bool {
    match value {
        Some(v) => object.contains_key(name@) && object[name@] == v,
        None => !object.contains_key(name@),
    }
}

/// A number as a JSON value.
pub open spec fn as_number(n: u64) -> Json {
    Json::Number(decimal(n as nat))
}

/// A text that may be absent, as a JSON value.
pub open spec fn as_text(s: Option<String>) -> Option<Json> {
    match s {
        Some(v) => Some(Json::Text(v@)),
        None => None,
    }
}

/// The body of a bulk launch always carries a name and the jobs, and where the caller gives no
/// name it is one that is not empty.
pub proof fn bulk_body_is_always_named(args: SshAwxBulkLaunchArgs)
    ensures
        bulk_fields(args).dom() == set!["name"@, "jobs"@],
        bulk_fields(args)["name"@] matches Json::Text(name) && (args.name is None ==> name.len()
            > 0),
        bulk_fields(args)["jobs"@] == Json::Array(job_entries(args.jobs@)),
        job_entries(args.jobs@).len() == args.jobs@.len(),
{
    field_names_differ();
    reveal_strlit("bridge-mcp bulk launch");
    assert(bulk_fields(args).dom() =~= set!["name"@, "jobs"@]);
}

/// The body of a bulk launch carries the name that the caller gives, or else one that is not
/// empty, and the entries of the jobs in their order, and nothing else.
pub proof fn bulk_body_holds_the_name_and_the_jobs(args: SshAwxBulkLaunchArgs)
    ensures
        bulk_fields(args).dom() == set!["name"@, "jobs"@],
        bulk_fields(args)["name"@] == Json::Text(
            match args.name {
                Some(n) => n@,
                None => "bridge-mcp bulk launch"@,
            },
        ),
        "bridge-mcp bulk launch"@.len() > 0,
        bulk_fields(args)["jobs"@] == Json::Array(
            Seq::new(args.jobs@.len(), |i: int| Json::Object(job_fields(args.jobs@[i]))),
        ),
{
    field_names_differ();
    reveal_strlit("bridge-mcp bulk launch");
    assert(bulk_fields(args).dom() =~= set!["name"@, "jobs"@]);
    assert(job_entries(args.jobs@) =~= Seq::new(
        args.jobs@.len(),
        |i: int| Json::Object(job_fields(args.jobs@[i])),
    ));
}

/// The entry of a job always carries its template, and the other fields exactly where the job
/// has them.
pub proof fn job_entry_omits_what_is_absent(job: BulkJob)
    ensures
        job_fields(job).contains_key("unified_job_template"@),
        job_fields(job).contains_key("inventory"@) <==> job.inventory is Some,
        job_fields(job).contains_key("limit"@) <==> job.limit is Some,
        job_fields(job).contains_key("extra_vars"@) <==> job.extra_vars is Some,
{
    field_names_differ();
}

/// The entry of a job carries its template's number, and each of the other fields that the job
/// has with that field's own value; a field that the job does not have is left out, and there is
/// nothing else.
pub proof fn job_entry_carries_its_own_values(job: BulkJob)
    ensures
        carries(
            job_fields(job),
            "unified_job_template",
            Some(as_number(job.unified_job_template)),
        ),
        carries(
            job_fields(job),
            "inventory",
            match job.inventory {
                Some(n) => Some(as_number(n)),
                None => None,
            },
        ),
        carries(job_fields(job), "limit", as_text(job.limit)),
        carries(
            job_fields(job),
            "extra_vars",
            match job.extra_vars {
                Some(v) => Some(contents(v)),
                None => None,
            },
        ),
        job_fields(job).dom().subset_of(
            set!["unified_job_template"@, "inventory"@, "limit"@, "extra_vars"@],
        ),
{
    field_names_differ();
}

/// The body of an ad-hoc launch carries the module's arguments as one JSON text, beside the
/// module, the inventory and the credential; the optional fields are there exactly where the
/// caller gives them.
pub proof fn adhoc_body_carries_the_arguments(args: SshAwxAdhocLaunchArgs)
    ensures
        adhoc_fields(args).contains_key("module_args"@),
        adhoc_fields(args)["module_args"@] == Json::Text(args.module_args@),
        adhoc_fields(args).contains_key("module_name"@),
        adhoc_fields(args)["module_name"@] == Json::Text(args.module_name@),
        adhoc_fields(args).contains_key("inventory"@),
        adhoc_fields(args).contains_key("credential"@),
        adhoc_fields(args).contains_key("limit"@) <==> args.limit is Some,
        adhoc_fields(args).contains_key("verbosity"@) <==> args.verbosity is Some,
        adhoc_fields(args).contains_key("become_enabled"@) <==> args.become_enabled is Some,
{
    field_names_differ();
}

/// The body of an ad-hoc launch carries the module and its arguments as JSON texts and the
/// numbers of the inventory and of the credential; the optional fields are there, with the
/// caller's values, exactly where the caller gives them.
pub proof fn adhoc_body_carries_the_callers_values(args: SshAwxAdhocLaunchArgs)
    ensures
        carries(adhoc_fields(args), "module_args", Some(Json::Text(args.module_args@))),
        carries(adhoc_fields(args), "module_name", Some(Json::Text(args.module_name@))),
        carries(adhoc_fields(args), "inventory", Some(as_number(args.inventory))),
        carries(adhoc_fields(args), "credential", Some(as_number(args.credential))),
        carries(adhoc_fields(args), "limit", as_text(args.limit)),
        carries(
            adhoc_fields(args),
            "verbosity",
            match args.verbosity {
                Some(v) => Some(as_number(v as u64)),
                None => None,
            },
        ),
        carries(
            adhoc_fields(args),
            "become_enabled",
            match args.become_enabled {
                Some(b) => Some(Json::Bool(b)),
                None => None,
            },
        ),
        adhoc_fields(args).dom().subset_of(
            set![
                "module_args"@,
                "module_name"@,
                "inventory"@,
                "credential"@,
                "limit"@,
                "verbosity"@,
                "become_enabled"@,
            ],
        ),
{
    field_names_differ();
}

/// The body of a host creation carries the name of the host, and the optional fields exactly
/// where the caller gives them.
pub proof fn host_body_carries_the_name(args: SshAwxHostCreateArgs)
    ensures
        host_fields(args).contains_key("name"@),
        host_fields(args)["name"@] == Json::Text(args.name@),
        host_fields(args).contains_key("description"@) <==> args.description is Some,
        host_fields(args).contains_key("enabled"@) <==> args.enabled is Some,
        host_fields(args).contains_key("variables"@) <==> args.variables is Some,
{
    field_names_differ();
}

/// The body of a host creation carries the name of the host, and the optional fields, with the
/// caller's values, exactly where the caller gives them.
pub proof fn host_body_carries_the_callers_values(args: SshAwxHostCreateArgs)
    ensures
        carries(host_fields(args), "name", Some(Json::Text(args.name@))),
        carries(host_fields(args), "description", as_text(args.description)),
        carries(
            host_fields(args),
            "enabled",
            match args.enabled {
                Some(b) => Some(Json::Bool(b)),
                None => None,
            },
        ),
        carries(
            host_fields(args),
            "variables",
            match args.variables {
                Some(v) => Some(contents(v)),
                None => None,
            },
        ),
        host_fields(args).dom().subset_of(
            set!["name"@, "description"@, "enabled"@, "variables"@],
        ),
{
    field_names_differ();
}

/// A host update changes only the fields that the caller supplies, and at least one is required:
/// a field is in the body exactly where it is supplied, and the body is empty exactly where none
/// is.
pub proof fn update_changes_only_what_is_supplied(args: SshAwxHostUpdateArgs)
    ensures
        update_fields(args).contains_key("enabled"@) <==> args.enabled is Some,
        update_fields(args).contains_key("variables"@) <==> args.variables is Some,
        update_fields(args).contains_key("description"@) <==> args.description is Some,
        update_fields(args) == no_fields() <==> (args.enabled is None && args.variables is None
            && args.description is None),
{
    field_names_differ();
    if args.enabled is Some || args.variables is Some || args.description is Some {
        assert(update_fields(args).contains_key("enabled"@) || update_fields(args).contains_key(
            "variables"@,
        ) || update_fields(args).contains_key("description"@));
        assert(!no_fields().contains_key("enabled"@));
        assert(!no_fields().contains_key("variables"@));
        assert(!no_fields().contains_key("description"@));
    }
}

/// A host update sets each field that the caller supplies to the value that the caller supplies,
/// and no other.
pub proof fn update_sets_what_is_supplied(args: SshAwxHostUpdateArgs)
    ensures
        carries(
            update_fields(args),
            "enabled",
            match args.enabled {
                Some(b) => Some(Json::Bool(b)),
                None => None,
            },
        ),
        carries(
            update_fields(args),
            "variables",
            match args.variables {
                Some(v) => Some(contents(v)),
                None => None,
            },
        ),
        carries(update_fields(args), "description", as_text(args.description)),
        update_fields(args).dom().subset_of(set!["enabled"@, "variables"@, "description"@]),
{
    field_names_differ();
}

/// The body of a workflow launch carries each override with the caller's value, the extra
/// variables as their JSON text, exactly where the caller gives it, and nothing else.
pub proof fn launch_body_carries_the_overrides(args: SshAwxWorkflowLaunchArgs)
    ensures
        carries(
            launch_fields(args),
            "extra_vars",
            match args.extra_vars {
                Some(v) => Some(Json::Text(json_text(contents(v)))),
                None => None,
            },
        ),
        carries(launch_fields(args), "limit", as_text(args.limit)),
        carries(
            launch_fields(args),
            "inventory",
            match args.inventory {
                Some(n) => Some(as_number(n)),
                None => None,
            },
        ),
        launch_fields(args).dom().subset_of(set!["extra_vars"@, "limit"@, "inventory"@]),
        launch_body(args) matches Some(text) ==> text == json_text(
            Json::Object(launch_fields(args)),
        ),
{
    field_names_differ();
}

/// A workflow is launched without a body exactly where the caller overrides nothing.
pub proof fn launch_without_overrides_has_no_body(args: SshAwxWorkflowLaunchArgs)
    ensures
        launch_body(args) is None <==> (args.extra_vars is None && args.limit is None
            && args.inventory is None),
{
    field_names_differ();
    if args.extra_vars is Some || args.limit is Some || args.inventory is Some {
        assert(launch_fields(args).contains_key("extra_vars"@) || launch_fields(args).contains_key(
            "limit"@,
        ) || launch_fields(args).contains_key("inventory"@));
        assert(!no_fields().contains_key("extra_vars"@));
        assert(!no_fields().contains_key("limit"@));
        assert(!no_fields().contains_key("inventory"@));
    }
}

} // verus!
