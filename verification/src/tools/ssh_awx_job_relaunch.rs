//! SSH AWX Job Relaunch Tool Handler
//!
//! Relaunches a finished AWX job via REST API relayed through SSH, optionally targeting only the
//! hosts that failed.
use crate::awx::{call_command, endpoint_with_id, id_endpoint, id_refusal, ApiRequest, AwxTool};
use crate::builders::awx::{AwxCommandBuilder, HttpMethod};
use crate::config::AwxConfig;
use crate::error::{BridgeError, Refusal};
use crate::json::{
    fields, has_no_fields, json_text, new_object, no_fields, object_value, set_field, text_value,
    value_text, Json,
};
use crate::shell::opt_text;
use crate::text::same_text;
use crate::tool::{Annotation, OutputKind, ToolHandler};
use vstd::prelude::*;

verus! {

/// Which hosts to relaunch against.
#[derive(Debug)]
pub enum RelaunchHosts {
    /// Relaunch against all hosts in the original run.
    All,
    /// Relaunch only against hosts that failed.
    Failed,
}

/// Arguments for the `ssh_awx_job_relaunch` tool.
#[derive(Debug)]
pub struct SshAwxJobRelaunchArgs {
    /// AWX job ID to relaunch.
    pub job_id: u64,
    /// Which hosts to relaunch (default: AWX server default, i.e. all).
    pub hosts: Option<RelaunchHosts>,
}

impl RelaunchHosts {
    /// AWX `hosts` body value.
    pub open spec fn text(self) -> &'static str {
        match self {
            RelaunchHosts::All => "all",
            RelaunchHosts::Failed => "failed",
        }
    }

    /// AWX `hosts` body value.
    pub fn as_str(&self) -> (r: &'static str)
        ensures
            r@ == self.text()@,
    {
        match self {
            RelaunchHosts::All => "all",
            RelaunchHosts::Failed => "failed",
        }
    }

    /// The choice that a text stands for.
    pub open spec fn read(text: Seq<char>) -> Option<RelaunchHosts> {
        if text == "all"@ {
            Some(RelaunchHosts::All)
        } else if text == "failed"@ {
            Some(RelaunchHosts::Failed)
        } else {
            None
        }
    }

    /// The choice that a text stands for.
    pub fn from_text(text: &str) -> (r: Option<Self>)
        ensures
            r == Self::read(text@),
    {
        if same_text(text, "all") {
            Some(RelaunchHosts::All)
        } else if same_text(text, "failed") {
            Some(RelaunchHosts::Failed)
        } else {
            None
        }
    }
}

/// Every choice reads back from its text, and no other text is read as a choice.
pub proof fn choices_read_back(v: RelaunchHosts, t: Seq<char>)
    ensures
        RelaunchHosts::read(v.text()@) == Some(v),
        RelaunchHosts::read(t) is None ==> v.text()@ != t,
        RelaunchHosts::read(t) == Some(v) ==> v.text()@ == t,
{
    reveal_strlit("all");
    reveal_strlit("failed");
    assert("all"@.len() == 3);
    assert("failed"@.len() == 6);
}

/// The request body, which is left out where the caller does not name the hosts.
pub open spec fn relaunch_body(hosts: Option<RelaunchHosts>) -> Option<Seq<char>> {
    match hosts {
        Some(h) => Some(
            json_text(Json::Object(no_fields().insert("hosts"@, Json::Text(h.text()@)))),
        ),
        None => None,
    }
}

/// Builds the request body.
pub fn build_relaunch_body(hosts: &Option<RelaunchHosts>) -> (r: Option<String>)
    ensures
        opt_text(r) == relaunch_body(*hosts),
{
    let mut body = new_object();
    if let Some(h) = hosts {
        set_field(&mut body, "hosts", text_value(h.as_str().to_owned()));
        assert(fields(body).contains_key("hosts"@));
    }
    if has_no_fields(&body) {
        None
    } else {
        Some(value_text(&object_value(body)))
    }
}

/// Handler for the `ssh_awx_job_relaunch` tool.
pub struct SshAwxJobRelaunchHandler;

impl Default for SshAwxJobRelaunchHandler {
    fn default() -> (r: Self)
        ensures
            r == SshAwxJobRelaunchHandler,
    {
        Self::new()
    }
}

impl SshAwxJobRelaunchHandler {
    /// Create a new handler instance.
    #[must_use]
    pub fn new() -> (r: Self)
        ensures
            r == SshAwxJobRelaunchHandler,
    {
        SshAwxJobRelaunchHandler
    }
}

/// What the tool is for, in words for its clients.
pub const DESCRIPTION: &'static str =
    "Relaunch a finished AWX job. Pass hosts='failed' to re-run only the hosts that failed \
    — the canonical post-failure recovery. Returns the new job ID and status.";

/// The JSON schema of the tool's arguments.
pub const SCHEMA: &'static str = r#"{
    "type": "object",
    "properties": {
        "job_id": {
            "type": "integer",
            "description": "AWX job ID to relaunch",
            "minimum": 1
        },
        "hosts": {
            "type": "string",
            "description": "Which hosts to relaunch: 'all' or 'failed' (default: all)",
            "enum": ["all", "failed"]
        }
    },
    "required": ["job_id"]
}"#;

impl ToolHandler for SshAwxJobRelaunchHandler {
    const TOOL_NAME: &'static str = "ssh_awx_job_relaunch";

    const TOOL_DESCRIPTION: &'static str = DESCRIPTION;

    const INPUT_SCHEMA: &'static str = SCHEMA;

    const TOOL_GROUP: &'static str = "awx";

    const EFFECT: Annotation = Annotation::Mutating;

    const KIND: OutputKind = OutputKind::Json;
}

impl AwxTool for SshAwxJobRelaunchHandler {
    type Args = SshAwxJobRelaunchArgs;

    const CHECKED: bool = false;

    open spec fn refusal(args: SshAwxJobRelaunchArgs) -> Option<Refusal> {
        id_refusal(args.job_id)
    }

    open spec fn request(args: SshAwxJobRelaunchArgs) -> Result<ApiRequest, Refusal> {
        Ok(
            ApiRequest {
                method: HttpMethod::Post,
                endpoint: endpoint_with_id("/api/v2/jobs/", args.job_id, "/relaunch/"),
                params: seq![],
                body: relaunch_body(args.hosts),
                timeout: None,
            },
        )
    }

    fn validate(args: &SshAwxJobRelaunchArgs) -> (r: Result<(), BridgeError>) {
        AwxCommandBuilder::validate_id(args.job_id)
    }

    fn build_command(
        args: &SshAwxJobRelaunchArgs,
        awx: &AwxConfig,
    ) -> (r: Result<String, BridgeError>) {
        let endpoint: String = id_endpoint("/api/v2/jobs/", args.job_id, "/relaunch/");
        let body: Option<String> = build_relaunch_body(&args.hosts);
        let body_text: Option<&str> = match &body {
            Some(b) => Some(b.as_str()),
            None => None,
        };
        Ok(call_command(awx, HttpMethod::Post, endpoint.as_str(), &[], body_text, None, false))
    }
}

/// What clients are told of the tool.
pub proof fn presents_itself()
    ensures
        <SshAwxJobRelaunchHandler as ToolHandler>::TOOL_NAME@ == "ssh_awx_job_relaunch"@,
        <SshAwxJobRelaunchHandler as ToolHandler>::TOOL_DESCRIPTION@ == DESCRIPTION@,
        <SshAwxJobRelaunchHandler as ToolHandler>::INPUT_SCHEMA@ == SCHEMA@,
        <SshAwxJobRelaunchHandler as ToolHandler>::TOOL_GROUP@ == "awx"@,
        <SshAwxJobRelaunchHandler as ToolHandler>::EFFECT == Annotation::Mutating,
        <SshAwxJobRelaunchHandler as ToolHandler>::KIND == OutputKind::Json,
        !<SshAwxJobRelaunchHandler as AwxTool>::CHECKED,
{
}

} // verus!
