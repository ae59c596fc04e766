//! SSH Environment Diff Tool Handler
//!
//! Provides instructions for comparing environment snapshots from two hosts.
use crate::builders::drift::{DriftCommandBuilder, DIFF_INSTRUCTION};
use crate::config::HostConfig;
use crate::error::{BridgeError, Refusal};
use crate::result::{join_texts, joined_texts, ToolCallResult, ToolContent};
use crate::shell::{named, render, CommandLine};
use crate::text::ends;
use crate::tool::{
    handler_presents_its_tool, Annotation, CommonArgs, NoCheck, OutputKind, StandardTool,
    StandardToolHandler, ToolHandler,
};
use vstd::prelude::*;

verus! {

/// Arguments for the `ssh_env_diff` tool.
#[derive(Debug)]
pub struct SshEnvDiffArgs {
    pub host: String,
    /// When `true`, append an LLM-side summary of the output to the
    /// response. Requires the client to advertise the sampling
    /// capability; falls back to raw-only output otherwise.
    pub summarize: Option<bool>,
    /// Maximum tokens for the LLM summary (default: 512). Only
    /// meaningful with summarize=true.
    pub summary_max_tokens: Option<u32>,
    pub timeout_seconds: Option<u64>,
    pub max_output: Option<u64>,
    pub save_output: Option<String>,
}

impl CommonArgs for SshEnvDiffArgs {
    open spec fn host_name(&self) -> Seq<char> {
        self.host@
    }

    fn host(&self) -> (r: &str) {
        self.host.as_str()
    }
}

/// Handler marker for the `ssh_env_diff` tool.
pub struct EnvDiffTool;

/// What the tool is for, in words for its clients.
pub const DESCRIPTION: &'static str = "Returns step-by-step instructions for comparing two \
    host environments. Does NOT perform the diff itself — it outputs a static text guide \
    telling you to run ssh_env_snapshot on each host (with save_output), then diff the \
    saved files locally. Use ssh_env_snapshot to capture the actual snapshot data, or \
    ssh_env_drift to capture a snapshot with an optional LLM-powered drift summary. \
    Pass summarize=true to append an LLM summary of top differences (requires sampling \
    capability).";

/// The JSON schema of the tool's arguments.
pub const SCHEMA: &'static str = r#"{
        "type": "object",
        "properties": {
            "host": {
                "type": "string",
                "description": "Host alias from config.yaml"
            },
            "timeout_seconds": {
                "type": "integer",
                "description": "Timeout in seconds (default: 60)",
                "minimum": 1,
                "maximum": 300
            },
            "max_output": {
                "type": "integer",
                "description": "Max output characters (default: from config)",
                "minimum": 0
            },
            "save_output": {
                "type": "string",
                "description": "Save full output to local file"
            }
        },
        "required": ["host"]
    }"#;

impl StandardTool for EnvDiffTool {
    type Args = SshEnvDiffArgs;

    type Check = NoCheck;

    const NAME: &'static str = "ssh_env_diff";

    const DESCRIPTION: &'static str = DESCRIPTION;

    const SCHEMA: &'static str = SCHEMA;

    const GROUP: &'static str = "drift";

    const ANNOTATION: Annotation = Annotation::ReadOnly;

    const OUTPUT_KIND: OutputKind = OutputKind::RawText;

    open spec fn command(args: SshEnvDiffArgs) -> Result<Seq<char>, Refusal> {
        Ok(render(named("echo ", DIFF_INSTRUCTION@)))
    }

    fn build_command(
        args: &SshEnvDiffArgs,
        _host_config: &HostConfig,
    ) -> (r: Result<String, BridgeError>) {
        let mut cmd = CommandLine::new("echo ");
        cmd.arg(DriftCommandBuilder::build_diff_instruction());
        assert(cmd@ =~= named("echo ", DIFF_INSTRUCTION@));
        Ok(cmd.into_text())
    }
}

/// What a language model is asked for.
pub struct SummaryRequest {
    pub prompt: &'static str,
    pub max_tokens: u32,
}

/// Limit for the command in seconds, unless the caller names another.
pub const DEFAULT_TIMEOUT_SECONDS: u64 = 60;

/// The length of a summary unless the caller names another.
pub const DEFAULT_SUMMARY_TOKENS: u32 = 512;

/// What the model is told about the text that it is to summarize.
pub const SUMMARY_PROMPT: &'static str =
    "You are a config drift analyst. Summarize the top 3 most consequential package/service/config differences between snapshots in bullet points. One line each, no preamble.";

/// What stands between the output and its summary.
pub const SUMMARY_HEADING: &'static str = "\n=== LLM SUMMARY ===\n";

/// `s` with a newline at its end, which is added where there is none.
pub open spec fn with_final_newline(s: Seq<char>) -> Seq<char> {
    if s.len() > 0 && s.last() == '\n' {
        s
    } else {
        s.push('\n')
    }
}

/// The text of an answer to which a summary was added.
pub open spec fn summarized(content: Seq<ToolContent>, summary: Seq<char>) -> Seq<char> {
    with_final_newline(joined_texts(content)) + SUMMARY_HEADING@ + summary
}

impl EnvDiffTool {
    /// Limit for the command in seconds: the one that the caller sets, or else the default.
    pub fn timeout_seconds(args: &SshEnvDiffArgs) -> (r: u64)
        ensures
            r == (match args.timeout_seconds {
                Some(t) => t,
                None => DEFAULT_TIMEOUT_SECONDS,
            }),
    {
        match args.timeout_seconds {
            Some(t) => t,
            None => DEFAULT_TIMEOUT_SECONDS,
        }
    }

    /// What to ask a language model for, if anything: a summary is made only on request.
    pub fn summary_request(args: &SshEnvDiffArgs) -> (r: Option<SummaryRequest>)
        ensures
            r is Some <==> args.summarize == Some(true),
            r matches Some(request) ==> {
                &&& request.prompt@ == SUMMARY_PROMPT@
                &&& request.max_tokens == (match args.summary_max_tokens {
                    Some(n) => n,
                    None => DEFAULT_SUMMARY_TOKENS,
                })
            },
    {
        match args.summarize {
            Some(true) => {
                let max_tokens: u32 = match args.summary_max_tokens {
                    Some(n) => n,
                    None => DEFAULT_SUMMARY_TOKENS,
                };
                Some(SummaryRequest { prompt: SUMMARY_PROMPT, max_tokens })
            },
            _ => None,
        }
    }

    /// Adds a summary to an answer. Without a summary, where none was asked for or the client
    /// cannot make one, the answer stays as it is.
    pub fn enrich(result: ToolCallResult, summary: Option<String>) -> (r: ToolCallResult)
        ensures
            match summary {
                Some(s) => {
                    &&& r.content@.len() == 1
                    &&& r.content@[0] matches ToolContent::Text { text } && text@ == summarized(
                        result.content@,
                        s@,
                    )
                    &&& r.structured_content == result.structured_content
                    &&& r.is_error == result.is_error
                    &&& r.app is None
                },
                None => r == result,
            },
    {
        let summary: String = match summary {
            Some(s) => s,
            None => {
                return result;
            },
        };
        let mut text: String = join_texts(&result.content);
        if !ends(text.as_str(), '\n') {
            text.push('\n');
        }
        text.append(SUMMARY_HEADING);
        text.append(summary.as_str());
        let mut enriched = ToolCallResult::text(text);
        enriched.structured_content = result.structured_content;
        enriched.is_error = result.is_error;
        enriched
    }
}

/// Handler for the `ssh_env_diff` tool.
pub type SshEnvDiffHandler = StandardToolHandler<EnvDiffTool>;

/// What clients are told of the tool.
pub proof fn presents_itself()
    ensures
        <SshEnvDiffHandler as ToolHandler>::TOOL_NAME@ == "ssh_env_diff"@,
        <SshEnvDiffHandler as ToolHandler>::TOOL_DESCRIPTION@ == DESCRIPTION@,
        <SshEnvDiffHandler as ToolHandler>::INPUT_SCHEMA@ == SCHEMA@,
        <SshEnvDiffHandler as ToolHandler>::TOOL_GROUP@ == "drift"@,
        <SshEnvDiffHandler as ToolHandler>::EFFECT == Annotation::ReadOnly,
        <SshEnvDiffHandler as ToolHandler>::KIND == OutputKind::RawText,
{
    handler_presents_its_tool::<EnvDiffTool>();
}

} // verus!
