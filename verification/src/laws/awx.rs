//! How a shell reads the calls of the AWX API.
use crate::awx::{request_command, timeout_or, ApiRequest, AwxTool};
use crate::builders::awx::{api_call, HttpMethod};
use crate::config::AwxConfig;
use crate::shell::{
    active_text, arguments_stay_out_of_shell_text, command_reads_as_meant, group_plain,
    literal_text_joins, literal_text_of_named, marks, plain, reads_as_meant, render, Mode,
};
use crate::text::is_lower;
use crate::tools::ssh_awx_adhoc_launch::{SshAwxAdhocLaunchArgs, SshAwxAdhocLaunchHandler};
use crate::tools::ssh_awx_resolve::{allowed_kind, SshAwxResolveArgs, SshAwxResolveHandler};
use vstd::prelude::*;

verus! {

proof fn awx_literals()
    ensures
        plain("curl -sS --max-time "@),
        plain(" -k"@),
        plain(" -X "@),
        plain(" -H "@),
        plain(" -d "@),
        plain(" -w "@),
        plain(" "@),
        plain("GET"@),
        plain("POST"@),
        plain("PATCH"@),
{
    reveal_strlit("curl -sS --max-time ");
    reveal_strlit(" -k");
    reveal_strlit(" -X ");
    reveal_strlit(" -H ");
    reveal_strlit(" -d ");
    reveal_strlit(" -w ");
    reveal_strlit(" ");
    reveal_strlit("GET");
    reveal_strlit("POST");
    reveal_strlit("PATCH");
}

/// A shell reads every API call as it is meant, whatever the URL, the token, the endpoint, the
/// parameters and the body hold: none of them adds shell text.
pub proof fn api_call_reads_as_meant(
    url: Seq<char>,
    token: Seq<char>,
    endpoint: Seq<char>,
    method: HttpMethod,
    body: Option<Seq<char>>,
    verify_ssl: bool,
    params: Seq<(Seq<char>, Seq<char>)>,
    timeout: u64,
    with_status: bool,
)
    ensures
        reads_as_meant(
            api_call(
                url,
                token,
                endpoint,
                method,
                body,
                verify_ssl,
                params,
                timeout,
                with_status,
            ),
        ),
{
    broadcast use group_plain;

    awx_literals();
    command_reads_as_meant(
        api_call(
            url,
            token,
            endpoint,
            method,
            body,
            verify_ssl,
            params,
            timeout,
            with_status,
        ),
    );
}

/// The shell text of an API call is the same whatever the URL, the token, the endpoint and the
/// parameters are and whatever the body holds: none of them is ever interpolated into it.
pub proof fn calls_share_their_shell_text(
    url: Seq<char>,
    other_url: Seq<char>,
    token: Seq<char>,
    other_token: Seq<char>,
    endpoint: Seq<char>,
    other_endpoint: Seq<char>,
    body: Option<Seq<char>>,
    other_body: Option<Seq<char>>,
    params: Seq<(Seq<char>, Seq<char>)>,
    other_params: Seq<(Seq<char>, Seq<char>)>,
    method: HttpMethod,
    verify_ssl: bool,
    timeout: u64,
    with_status: bool,
)
    requires
        body is Some == other_body is Some,
    ensures
        active_text(
            marks(
                Mode::Bare,
                render(
                    api_call(
                        url,
                        token,
                        endpoint,
                        method,
                        body,
                        verify_ssl,
                        params,
                        timeout,
                        with_status,
                    ),
                ),
            ),
        ) == active_text(
            marks(
                Mode::Bare,
                render(
                    api_call(
                        other_url,
                        other_token,
                        other_endpoint,
                        method,
                        other_body,
                        verify_ssl,
                        other_params,
                        timeout,
                        with_status,
                    ),
                ),
            ),
        ),
{
    broadcast use {group_plain, literal_text_joins, literal_text_of_named};

    awx_literals();
    arguments_stay_out_of_shell_text(
        api_call(
            url,
            token,
            endpoint,
            method,
            body,
            verify_ssl,
            params,
            timeout,
            with_status,
        ),
    );
    arguments_stay_out_of_shell_text(
        api_call(
            other_url,
            other_token,
            other_endpoint,
            method,
            other_body,
            verify_ssl,
            other_params,
            timeout,
            with_status,
        ),
    );
}

/// The text that a shell acts on when an AWX tool makes its call.
pub open spec fn shell_text_of(awx: AwxConfig, request: ApiRequest, with_status: bool) -> Seq<
    char,
> {
    active_text(marks(Mode::Bare, request_command(awx, request, with_status)))
}

/// The arguments of an ad-hoc launch, the module's arguments among them, never reach the shell's
/// text: it is the same for any two launches.
pub proof fn adhoc_arguments_stay_out_of_shell_text(
    awx: AwxConfig,
    a: SshAwxAdhocLaunchArgs,
    b: SshAwxAdhocLaunchArgs,
)
    ensures
        shell_text_of(awx, SshAwxAdhocLaunchHandler::request(a)->Ok_0, true) == shell_text_of(
            awx,
            SshAwxAdhocLaunchHandler::request(b)->Ok_0,
            true,
        ),
{
    let p = SshAwxAdhocLaunchHandler::request(a)->Ok_0;
    let q = SshAwxAdhocLaunchHandler::request(b)->Ok_0;
    calls_share_their_shell_text(
        awx.url@,
        awx.url@,
        awx.token@,
        awx.token@,
        p.endpoint,
        q.endpoint,
        p.body,
        q.body,
        p.params,
        q.params,
        HttpMethod::Post,
        awx.verify_ssl,
        awx.api_timeout,
        true,
    );
}

/// A name that is looked up never reaches the shell's text, nor does the kind of object: it is
/// the same for any two lookups under the same limit.
pub proof fn resolve_arguments_stay_out_of_shell_text(
    awx: AwxConfig,
    a: SshAwxResolveArgs,
    b: SshAwxResolveArgs,
)
    requires
        a.timeout_seconds == b.timeout_seconds,
    ensures
        shell_text_of(awx, SshAwxResolveHandler::request(a)->Ok_0, true) == shell_text_of(
            awx,
            SshAwxResolveHandler::request(b)->Ok_0,
            true,
        ),
{
    let p = SshAwxResolveHandler::request(a)->Ok_0;
    let q = SshAwxResolveHandler::request(b)->Ok_0;
    calls_share_their_shell_text(
        awx.url@,
        awx.url@,
        awx.token@,
        awx.token@,
        p.endpoint,
        q.endpoint,
        p.body,
        q.body,
        p.params,
        q.params,
        HttpMethod::Get,
        awx.verify_ssl,
        timeout_or(a.timeout_seconds, awx),
        true,
    );
}

/// A kind that is accepted adds one component to the endpoint and nothing else: it holds neither
/// slashes nor dots.
pub proof fn resolved_kind_is_one_component(kind: Seq<char>)
    requires
        allowed_kind(kind),
    ensures
        kind.len() > 0,
        forall|i: int| 0 <= i < kind.len() ==> is_lower(#[trigger] kind[i]) || kind[i] == '_',
{
    reveal_strlit("job_templates");
    reveal_strlit("workflow_job_templates");
    reveal_strlit("inventories");
    reveal_strlit("projects");
    reveal_strlit("credentials");
    reveal_strlit("hosts");
}

} // verus!
