//! What holds of every request, whichever tool it is for.
use crate::awx::{awx_planned, id_refusal, not_configured, request_command, ApiRequest};
use crate::config::BridgeConfig;
use crate::error::{message, Refusal};
use crate::tool::{planned, ArgCheck, Call, CommonArgs, StandardTool};
use vstd::prelude::*;

verus! {

/// A request without arguments is refused for that reason, whatever is configured.
pub proof fn request_without_arguments_is_refused<T: StandardTool>(config: BridgeConfig)
    ensures
        planned::<T>(None, config) == Err::<Call, Refusal>(Refusal::MissingParam("arguments"@)),
{
}

/// Arguments that could not be read are refused with the reader's message, whatever is
/// configured.
pub proof fn unreadable_arguments_are_refused<T: StandardTool>(
    message: String,
    config: BridgeConfig,
)
    ensures
        planned::<T>(Some(Err(message)), config) == Err::<Call, Refusal>(
            Refusal::InvalidRequest(message@),
        ),
{
}

/// A request for a host that is not configured is refused with the name of the host, whatever
/// else is wrong with it.
pub proof fn unknown_host_is_refused<T: StandardTool>(args: T::Args, config: BridgeConfig)
    requires
        !config.knows(args.host_name()),
    ensures
        planned::<T>(Some(Ok(args)), config) == Err::<Call, Refusal>(
            Refusal::UnknownHost(args.host_name()),
        ),
{
}

/// A command is run only where the request asks for it, on a host that is configured, for
/// arguments that passed the tool's check, and it is the command that the tool has for them.
pub proof fn planned_command_is_the_tools<T: StandardTool>(args: T::Args, config: BridgeConfig)
    requires
        planned::<T>(Some(Ok(args)), config) is Ok,
    ensures
        config.knows(args.host_name()),
        <T::Check as ArgCheck<T::Args>>::refusal(args) is None,
        (planned::<T>(Some(Ok(args)), config)->Ok_0).host == args.host_name(),
        T::command(args) == Ok::<Seq<char>, Refusal>(
            (planned::<T>(Some(Ok(args)), config)->Ok_0).command,
        ),
{
}

/// What a tool makes of arguments for a configured host is handed on as it is: the refusal of the
/// tool's check first, then that of the command, and else the command, to be run on that host.
pub proof fn tools_decision_is_handed_on<T: StandardTool>(args: T::Args, config: BridgeConfig)
    requires
        config.knows(args.host_name()),
    ensures
        <T::Check as ArgCheck<T::Args>>::refusal(args) matches Some(refusal) ==> planned::<T>(
            Some(Ok(args)),
            config,
        ) == Err::<Call, Refusal>(refusal),
        <T::Check as ArgCheck<T::Args>>::refusal(args) is None ==> planned::<T>(
            Some(Ok(args)),
            config,
        ) == match T::command(args) {
            Ok(command) => Ok::<Call, Refusal>(Call { host: args.host_name(), command }),
            Err(refusal) => Err(refusal),
        },
{
}

/// Without an AWX server in the configuration no AWX tool makes a call: what the tool accepts is
/// refused for want of the server.
pub proof fn awx_needs_a_server(
    refusal: Option<Refusal>,
    request: Result<ApiRequest, Refusal>,
    with_status: bool,
    config: BridgeConfig,
)
    requires
        config.awx is None,
    ensures
        awx_planned(refusal, request, with_status, config) is Err,
        refusal is None ==> awx_planned(refusal, request, with_status, config) == Err::<
            Call,
            Refusal,
        >(not_configured()),
{
}

/// Arguments that an AWX tool refuses are refused for the same reason whatever is configured.
pub proof fn awx_refusal_comes_first(
    refusal: Refusal,
    request: Result<ApiRequest, Refusal>,
    with_status: bool,
    config: BridgeConfig,
)
    ensures
        awx_planned(Some(refusal), request, with_status, config) == Err::<Call, Refusal>(refusal),
{
}

/// An AWX call is made only by the configured host that is set for it, and it is the call that
/// the arguments stand for.
pub proof fn awx_call_runs_on_its_host(
    refusal: Option<Refusal>,
    request: Result<ApiRequest, Refusal>,
    with_status: bool,
    config: BridgeConfig,
)
    requires
        awx_planned(refusal, request, with_status, config) is Ok,
    ensures
        refusal is None,
        request is Ok,
        config.awx matches Some(awx) && {
            let call = awx_planned(refusal, request, with_status, config)->Ok_0;
            &&& config.knows(awx.ssh_host@)
            &&& call.host == awx.ssh_host@
            &&& call.command == request_command(awx, request->Ok_0, with_status)
        },
{
}

/// With an AWX server in the configuration, what an AWX tool accepts is handed on as it is: the
/// refusal of the call, that of a host which is not configured, and else the call.
pub proof fn awx_decision_is_handed_on(
    request: Result<ApiRequest, Refusal>,
    with_status: bool,
    config: BridgeConfig,
)
    requires
        config.awx is Some,
    ensures
        request matches Err(refusal) ==> awx_planned(None, request, with_status, config) == Err::<
            Call,
            Refusal,
        >(refusal),
        request matches Ok(q) ==> awx_planned(None, request, with_status, config) == (
        if config.knows((config.awx->0).ssh_host@) {
            Ok::<Call, Refusal>(
                Call {
                    host: (config.awx->0).ssh_host@,
                    command: request_command(config.awx->0, q, with_status),
                },
            )
        } else {
            Err(Refusal::UnknownHost((config.awx->0).ssh_host@))
        }),
{
}

/// The message of a refusal says what kind it is and ends in what it is about.
pub proof fn message_ends_in_its_subject(subject: Seq<char>)
    ensures
        message(Refusal::MissingParam(subject)) == "Missing required parameter: "@ + subject,
        message(Refusal::InvalidRequest(subject)) == "Invalid request: "@ + subject,
        message(Refusal::Denied(subject)) == "Command denied: "@ + subject,
        message(Refusal::UnknownHost(subject)) == "Unknown host: "@ + subject,
{
}

/// The ID 0 is refused, every other ID passes.
pub proof fn only_the_zero_id_is_refused(id: u64)
    ensures
        id_refusal(id) is Some <==> id == 0,
{
}

} // verus!
