//! What a tool is: how it presents itself, and the command it stands for.
use crate::config::{BridgeConfig, HostConfig};
use crate::error::{agrees, checked, missing_param, BridgeError, Refusal};
use core::marker::PhantomData;
use vstd::prelude::*;

verus! {

/// The form in which a tool's output comes.
#[derive(Debug, Clone, Copy, PartialEq, Eq, Structural)]
pub enum OutputKind {
    RawText,
    Json,
    Auto,
    Tabular,
    Yaml,
}

/// What a call of a tool does to the host or the service behind it.
#[derive(Debug, Clone, Copy, PartialEq, Eq, Structural)]
pub enum Annotation {
    /// It changes nothing.
    ReadOnly,
    /// It changes something.
    Mutating,
    /// It changes something, and a second call changes nothing more.
    MutatingIdempotent,
    /// What it changes cannot be got back.
    Destructive,
}

/// How a tool presents itself to a client.
pub struct ToolSchema {
    pub name: &'static str,
    pub description: &'static str,
    /// The JSON schema of the arguments.
    pub input_schema: &'static str,
}

/// A tool as its clients see it.
pub trait ToolHandler {
    const TOOL_NAME: &'static str;

    const TOOL_DESCRIPTION: &'static str;

    const INPUT_SCHEMA: &'static str;

    /// The group of tools that it belongs to.
    const TOOL_GROUP: &'static str;

    const EFFECT: Annotation;

    const KIND: OutputKind;

    fn name(&self) -> (r: &'static str)
        ensures
            r@ == Self::TOOL_NAME@,
    {
        Self::TOOL_NAME
    }

    fn description(&self) -> (r: &'static str)
        ensures
            r@ == Self::TOOL_DESCRIPTION@,
    {
        Self::TOOL_DESCRIPTION
    }

    fn schema(&self) -> (r: ToolSchema)
        ensures
            r.name@ == Self::TOOL_NAME@,
            r.description@ == Self::TOOL_DESCRIPTION@,
            r.input_schema@ == Self::INPUT_SCHEMA@,
    {
        ToolSchema {
            name: Self::TOOL_NAME,
            description: Self::TOOL_DESCRIPTION,
            input_schema: Self::INPUT_SCHEMA,
        }
    }

    fn group(&self) -> (r: &'static str)
        ensures
            r@ == Self::TOOL_GROUP@,
    {
        Self::TOOL_GROUP
    }

    fn annotation(&self) -> (r: Annotation)
        ensures
            r == Self::EFFECT,
    {
        Self::EFFECT
    }

    fn output_kind(&self) -> (r: OutputKind)
        ensures
            r == Self::KIND,
    {
        Self::KIND
    }
}

/// A command and the configured host that is to run it.
#[derive(Debug)]
pub struct RemoteCall {
    pub host: String,
    pub command: String,
}

/// The view of a [`RemoteCall`].
pub struct Call {
    pub host: Seq<char>,
    pub command: Seq<char>,
}

impl View for RemoteCall {
    type V = Call;

    open spec fn view(&self) -> Call {
        Call { host: self.host@, command: self.command@ }
    }
}

/// A result has the call or the refusal that is wanted.
pub open spec fn call_agrees(
    r: Result<RemoteCall, BridgeError>,
    want: Result<Call, Refusal>,
) -> bool {
    match r {
        Ok(call) => want == Ok::<Call, Refusal>(call@),
        Err(e) => want == Err::<Call, Refusal>(e@),
    }
}

/// Why a request is refused before its arguments are looked at: it has none, or they could not
/// be read, in which case `Err` holds the reader's message.
pub open spec fn unreadable<A>(args: Option<Result<A, String>>) -> Option<Refusal> {
    match args {
        None => Some(Refusal::MissingParam("arguments"@)),
        Some(Err(message)) => Some(Refusal::InvalidRequest(message@)),
        Some(Ok(_)) => None,
    }
}

/// The arguments of a request, or why there are none.
pub fn required_args<A>(args: Option<Result<A, String>>) -> (r: Result<A, BridgeError>)
    ensures
        match r {
            Ok(a) => args == Some(Ok::<A, String>(a)),
            Err(e) => unreadable(args) == Some(e@),
        },
{
    match args {
        None => Err(missing_param("arguments")),
        Some(Err(message)) => Err(BridgeError::McpInvalidRequest(message)),
        Some(Ok(a)) => Ok(a),
    }
}

/// What the arguments of all standard tools have in common.
pub trait CommonArgs {
    /// The name of the host to run on.
    spec fn host_name(&self) -> Seq<char>;

    fn host(&self) -> (r: &str)
        ensures
            r@ == self.host_name(),
    ;
}

/// A check of a tool's arguments that is made before its command is built.
pub trait ArgCheck<A> {
    /// Why the arguments are refused, if they are.
    spec fn refusal(args: A) -> Option<Refusal>;

    fn validate(args: &A, host_config: &HostConfig) -> (r: Result<(), BridgeError>)
        ensures
            checked(r, Self::refusal(*args)),
    ;
}

/// The check of a tool that has none: every argument passes.
pub struct NoCheck;

impl<A> ArgCheck<A> for NoCheck {
    open spec fn refusal(args: A) -> Option<Refusal> {
        None
    }

    fn validate(_args: &A, _host_config: &HostConfig) -> (r: Result<(), BridgeError>) {
        Ok(())
    }
}

/// A tool that stands for one shell command.
pub trait StandardTool {
    type Args: CommonArgs;

    type Check: ArgCheck<Self::Args>;

    const NAME: &'static str;

    const DESCRIPTION: &'static str;

    const SCHEMA: &'static str;

    const GROUP: &'static str;

    const ANNOTATION: Annotation;

    const OUTPUT_KIND: OutputKind;

    /// The command for the given arguments, or why there is none.
    spec fn command(args: Self::Args) -> Result<Seq<char>, Refusal>;

    fn build_command(args: &Self::Args, host_config: &HostConfig) -> (r: Result<
        String,
        BridgeError,
    >)
        ensures
            agrees(r, Self::command(*args)),
    ;
}

/// What a standard tool makes of a request: the arguments have to be there and readable, the
/// host has to be configured, the arguments have to pass the tool's check, and the tool has to
/// have a command for them. The first of these that fails decides.
pub open spec fn planned<T: StandardTool>(
    args: Option<Result<T::Args, String>>,
    config: BridgeConfig,
) -> Result<Call, Refusal> {
    match args {
        Some(Ok(a)) => if !config.knows(a.host_name()) {
            Err(Refusal::UnknownHost(a.host_name()))
        } else {
            match (<T::Check as ArgCheck<T::Args>>::refusal(a), T::command(a)) {
                (Some(refusal), _) => Err(refusal),
                (None, Err(refusal)) => Err(refusal),
                (None, Ok(command)) => Ok(Call { host: a.host_name(), command }),
            }
        },
        _ => Err(unreadable(args)->0),
    }
}

/// The handler of a standard tool.
pub struct StandardToolHandler<T: StandardTool> {
    tool: PhantomData<T>,
}

impl<T: StandardTool> StandardToolHandler<T> {
    pub fn new() -> Self {
        StandardToolHandler { tool: PhantomData }
    }

    /// Turns a request into a command and the host to run it on. `args` is what reading the
    /// arguments gave: `None` where the request has none, `Err` where they could not be read.
    pub fn prepare(&self, args: Option<Result<T::Args, String>>, config: &BridgeConfig) -> (r:
        Result<RemoteCall, BridgeError>)
        ensures
            call_agrees(r, planned::<T>(args, *config)),
    {
        let a: T::Args = match required_args(args) {
            Ok(a) => a,
            Err(e) => {
                return Err(e);
            },
        };
        let host: String = a.host().to_owned();
        let host_config: &HostConfig = match config.host(host.as_str()) {
            Some(h) => h,
            None => {
                return Err(BridgeError::UnknownHost { host });
            },
        };
        match <T::Check as ArgCheck<T::Args>>::validate(&a, host_config) {
            Ok(()) => {},
            Err(e) => {
                return Err(e);
            },
        }
        match T::build_command(&a, host_config) {
            Ok(command) => Ok(RemoteCall { host, command }),
            Err(e) => Err(e),
        }
    }
}

/// The handler of a standard tool presents itself as the tool does.
pub proof fn handler_presents_its_tool<T: StandardTool>()
    ensures
        StandardToolHandler::<T>::TOOL_NAME@ == T::NAME@,
        StandardToolHandler::<T>::TOOL_DESCRIPTION@ == T::DESCRIPTION@,
        StandardToolHandler::<T>::INPUT_SCHEMA@ == T::SCHEMA@,
        StandardToolHandler::<T>::TOOL_GROUP@ == T::GROUP@,
        StandardToolHandler::<T>::EFFECT == T::ANNOTATION,
        StandardToolHandler::<T>::KIND == T::OUTPUT_KIND,
{
}

impl<T: StandardTool> ToolHandler for StandardToolHandler<T> {
    const TOOL_NAME: &'static str = T::NAME;

    const TOOL_DESCRIPTION: &'static str = T::DESCRIPTION;

    const INPUT_SCHEMA: &'static str = T::SCHEMA;

    const TOOL_GROUP: &'static str = T::GROUP;

    const EFFECT: Annotation = T::ANNOTATION;

    const KIND: OutputKind = T::OUTPUT_KIND;
}

} // verus!
