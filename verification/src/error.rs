//! The errors of the library and how contracts speak of results.
use vstd::prelude::*;

verus! {

/// Why a request was not turned into a command.
#[derive(Debug)]
pub enum BridgeError {
    /// A required parameter is absent.
    McpMissingParam { param: String },
    /// The request cannot be understood or served.
    McpInvalidRequest(String),
    /// The request asks for something that is not allowed.
    CommandDenied { reason: String },
    /// The request names a host that is not configured.
    UnknownHost { host: String },
}

/// The view of a [`BridgeError`].
pub enum Refusal {
    MissingParam(Seq<char>),
    InvalidRequest(Seq<char>),
    Denied(Seq<char>),
    UnknownHost(Seq<char>),
}

impl View for BridgeError {
    type V = Refusal;

    open spec fn view(&self) -> Refusal {
        match *self {
            BridgeError::McpMissingParam { param } => Refusal::MissingParam(param@),
            BridgeError::McpInvalidRequest(message) => Refusal::InvalidRequest(message@),
            BridgeError::CommandDenied { reason } => Refusal::Denied(reason@),
            BridgeError::UnknownHost { host } => Refusal::UnknownHost(host@),
        }
    }
}

/// The message that a refusal is shown with.
pub open spec fn message(refusal: Refusal) -> Seq<char> {
    match refusal {
        Refusal::MissingParam(param) => "Missing required parameter: "@ + param,
        Refusal::InvalidRequest(message) => "Invalid request: "@ + message,
        Refusal::Denied(reason) => "Command denied: "@ + reason,
        Refusal::UnknownHost(host) => "Unknown host: "@ + host,
    }
}

impl BridgeError {
    /// The error's message.
    pub fn to_text(&self) -> (r: String)
        ensures
            r@ == message(self@),
    {
        match self {
            BridgeError::McpMissingParam { param } => joined("Missing required parameter: ", param),
            BridgeError::McpInvalidRequest(message) => joined("Invalid request: ", message),
            BridgeError::CommandDenied { reason } => joined("Command denied: ", reason),
            BridgeError::UnknownHost { host } => joined("Unknown host: ", host),
        }
    }
}

/// `a` followed by `b`.
pub fn joined(a: &str, b: &str) -> (r: String)
    ensures
        r@ == a@ + b@,
{
    let mut s: String = a.to_owned();
    s.append(b);
    s
}

/// `before`, the offending `value` between single quotes, and `after`.
pub open spec fn complaint(before: &str, value: Seq<char>, after: &str) -> Seq<char> {
    before@ + "'"@ + value + "'"@ + after@
}

/// The refusal of a value, with the value in the reason.
pub fn denied(before: &str, value: &str, after: &str) -> (r: BridgeError)
    ensures
        r@ == Refusal::Denied(complaint(before, value@, after)),
{
    let mut s: String = before.to_owned();
    s.append("'");
    s.append(value);
    s.append("'");
    s.append(after);
    BridgeError::CommandDenied { reason: s }
}

/// The refusal of a request, for a fixed reason.
pub fn denied_because(reason: &str) -> (r: BridgeError)
    ensures
        r@ == Refusal::Denied(reason@),
{
    BridgeError::CommandDenied { reason: reason.to_owned() }
}

/// The refusal of a request that cannot be served.
pub fn invalid_request(message: &str) -> (r: BridgeError)
    ensures
        r@ == Refusal::InvalidRequest(message@),
{
    BridgeError::McpInvalidRequest(message.to_owned())
}

/// The refusal of a request that lacks a parameter.
pub fn missing_param(param: &str) -> (r: BridgeError)
    ensures
        r@ == Refusal::MissingParam(param@),
{
    BridgeError::McpMissingParam { param: param.to_owned() }
}

/// A check has the outcome `want`: it passes when that is `None` and is refused as `want` says
/// otherwise.
pub open spec fn checked(r: Result<(), BridgeError>, want: Option<Refusal>) -> bool {
    match r {
        Ok(()) => want is None,
        Err(e) => want == Some(e@),
    }
}

/// A result has the text or the refusal that is wanted.
pub open spec fn agrees(
    r: Result<String, BridgeError>,
    want: Result<Seq<char>, Refusal>,
) -> bool {
    match r {
        Ok(s) => want == Ok::<Seq<char>, Refusal>(s@),
        Err(e) => want == Err::<Seq<char>, Refusal>(e@),
    }
}

/// No refusal where `ok` holds, else a refusal for `reason`.
pub open spec fn unless(ok: bool, reason: Seq<char>) -> Option<Refusal> {
    if ok {
        None
    } else {
        Some(Refusal::Denied(reason))
    }
}

/// The outcome of a check of a value that may be absent; an absent value passes.
pub open spec fn if_some(
    value: Option<String>,
    check: spec_fn(Seq<char>) -> Option<Refusal>,
) -> Option<Refusal> {
    match value {
        Some(v) => check(v@),
        None => None,
    }
}

/// The outcome of two checks, the second of which is made only where the first passes.
pub open spec fn first_of(a: Option<Refusal>, b: Option<Refusal>) -> Option<Refusal> {
    match a {
        Some(_) => a,
        None => b,
    }
}

} // verus!
