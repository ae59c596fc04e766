//! What may stand in a Kubernetes command: the forms of names, modes and lifetimes.
use crate::error::{checked, complaint, denied, unless, BridgeError, Refusal};
use crate::shell::{inert, is_plain, is_special, plain};
use crate::text::{
    begins, begins_with, ends, is_digit, is_lower_char, is_word_char, lower_chars, lower_chars_only,
    same_text, word_chars, word_chars_only,
};
use vstd::prelude::*;

verus! {

/// The characters besides letters and digits that a context name may hold.
pub const CONTEXT_EXTRA: &'static str = "-_.:/@";

/// `s` neither begins nor ends with `c`.
pub open spec fn not_at_ends(s: Seq<char>, c: char) -> bool {
    !begins_with(s, c) && !(s.len() > 0 && s.last() == c)
}

/// A DNS label: one to 63 lower-case letters, digits and dashes, no dash at either end.
pub open spec fn valid_namespace(ns: Seq<char>) -> bool {
    0 < ns.len() <= 63 && lower_chars(ns, "-"@) && not_at_ends(ns, '-')
}

pub open spec fn namespace_refusal(ns: Seq<char>) -> Option<Refusal> {
    unless(
        valid_namespace(ns),
        complaint("Invalid namespace ", ns, ": must be a DNS-1123 label"),
    )
}

/// A DNS name: one to 253 lower-case letters, digits, dashes and dots, neither dash nor dot at
/// either end.
pub open spec fn valid_dns_name(name: Seq<char>) -> bool {
    0 < name.len() <= 253 && lower_chars(name, "-."@) && not_at_ends(name, '-') && not_at_ends(
        name,
        '.',
    )
}

pub open spec fn dns_name_refusal(name: Seq<char>) -> Option<Refusal> {
    unless(valid_dns_name(name), complaint("Invalid DNS name ", name, ""))
}

pub open spec fn object_name_refusal(name: Seq<char>) -> Option<Refusal> {
    unless(
        valid_dns_name(name),
        complaint("Invalid object name ", name, ": must be a DNS-1123 subdomain"),
    )
}

pub open spec fn sa_name_refusal(name: Seq<char>) -> Option<Refusal> {
    unless(
        valid_dns_name(name),
        complaint("Invalid service account name ", name, ": must be a DNS-1123 subdomain"),
    )
}

/// A host to connect to: a DNS name or an IP address.
pub open spec fn valid_target_host(host: Seq<char>) -> bool {
    0 < host.len() <= 253 && lower_chars(host, "-.:"@) && not_at_ends(host, '-')
}

pub open spec fn target_host_refusal(host: Seq<char>) -> Option<Refusal> {
    unless(valid_target_host(host), complaint("Invalid target host ", host, ""))
}

/// The name of a context, which stands in commands without quotes.
pub open spec fn valid_context(context: Seq<char>) -> bool {
    context.len() > 0 && word_chars(context, CONTEXT_EXTRA@) && !begins_with(context, '-')
}

pub open spec fn context_refusal(context: Seq<char>) -> Option<Refusal> {
    unless(
        valid_context(context),
        complaint("Invalid context ", context, ". Allowed: letters, digits and -_.:/@"),
    )
}

/// A token lifetime: a number and one of the units `s`, `m` and `h`.
pub open spec fn valid_duration(duration: Seq<char>) -> bool {
    &&& duration.len() >= 2
    &&& duration.last() == 's' || duration.last() == 'm' || duration.last() == 'h'
    &&& forall|i: int| 0 <= i < duration.len() - 1 ==> is_digit(#[trigger] duration[i])
}

pub open spec fn duration_refusal(duration: Seq<char>) -> Option<Refusal> {
    unless(
        valid_duration(duration),
        complaint("Invalid duration ", duration, ": use a number and s, m or h"),
    )
}

/// The kinds of object that a token can be bound to.
pub open spec fn valid_bound_kind(kind: Seq<char>) -> bool {
    kind == "Pod"@ || kind == "Secret"@
}

pub open spec fn bound_kind_refusal(kind: Seq<char>) -> Option<Refusal> {
    unless(valid_bound_kind(kind), complaint("Invalid kind ", kind, ". Allowed: Pod, Secret"))
}

pub open spec fn valid_dry_run(mode: Seq<char>) -> bool {
    mode == "client"@ || mode == "server"@ || mode == "none"@
}

pub open spec fn dry_run_refusal(mode: Seq<char>) -> Option<Refusal> {
    unless(
        valid_dry_run(mode),
        complaint("Invalid dry_run ", mode, ". Allowed: client, server, none"),
    )
}

/// What can be fetched of a Helm release.
pub open spec fn valid_helm_get(subcommand: Seq<char>) -> bool {
    subcommand == "all"@ || subcommand == "values"@ || subcommand == "manifest"@ || subcommand
        == "hooks"@ || subcommand == "notes"@ || subcommand == "metadata"@
}

pub open spec fn helm_get_refusal(subcommand: Seq<char>) -> Option<Refusal> {
    unless(
        valid_helm_get(subcommand),
        complaint(
            "Invalid helm get subcommand ",
            subcommand,
            ". Allowed: all, values, manifest, hooks, notes, metadata",
        ),
    )
}

/// Tells whether `s` has one to `longest` lower-case letters, digits and characters of `extra`,
/// and no dash at either end.
pub fn in_dns_form(s: &str, extra: &str, longest: usize) -> (r: bool)
    ensures
        r == (0 < s@.len() <= longest && lower_chars(s@, extra@) && not_at_ends(s@, '-')),
{
    let n: usize = s.unicode_len();
    0 < n && n <= longest && lower_chars_only(s, extra) && !begins(s, '-') && !ends(s, '-')
}

fn is_dns_name(name: &str) -> (r: bool)
    ensures
        r == valid_dns_name(name@),
{
    in_dns_form(name, "-.", 253) && !begins(name, '.') && !ends(name, '.')
}

pub fn validate_context(context: &str) -> (r: Result<(), BridgeError>)
    ensures
        checked(r, context_refusal(context@)),
{
    if !context.is_empty() && word_chars_only(context, CONTEXT_EXTRA) && !begins(context, '-') {
        Ok(())
    } else {
        Err(denied("Invalid context ", context, ". Allowed: letters, digits and -_.:/@"))
    }
}

pub fn validate_dns_name(name: &str) -> (r: Result<(), BridgeError>)
    ensures
        checked(r, dns_name_refusal(name@)),
{
    if is_dns_name(name) {
        Ok(())
    } else {
        Err(denied("Invalid DNS name ", name, ""))
    }
}

pub fn validate_object_name(name: &str) -> (r: Result<(), BridgeError>)
    ensures
        checked(r, object_name_refusal(name@)),
{
    if is_dns_name(name) {
        Ok(())
    } else {
        Err(denied("Invalid object name ", name, ": must be a DNS-1123 subdomain"))
    }
}

pub fn validate_sa_name(name: &str) -> (r: Result<(), BridgeError>)
    ensures
        checked(r, sa_name_refusal(name@)),
{
    if is_dns_name(name) {
        Ok(())
    } else {
        Err(denied("Invalid service account name ", name, ": must be a DNS-1123 subdomain"))
    }
}

pub fn validate_target_host(host: &str) -> (r: Result<(), BridgeError>)
    ensures
        checked(r, target_host_refusal(host@)),
{
    if in_dns_form(host, "-.:", 253) {
        Ok(())
    } else {
        Err(denied("Invalid target host ", host, ""))
    }
}

fn digits_then_unit(duration: &str) -> (r: bool)
    ensures
        r == valid_duration(duration@),
{
    let n: usize = duration.unicode_len();
    if n < 2 {
        return false;
    }
    let unit: char = duration.get_char(n - 1);
    if unit != 's' && unit != 'm' && unit != 'h' {
        return false;
    }
    let mut i: usize = 0;
    while i < n - 1
        invariant
            n == duration@.len(),
            2 <= n,
            i <= n - 1,
            forall|j: int| 0 <= j < i ==> is_digit(#[trigger] duration@[j]),
        decreases n - i,
    {
        let c: char = duration.get_char(i);
        if !('0' <= c && c <= '9') {
            assert(!is_digit(duration@[i as int]));
            return false;
        }
        i += 1;
    }
    true
}

pub fn validate_duration(duration: &str) -> (r: Result<(), BridgeError>)
    ensures
        checked(r, duration_refusal(duration@)),
{
    if digits_then_unit(duration) {
        Ok(())
    } else {
        Err(denied("Invalid duration ", duration, ": use a number and s, m or h"))
    }
}

pub fn validate_bound_kind(kind: &str) -> (r: Result<(), BridgeError>)
    ensures
        checked(r, bound_kind_refusal(kind@)),
{
    if same_text(kind, "Pod") || same_text(kind, "Secret") {
        Ok(())
    } else {
        Err(denied("Invalid kind ", kind, ". Allowed: Pod, Secret"))
    }
}

pub fn validate_dry_run(mode: &str) -> (r: Result<(), BridgeError>)
    ensures
        checked(r, dry_run_refusal(mode@)),
{
    if same_text(mode, "client") || same_text(mode, "server") || same_text(mode, "none") {
        Ok(())
    } else {
        Err(denied("Invalid dry_run ", mode, ". Allowed: client, server, none"))
    }
}

/// A context that is accepted stands for itself without quotes: none of its characters has a
/// meaning to the shell, and it is not taken for an option.
pub proof fn context_is_inert(context: Seq<char>)
    requires
        valid_context(context),
    ensures
        inert(context),
        plain(context),
        !begins_with(context, '-'),
{
    reveal_strlit("-_.:/@");
    assert forall|i: int| 0 <= i < context.len() implies !is_special(#[trigger] context[i])
        && is_plain(context[i]) by {
        assert(is_word_char(context[i], CONTEXT_EXTRA@));
    }
}

/// A namespace that is accepted has none but lower-case letters, digits and dashes, so it is
/// never taken for an option and has no meaning to the shell.
pub proof fn namespace_is_inert(ns: Seq<char>)
    requires
        valid_namespace(ns),
    ensures
        inert(ns),
        !begins_with(ns, '-'),
{
    reveal_strlit("-");
    assert forall|i: int| 0 <= i < ns.len() implies !is_special(#[trigger] ns[i]) by {
        assert(is_lower_char(ns[i], "-"@));
    }
}

/// A DNS name that is accepted has no meaning to the shell and is never taken for an option.
pub proof fn dns_name_is_inert(name: Seq<char>)
    requires
        valid_dns_name(name),
    ensures
        inert(name),
        !begins_with(name, '-'),
{
    reveal_strlit("-.");
    assert forall|i: int| 0 <= i < name.len() implies !is_special(#[trigger] name[i]) by {
        assert(is_lower_char(name[i], "-."@));
    }
}

} // verus!
