//! `crictl` commands, which talk to the container runtime of a node.
use crate::error::{
    agrees, checked, complaint, denied, denied_because, unless, BridgeError, Refusal,
};
use crate::shell::{command_unless, flag, lit, named, opt_text, option, render, CommandLine, Piece};
use crate::text::{begins, begins_with, decimal, same_text, word_chars, word_chars_only};
use vstd::prelude::*;

verus! {

/// Finds `crictl`, which K3s ships as a subcommand of its own.
pub const CRICTL_DETECT: &'static str =
    "$(if command -v crictl >/dev/null 2>&1; then echo crictl; else echo k3s crictl; fi)";

/// The characters besides letters and digits that an object ID may hold.
pub const ID_EXTRA: &'static str = "-_.:/@";

/// The start of every command: the program that the caller names, or the one that is found.
pub open spec fn crictl_prefix(bin: Option<String>) -> Seq<Piece> {
    match bin {
        Some(b) => seq![Piece::Lit(b@)],
        None => lit(CRICTL_DETECT),
    }
}

/// The output format, JSON unless the caller names another.
pub open spec fn output_or_json(output: Option<String>) -> Seq<char> {
    match output {
        Some(o) => o@,
        None => "json"@,
    }
}

fn crictl(bin: &Option<String>) -> (r: CommandLine)
    ensures
        r.wf(),
        r@ == crictl_prefix(*bin),
{
    match bin {
        Some(b) => CommandLine::new(b.as_str()),
        None => CommandLine::new(CRICTL_DETECT),
    }
}

fn add_output(cmd: &mut CommandLine, output: &Option<String>)
    requires
        old(cmd).wf(),
    ensures
        final(cmd).wf(),
        final(cmd)@ == old(cmd)@ + named(" -o ", output_or_json(*output)),
{
    match output {
        Some(o) => cmd.named(" -o ", o.as_str()),
        None => cmd.named(" -o ", "json"),
    }
}

/// A container, pod or image ID: not empty, no leading dash, and only characters of an ID.
pub open spec fn valid_container_id(id: Seq<char>) -> bool {
    id.len() > 0 && !begins_with(id, '-') && word_chars(id, ID_EXTRA@)
}

pub open spec fn container_id_refusal(id: Seq<char>) -> Option<Refusal> {
    unless(
        valid_container_id(id),
        complaint("Invalid container ID ", id, ". Allowed: letters, digits and -_.:/@"),
    )
}

pub fn validate_container_id(id: &str) -> (r: Result<(), BridgeError>)
    ensures
        checked(r, container_id_refusal(id@)),
{
    if !id.is_empty() && !begins(id, '-') && word_chars_only(id, ID_EXTRA) {
        Ok(())
    } else {
        Err(denied("Invalid container ID ", id, ". Allowed: letters, digits and -_.:/@"))
    }
}

/// The kinds of object that can be inspected.
pub open spec fn valid_inspect_kind(kind: Seq<char>) -> bool {
    kind == "container"@ || kind == "pod"@ || kind == "image"@
}

pub open spec fn inspect_kind_refusal(kind: Seq<char>) -> Option<Refusal> {
    unless(
        valid_inspect_kind(kind),
        complaint("Invalid inspect kind ", kind, ". Allowed: container, pod, image"),
    )
}

pub fn validate_inspect_kind(kind: &str) -> (r: Result<(), BridgeError>)
    ensures
        checked(r, inspect_kind_refusal(kind@)),
{
    if same_text(kind, "container") || same_text(kind, "pod") || same_text(kind, "image") {
        Ok(())
    } else {
        Err(denied("Invalid inspect kind ", kind, ". Allowed: container, pod, image"))
    }
}

/// The states of a pod sandbox.
pub open spec fn valid_pod_state(state: Seq<char>) -> bool {
    state == "ready"@ || state == "notready"@
}

pub open spec fn pod_state_refusal(state: Seq<char>) -> Option<Refusal> {
    unless(
        valid_pod_state(state),
        complaint("Invalid pod state ", state, ". Allowed: ready, notready"),
    )
}

pub fn validate_pod_state(state: &str) -> (r: Result<(), BridgeError>)
    ensures
        checked(r, pod_state_refusal(state@)),
{
    if same_text(state, "ready") || same_text(state, "notready") {
        Ok(())
    } else {
        Err(denied("Invalid pod state ", state, ". Allowed: ready, notready"))
    }
}

pub open spec fn info_command(bin: Option<String>, output: Option<String>) -> Seq<Piece> {
    crictl_prefix(bin) + lit(" info") + named(" -o ", output_or_json(output))
}

/// The subcommand that inspects an object of the given kind.
pub open spec fn inspect_subcommand(kind: Seq<char>) -> &'static str {
    if kind == "pod"@ {
        " inspectp"
    } else if kind == "image"@ {
        " inspecti"
    } else {
        " inspect"
    }
}

pub open spec fn inspect_command(
    bin: Option<String>,
    kind: Seq<char>,
    id: Seq<char>,
    output: Option<String>,
) -> Seq<Piece> {
    crictl_prefix(bin) + lit(inspect_subcommand(kind)) + named(" -o ", output_or_json(output))
        + named(" ", id)
}

pub open spec fn logs_command(
    bin: Option<String>,
    id: Seq<char>,
    tail: Option<u64>,
    since: Option<String>,
    previous: bool,
    timestamps: bool,
) -> Seq<Piece> {
    crictl_prefix(bin) + lit(" logs") + flag(previous, " -p") + match tail {
        Some(n) => lit(" --tail ") + seq![Piece::Lit(decimal(n as nat))],
        None => seq![],
    } + option(" --since ", opt_text(since)) + flag(timestamps, " -t") + named(" ", id)
}

pub open spec fn pods_command(
    bin: Option<String>,
    state: Option<String>,
    name: Option<String>,
    label: Option<String>,
    namespace: Option<String>,
    output: Option<String>,
) -> Seq<Piece> {
    crictl_prefix(bin) + lit(" pods") + option(" --state ", opt_text(state)) + option(
        " --name ",
        opt_text(name),
    ) + option(" --label ", opt_text(label)) + option(" --namespace ", opt_text(namespace))
        + named(" -o ", output_or_json(output))
}

pub open spec fn ps_command(
    bin: Option<String>,
    all: bool,
    state: Option<String>,
    name: Option<String>,
    label: Option<String>,
    output: Option<String>,
) -> Seq<Piece> {
    crictl_prefix(bin) + lit(" ps") + flag(all, " -a") + option(" --state ", opt_text(state))
        + option(" --name ", opt_text(name)) + option(" --label ", opt_text(label)) + named(
        " -o ",
        output_or_json(output),
    )
}

pub open spec fn remove_image_command(bin: Option<String>, image: Seq<char>) -> Seq<Piece> {
    crictl_prefix(bin) + lit(" rmi") + named(" ", image)
}

pub open spec fn prune_images_command(bin: Option<String>) -> Seq<Piece> {
    crictl_prefix(bin) + lit(" rmi") + lit(" --prune")
}

/// An image reference that `crictl` takes for one: not empty, and no option.
pub open spec fn valid_image(image: Seq<char>) -> bool {
    image.len() > 0 && !begins_with(image, '-')
}

/// Exactly one of an image and pruning is asked for.
pub open spec fn rmi_command(
    bin: Option<String>,
    image: Option<String>,
    prune: bool,
) -> Result<Seq<char>, Refusal> {
    match (image, prune) {
        (Some(i), false) => command_unless(
            unless(
                valid_image(i@),
                complaint("Invalid image ", i@, ": must not be empty or begin with -"),
            ),
            remove_image_command(bin, i@),
        ),
        (None, true) => Ok(render(prune_images_command(bin))),
        (Some(_), true) => Err(Refusal::Denied("'image' and 'prune' are mutually exclusive"@)),
        (None, false) => Err(Refusal::Denied("one of 'image' or 'prune' is required"@)),
    }
}

pub open spec fn stats_command(
    bin: Option<String>,
    all: bool,
    id: Option<String>,
    output: Option<String>,
) -> Seq<Piece> {
    crictl_prefix(bin) + lit(" stats") + flag(all, " -a") + option(" --id ", opt_text(id))
        + named(" -o ", output_or_json(output))
}

/// Builds `crictl` commands.
pub struct CrictlCommandBuilder;

impl CrictlCommandBuilder {
    pub fn build_info_command(bin: &Option<String>, output: &Option<String>) -> (r: String)
        ensures
            r@ == render(info_command(*bin, *output)),
    {
        let mut cmd = crictl(bin);
        cmd.lit(" info");
        add_output(&mut cmd, output);
        cmd.into_text()
    }

    pub fn build_inspect_command(
        bin: &Option<String>,
        kind: &str,
        id: &str,
        output: &Option<String>,
    ) -> (r: String)
        ensures
            r@ == render(inspect_command(*bin, kind@, id@, *output)),
    {
        let mut cmd = crictl(bin);
        if same_text(kind, "pod") {
            cmd.lit(" inspectp");
        } else if same_text(kind, "image") {
            cmd.lit(" inspecti");
        } else {
            cmd.lit(" inspect");
        }
        add_output(&mut cmd, output);
        cmd.named(" ", id);
        cmd.into_text()
    }

    pub fn build_logs_command(
        bin: &Option<String>,
        id: &str,
        tail: Option<u64>,
        since: &Option<String>,
        previous: bool,
        timestamps: bool,
    ) -> (r: String)
        ensures
            r@ == render(logs_command(*bin, id@, tail, *since, previous, timestamps)),
    {
        let mut cmd = crictl(bin);
        cmd.lit(" logs");
        cmd.flag(previous, " -p");
        if let Some(n) = tail {
            cmd.lit(" --tail ");
            cmd.number(n);
        }
        cmd.option(" --since ", since);
        cmd.flag(timestamps, " -t");
        cmd.named(" ", id);
        assert(cmd@ =~= logs_command(*bin, id@, tail, *since, previous, timestamps));
        cmd.into_text()
    }

    pub fn build_pods_command(
        bin: &Option<String>,
        state: &Option<String>,
        name: &Option<String>,
        label: &Option<String>,
        namespace: &Option<String>,
        output: &Option<String>,
    ) -> (r: String)
        ensures
            r@ == render(pods_command(*bin, *state, *name, *label, *namespace, *output)),
    {
        let mut cmd = crictl(bin);
        cmd.lit(" pods");
        cmd.option(" --state ", state);
        cmd.option(" --name ", name);
        cmd.option(" --label ", label);
        cmd.option(" --namespace ", namespace);
        add_output(&mut cmd, output);
        cmd.into_text()
    }

    pub fn build_ps_command(
        bin: &Option<String>,
        all: bool,
        state: &Option<String>,
        name: &Option<String>,
        label: &Option<String>,
        output: &Option<String>,
    ) -> (r: String)
        ensures
            r@ == render(ps_command(*bin, all, *state, *name, *label, *output)),
    {
        let mut cmd = crictl(bin);
        cmd.lit(" ps");
        cmd.flag(all, " -a");
        cmd.option(" --state ", state);
        cmd.option(" --name ", name);
        cmd.option(" --label ", label);
        add_output(&mut cmd, output);
        cmd.into_text()
    }

    pub fn build_rmi_command(bin: &Option<String>, image: &Option<String>, prune: bool) -> (r:
        Result<String, BridgeError>)
        ensures
            agrees(r, rmi_command(*bin, *image, prune)),
    {
        let mut cmd = crictl(bin);
        cmd.lit(" rmi");
        match image {
            Some(i) => {
                if prune {
                    return Err(denied_because("'image' and 'prune' are mutually exclusive"));
                }
                if i.as_str().is_empty() || begins(i.as_str(), '-') {
                    return Err(
                        denied("Invalid image ", i.as_str(), ": must not be empty or begin with -"),
                    );
                }
                cmd.named(" ", i.as_str());
            },
            None => {
                if !prune {
                    return Err(denied_because("one of 'image' or 'prune' is required"));
                }
                cmd.lit(" --prune");
            },
        }
        Ok(cmd.into_text())
    }

    pub fn build_stats_command(
        bin: &Option<String>,
        all: bool,
        id: &Option<String>,
        output: &Option<String>,
    ) -> (r: String)
        ensures
            r@ == render(stats_command(*bin, all, *id, *output)),
    {
        let mut cmd = crictl(bin);
        cmd.lit(" stats");
        cmd.flag(all, " -a");
        cmd.option(" --id ", id);
        add_output(&mut cmd, output);
        cmd.into_text()
    }
}

} // verus!
