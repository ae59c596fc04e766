//! What the `crictl` tools tell `crictl`: the words that a shell reads in their commands.
use crate::builders::crictl::CRICTL_DETECT;
use crate::laws::words::{
    arg, blank_reads, group_words, name_reads, number, number_reads, pair, program, reads, said,
    switch, word, words,
};
use crate::shell::{group_plain, plain, plain_bin, Mark};
use crate::tool::StandardTool;
use crate::tools::ssh_crictl_info::{CrictlInfoTool, SshCrictlInfoArgs};
use crate::tools::ssh_crictl_inspect::{CrictlInspectTool, SshCrictlInspectArgs};
use crate::tools::ssh_crictl_logs::{CrictlLogsTool, SshCrictlLogsArgs};
use crate::tools::ssh_crictl_pods::{CrictlPodsTool, SshCrictlPodsArgs};
use crate::tools::ssh_crictl_ps::{CrictlPsTool, SshCrictlPsArgs};
use crate::tools::ssh_crictl_rmi::{CrictlRmiTool, SshCrictlRmiArgs};
use crate::tools::ssh_crictl_stats::{CrictlStatsTool, SshCrictlStatsArgs};
use vstd::prelude::*;

verus! {

proof fn crictl_reads()
    ensures
        reads(" ", seq![], true),
        reads(" -o ", seq![word("-o")], true),
        reads(" info", seq![word("info")], false),
        reads(" inspect", seq![word("inspect")], false),
        reads(" inspectp", seq![word("inspectp")], false),
        reads(" inspecti", seq![word("inspecti")], false),
        reads(" logs", seq![word("logs")], false),
        reads(" -p", seq![word("-p")], false),
        reads(" --tail ", seq![word("--tail")], true),
        reads(" --since ", seq![word("--since")], true),
        reads(" -t", seq![word("-t")], false),
        reads(" pods", seq![word("pods")], false),
        reads(" --state ", seq![word("--state")], true),
        reads(" --name ", seq![word("--name")], true),
        reads(" --label ", seq![word("--label")], true),
        reads(" --namespace ", seq![word("--namespace")], true),
        reads(" ps", seq![word("ps")], false),
        reads(" -a", seq![word("-a")], false),
        reads(" rmi", seq![word("rmi")], false),
        reads(" --prune", seq![word("--prune")], false),
        reads(" stats", seq![word("stats")], false),
        reads(" --id ", seq![word("--id")], true),
        plain(CRICTL_DETECT@),
{
    reveal_strlit(" ");
    reveal_strlit(" -o ");
    reveal_strlit("-o");
    reveal_strlit(" info");
    reveal_strlit("info");
    reveal_strlit(" inspect");
    reveal_strlit("inspect");
    reveal_strlit(" inspectp");
    reveal_strlit("inspectp");
    reveal_strlit(" inspecti");
    reveal_strlit("inspecti");
    reveal_strlit(" logs");
    reveal_strlit("logs");
    reveal_strlit(" -p");
    reveal_strlit("-p");
    reveal_strlit(" --tail ");
    reveal_strlit("--tail");
    reveal_strlit(" --since ");
    reveal_strlit("--since");
    reveal_strlit(" -t");
    reveal_strlit("-t");
    reveal_strlit(" pods");
    reveal_strlit("pods");
    reveal_strlit(" --state ");
    reveal_strlit("--state");
    reveal_strlit(" --name ");
    reveal_strlit("--name");
    reveal_strlit(" --label ");
    reveal_strlit("--label");
    reveal_strlit(" --namespace ");
    reveal_strlit("--namespace");
    reveal_strlit(" ps");
    reveal_strlit("ps");
    reveal_strlit(" -a");
    reveal_strlit("-a");
    reveal_strlit(" rmi");
    reveal_strlit("rmi");
    reveal_strlit(" --prune");
    reveal_strlit("--prune");
    reveal_strlit(" stats");
    reveal_strlit("stats");
    reveal_strlit(" --id ");
    reveal_strlit("--id");
    reveal_strlit(
        "$(if command -v crictl >/dev/null 2>&1; then echo crictl; else echo k3s crictl; fi)");
    blank_reads(" ");
    name_reads(" -o ", "-o", true);
    name_reads(" info", "info", false);
    name_reads(" inspect", "inspect", false);
    name_reads(" inspectp", "inspectp", false);
    name_reads(" inspecti", "inspecti", false);
    name_reads(" logs", "logs", false);
    name_reads(" -p", "-p", false);
    name_reads(" --tail ", "--tail", true);
    name_reads(" --since ", "--since", true);
    name_reads(" -t", "-t", false);
    name_reads(" pods", "pods", false);
    name_reads(" --state ", "--state", true);
    name_reads(" --name ", "--name", true);
    name_reads(" --label ", "--label", true);
    name_reads(" --namespace ", "--namespace", true);
    name_reads(" ps", "ps", false);
    name_reads(" -a", "-a", false);
    name_reads(" rmi", "rmi", false);
    name_reads(" --prune", "--prune", false);
    name_reads(" stats", "stats", false);
    name_reads(" --id ", "--id", true);
}

/// The form that is asked for, JSON where none is.
pub open spec fn or_json(output: Option<String>) -> Seq<char> {
    if let Some(o) = output {
        o@
    } else {
        "json"@
    }
}

/// The runtime is described in the form that is asked for, as JSON by default.
pub proof fn info_is_told(args: SshCrictlInfoArgs)
    requires
        plain_bin(args.crictl_bin),
    ensures
        CrictlInfoTool::command(args) matches Ok(text)
            && words(text) == program(args.crictl_bin, CRICTL_DETECT) + seq![word("info")]
            + said("-o", or_json(args.output)),
{
    broadcast use {group_words, group_plain};

    crictl_reads();
}

/// The object that is asked for is inspected by the subcommand for its kind, in the form that is
/// asked for.
pub proof fn inspect_is_told(args: SshCrictlInspectArgs)
    requires
        plain_bin(args.crictl_bin),
        CrictlInspectTool::command(args) is Ok,
    ensures
        CrictlInspectTool::command(args) matches Ok(text)
            && words(text) == program(args.crictl_bin, CRICTL_DETECT) + seq![
            word(
                if args.kind@ == "pod"@ {
                    "inspectp"
                } else if args.kind@ == "image"@ {
                    "inspecti"
                } else {
                    "inspect"
                },
            ),
        ] + said("-o", or_json(args.output)) + seq![arg(args.id@)],
{
    broadcast use {group_words, group_plain};

    crictl_reads();
}

/// The logs of the container that is asked for are shown: of its last run, as many lines, since the
/// time and with timestamps as asked.
pub proof fn logs_are_told(args: SshCrictlLogsArgs)
    requires
        plain_bin(args.crictl_bin),
        CrictlLogsTool::command(args) is Ok,
    ensures
        CrictlLogsTool::command(args) matches Ok(text)
            && words(text) == program(args.crictl_bin, CRICTL_DETECT) + seq![word("logs")] + switch(
            args.previous,
            "-p",
        ) + number("--tail", args.tail) + pair("--since", args.since) + switch(
            args.timestamps,
            "-t",
        ) + seq![arg(args.container_id@)],
{
    broadcast use {group_words, group_plain};

    crictl_reads();
    if let Some(n) = args.tail {
        number_reads(" --tail ", "--tail", n);
    }
}

/// The pods are listed by the filters that are asked for.
pub proof fn pods_are_told(args: SshCrictlPodsArgs)
    requires
        plain_bin(args.crictl_bin),
        CrictlPodsTool::command(args) is Ok,
    ensures
        CrictlPodsTool::command(args) matches Ok(text)
            && words(text) == program(args.crictl_bin, CRICTL_DETECT) + seq![word("pods")] + pair(
            "--state",
            args.state,
        ) + pair("--name", args.name) + pair("--label", args.label) + pair(
            "--namespace",
            args.namespace,
        ) + said("-o", or_json(args.output)),
{
    broadcast use {group_words, group_plain};

    crictl_reads();
}

/// The containers are listed by the filters that are asked for, those that have ended on request.
pub proof fn containers_are_told(args: SshCrictlPsArgs)
    requires
        plain_bin(args.crictl_bin),
    ensures
        CrictlPsTool::command(args) matches Ok(text)
            && words(text) == program(args.crictl_bin, CRICTL_DETECT) + seq![word("ps")] + switch(
            args.all,
            "-a",
        ) + pair("--state", args.state) + pair("--name", args.name) + pair(
            "--label",
            args.label,
        ) + said("-o", or_json(args.output)),
{
    broadcast use {group_words, group_plain};

    crictl_reads();
}

/// The image that is asked for is removed, and that image only; all unused images are removed where
/// no image is named.
pub proof fn image_removal_is_told(args: SshCrictlRmiArgs)
    requires
        plain_bin(args.crictl_bin),
        CrictlRmiTool::command(args) is Ok,
    ensures
        CrictlRmiTool::command(args) matches Ok(text)
            && words(text) == program(args.crictl_bin, CRICTL_DETECT) + seq![word("rmi")]
            + match args.image {
            Some(i) => Seq::<Seq<(char, Mark)>>::empty().push(arg(i@)),
            None => seq![word("--prune")],
        },
{
    broadcast use {group_words, group_plain};

    crictl_reads();
}

/// The use of the containers is shown, of all of them or of the one that is asked for.
pub proof fn stats_are_told(args: SshCrictlStatsArgs)
    requires
        plain_bin(args.crictl_bin),
        CrictlStatsTool::command(args) is Ok,
    ensures
        CrictlStatsTool::command(args) matches Ok(text)
            && words(text) == program(args.crictl_bin, CRICTL_DETECT) + seq![word("stats")]
            + switch(
            args.all,
            "-a",
        ) + pair("--id", args.id) + said("-o", or_json(args.output)),
{
    broadcast use {group_words, group_plain};

    crictl_reads();
}

} // verus!
