//! How a shell reads the `crictl` commands.
use crate::builders::crictl::{
    info_command, inspect_command, logs_command, pods_command, prune_images_command, ps_command,
    remove_image_command, stats_command, CRICTL_DETECT,
};
use crate::shell::{command_reads_as_meant, group_plain, plain, plain_bin, reads_as_meant};
use vstd::prelude::*;

verus! {

proof fn crictl_literals()
    ensures
        plain(CRICTL_DETECT@),
        plain(" info"@),
        plain(" -o "@),
        plain(" "@),
        plain(" inspect"@),
        plain(" inspectp"@),
        plain(" inspecti"@),
        plain(" logs"@),
        plain(" -p"@),
        plain(" --tail "@),
        plain(" --since "@),
        plain(" -t"@),
        plain(" pods"@),
        plain(" --state "@),
        plain(" --name "@),
        plain(" --label "@),
        plain(" --namespace "@),
        plain(" ps"@),
        plain(" -a"@),
        plain(" rmi"@),
        plain(" --prune"@),
        plain(" stats"@),
        plain(" --id "@),
{
    reveal_strlit("$(if command -v crictl >/dev/null 2>&1; then echo crictl; else echo k3s crictl; fi)");
    reveal_strlit(" info");
    reveal_strlit(" -o ");
    reveal_strlit(" ");
    reveal_strlit(" inspect");
    reveal_strlit(" inspectp");
    reveal_strlit(" inspecti");
    reveal_strlit(" logs");
    reveal_strlit(" -p");
    reveal_strlit(" --tail ");
    reveal_strlit(" --since ");
    reveal_strlit(" -t");
    reveal_strlit(" pods");
    reveal_strlit(" --state ");
    reveal_strlit(" --name ");
    reveal_strlit(" --label ");
    reveal_strlit(" --namespace ");
    reveal_strlit(" ps");
    reveal_strlit(" -a");
    reveal_strlit(" rmi");
    reveal_strlit(" --prune");
    reveal_strlit(" stats");
    reveal_strlit(" --id ");
}

/// A shell reads the `crictl info` command as it is meant: no argument adds shell text.
pub proof fn info_reads_as_meant(
    bin: Option<String>,
    output: Option<String>,
)
    requires
        plain_bin(bin),
    ensures
        reads_as_meant(info_command(bin, output)),
{
    broadcast use group_plain;

    crictl_literals();
    command_reads_as_meant(info_command(bin, output));
}

/// A shell reads the `crictl inspect` command as it is meant: no argument adds shell text.
pub proof fn inspect_reads_as_meant(
    bin: Option<String>,
    kind: Seq<char>,
    id: Seq<char>,
    output: Option<String>,
)
    requires
        plain_bin(bin),
    ensures
        reads_as_meant(inspect_command(bin, kind, id, output)),
{
    broadcast use group_plain;

    crictl_literals();
    command_reads_as_meant(inspect_command(bin, kind, id, output));
}

/// A shell reads the `crictl logs` command as it is meant: no argument adds shell text.
pub proof fn logs_reads_as_meant(
    bin: Option<String>,
    id: Seq<char>,
    tail: Option<u64>,
    since: Option<String>,
    previous: bool,
    timestamps: bool,
)
    requires
        plain_bin(bin),
    ensures
        reads_as_meant(logs_command(bin, id, tail, since, previous, timestamps)),
{
    broadcast use group_plain;

    crictl_literals();
    command_reads_as_meant(logs_command(bin, id, tail, since, previous, timestamps));
}

/// A shell reads the `crictl pods` command as it is meant: no argument adds shell text.
pub proof fn pods_reads_as_meant(
    bin: Option<String>,
    state: Option<String>,
    name: Option<String>,
    label: Option<String>,
    namespace: Option<String>,
    output: Option<String>,
)
    requires
        plain_bin(bin),
    ensures
        reads_as_meant(pods_command(bin, state, name, label, namespace, output)),
{
    broadcast use group_plain;

    crictl_literals();
    command_reads_as_meant(pods_command(bin, state, name, label, namespace, output));
}

/// A shell reads the `crictl ps` command as it is meant: no argument adds shell text.
pub proof fn ps_reads_as_meant(
    bin: Option<String>,
    all: bool,
    state: Option<String>,
    name: Option<String>,
    label: Option<String>,
    output: Option<String>,
)
    requires
        plain_bin(bin),
    ensures
        reads_as_meant(ps_command(bin, all, state, name, label, output)),
{
    broadcast use group_plain;

    crictl_literals();
    command_reads_as_meant(ps_command(bin, all, state, name, label, output));
}

/// A shell reads the `crictl rmi` command as it is meant: no argument adds shell text.
pub proof fn remove_image_reads_as_meant(
    bin: Option<String>,
    image: Seq<char>,
)
    requires
        plain_bin(bin),
    ensures
        reads_as_meant(remove_image_command(bin, image)),
{
    broadcast use group_plain;

    crictl_literals();
    command_reads_as_meant(remove_image_command(bin, image));
}

/// A shell reads the `crictl rmi --prune` command as it is meant: no argument adds shell text.
pub proof fn prune_images_reads_as_meant(
    bin: Option<String>,
)
    requires
        plain_bin(bin),
    ensures
        reads_as_meant(prune_images_command(bin)),
{
    broadcast use group_plain;

    crictl_literals();
    command_reads_as_meant(prune_images_command(bin));
}

/// A shell reads the `crictl stats` command as it is meant: no argument adds shell text.
pub proof fn stats_reads_as_meant(
    bin: Option<String>,
    all: bool,
    id: Option<String>,
    output: Option<String>,
)
    requires
        plain_bin(bin),
    ensures
        reads_as_meant(stats_command(bin, all, id, output)),
{
    broadcast use group_plain;

    crictl_literals();
    command_reads_as_meant(stats_command(bin, all, id, output));
}

} // verus!
