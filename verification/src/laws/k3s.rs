//! How a shell reads the `k3s` commands.
use crate::builders::k3s::{
    cert_rotate_command, check_config_command, import_images_command, kubeconfig_command,
    list_images_command, script_command, snapshot_list_command, snapshot_restore_command,
    snapshot_save_command, upgrade_command, INSTALLER,
};
use crate::shell::{command_reads_as_meant, group_plain, plain, plain_bin, reads_as_meant};
use vstd::prelude::*;

verus! {

proof fn k3s_literals()
    ensures
        plain(INSTALLER@),
        plain("sudo "@),
        plain("k3s"@),
        plain(" certificate rotate"@),
        plain(" --service "@),
        plain(" check-config"@),
        plain(" ctr images "@),
        plain(" "@),
        plain(" etcd-snapshot ls -o json"@),
        plain(" --dir "@),
        plain(" server --cluster-reset"@),
        plain(" --cluster-reset-restore-path="@),
        plain(" etcd-snapshot save"@),
        plain(" --name "@),
        plain("sudo cat "@),
        plain(" | sed -e "@),
        plain(" -e "@),
        plain(" INSTALL_K3S_CHANNEL="@),
        plain(" sh -"@),
{
    reveal_strlit("curl -sfL https://get.k3s.io | sudo INSTALL_K3S_VERSION=");
    reveal_strlit("sudo ");
    reveal_strlit("k3s");
    reveal_strlit(" certificate rotate");
    reveal_strlit(" --service ");
    reveal_strlit(" check-config");
    reveal_strlit(" ctr images ");
    reveal_strlit(" ");
    reveal_strlit(" etcd-snapshot ls -o json");
    reveal_strlit(" --dir ");
    reveal_strlit(" server --cluster-reset");
    reveal_strlit(" --cluster-reset-restore-path=");
    reveal_strlit(" etcd-snapshot save");
    reveal_strlit(" --name ");
    reveal_strlit("sudo cat ");
    reveal_strlit(" | sed -e ");
    reveal_strlit(" -e ");
    reveal_strlit(" INSTALL_K3S_CHANNEL=");
    reveal_strlit(" sh -");
}

/// A shell reads the `k3s certificate rotate` command as it is meant: no argument adds shell text.
pub proof fn cert_rotate_reads_as_meant(
    bin: Option<String>,
    services: Option<Vec<String>>,
)
    requires
        plain_bin(bin),
    ensures
        reads_as_meant(cert_rotate_command(bin, services)),
{
    broadcast use group_plain;

    k3s_literals();
    command_reads_as_meant(cert_rotate_command(bin, services));
}

/// A shell reads the `k3s check-config` command as it is meant: no argument adds shell text.
pub proof fn check_config_reads_as_meant(
    bin: Option<String>,
)
    requires
        plain_bin(bin),
    ensures
        reads_as_meant(check_config_command(bin)),
{
    broadcast use group_plain;

    k3s_literals();
    command_reads_as_meant(check_config_command(bin));
}

/// A shell reads the `k3s ctr images` command as it is meant: no argument adds shell text.
pub proof fn list_images_reads_as_meant(
    bin: Option<String>,
    action: Seq<char>,
)
    requires
        plain_bin(bin),
    ensures
        reads_as_meant(list_images_command(bin, action)),
{
    broadcast use group_plain;

    k3s_literals();
    command_reads_as_meant(list_images_command(bin, action));
}

/// A shell reads the `k3s ctr images import` command as it is meant: no argument adds shell text.
pub proof fn import_images_reads_as_meant(
    bin: Option<String>,
    action: Seq<char>,
    tarball: Seq<char>,
)
    requires
        plain_bin(bin),
    ensures
        reads_as_meant(import_images_command(bin, action, tarball)),
{
    broadcast use group_plain;

    k3s_literals();
    command_reads_as_meant(import_images_command(bin, action, tarball));
}

/// A shell reads the `k3s etcd-snapshot ls` command as it is meant: no argument adds shell text.
pub proof fn snapshot_list_reads_as_meant(
    bin: Option<String>,
    dir: Option<String>,
)
    requires
        plain_bin(bin),
    ensures
        reads_as_meant(snapshot_list_command(bin, dir)),
{
    broadcast use group_plain;

    k3s_literals();
    command_reads_as_meant(snapshot_list_command(bin, dir));
}

/// A shell reads the `k3s server --cluster-reset` command as it is meant: no argument adds shell
/// text.
pub proof fn snapshot_restore_reads_as_meant(
    bin: Option<String>,
    path: Seq<char>,
)
    requires
        plain_bin(bin),
    ensures
        reads_as_meant(snapshot_restore_command(bin, path)),
{
    broadcast use group_plain;

    k3s_literals();
    command_reads_as_meant(snapshot_restore_command(bin, path));
}

/// A shell reads the `k3s etcd-snapshot save` command as it is meant: no argument adds shell text.
pub proof fn snapshot_save_reads_as_meant(
    bin: Option<String>,
    name: Option<String>,
    dir: Option<String>,
)
    requires
        plain_bin(bin),
    ensures
        reads_as_meant(snapshot_save_command(bin, name, dir)),
{
    broadcast use group_plain;

    k3s_literals();
    command_reads_as_meant(snapshot_save_command(bin, name, dir));
}

/// A shell reads the `sudo` command as it is meant: no argument adds shell text.
pub proof fn script_reads_as_meant(
    script_path: Option<String>,
    default: &str,
)
    ensures
        reads_as_meant(script_command(script_path, default)),
{
    broadcast use group_plain;

    k3s_literals();
    command_reads_as_meant(script_command(script_path, default));
}

/// A shell reads the `sudo cat` command as it is meant: no argument adds shell text.
pub proof fn kubeconfig_reads_as_meant(
    path: Option<String>,
    server_ip: Option<String>,
)
    ensures
        reads_as_meant(kubeconfig_command(path, server_ip)),
{
    broadcast use group_plain;

    k3s_literals();
    command_reads_as_meant(kubeconfig_command(path, server_ip));
}

/// A shell reads the `k3s installer` command as it is meant: no argument adds shell text.
pub proof fn upgrade_reads_as_meant(
    version: Seq<char>,
    channel: Option<String>,
)
    ensures
        reads_as_meant(upgrade_command(version, channel)),
{
    broadcast use group_plain;

    k3s_literals();
    command_reads_as_meant(upgrade_command(version, channel));
}

} // verus!
