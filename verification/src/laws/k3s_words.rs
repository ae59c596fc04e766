//! What the `k3s` tools tell the host: the words that a shell reads in their commands.
use crate::builders::k3s::{address_rule, k3s_prefix, INSTALLER};
use crate::laws::words::{
    arg, blank_reads, clean_adds_a_word, glued, group_words, joint, list_of, name_reads, outside,
    pair, pairs, pairs_read, plain_stays_bare, quoted_is_one_word, reads, said, starts, text_ends,
    text_starts, word, words,
};
use crate::shell::{group_plain, lit, named, plain, plain_bin, plain_pieces, render, Mark, Piece};
use crate::tool::StandardTool;
use crate::tools::ssh_k3s_cert_rotate::{K3sCertRotateTool, SshK3sCertRotateArgs};
use crate::tools::ssh_k3s_check_config::{SshK3sCheckConfigArgs, SshK3sCheckConfigTool};
use crate::tools::ssh_k3s_ctr_images::{SshK3sCtrImagesArgs, SshK3sCtrImagesTool};
use crate::tools::ssh_k3s_etcd_snapshot_list::{
    SshK3sEtcdSnapshotListArgs, SshK3sEtcdSnapshotListTool,
};
use crate::tools::ssh_k3s_etcd_snapshot_restore::{
    K3sEtcdSnapshotRestoreTool, SshK3sEtcdSnapshotRestoreArgs,
};
use crate::tools::ssh_k3s_etcd_snapshot_save::{
    SshK3sEtcdSnapshotSaveArgs, SshK3sEtcdSnapshotSaveTool,
};
use crate::tools::ssh_k3s_killall::{K3sKillallTool, SshK3sKillallArgs};
use crate::tools::ssh_k3s_kubeconfig_get::{SshK3sKubeconfigGetArgs, SshK3sKubeconfigGetTool};
use crate::tools::ssh_k3s_uninstall::{K3sUninstallTool, SshK3sUninstallArgs};
use crate::tools::ssh_k3s_upgrade::{K3sUpgradeTool, SshK3sUpgradeArgs};
use vstd::prelude::*;

verus! {

proof fn k3s_reads()
    ensures
        reads(" --service ", seq![word("--service")], true),
        reads(" ", seq![], true),
        reads(" --dir ", seq![word("--dir")], true),
        reads(" --name ", seq![word("--name")], true),
        reads(" check-config", seq![word("check-config")], false),
        reads(" -e ", seq![word("-e")], true),
        reads(" INSTALL_K3S_CHANNEL=", seq![word("INSTALL_K3S_CHANNEL=")], false),
        reads(" --cluster-reset-restore-path=", seq![word("--cluster-reset-restore-path=")], false),
        starts(" certificate rotate", false),
        starts(" ctr images ", true),
        starts(" etcd-snapshot ls -o json", false),
        starts(" etcd-snapshot save", false),
        starts(" server --cluster-reset", false),
        starts(" | sed -e ", true),
        starts(" sh -", false),
        plain("sudo "@),
        outside("sudo "@),
        plain("sudo cat "@),
        outside("sudo cat "@),
{
    reveal_strlit("sudo ");
    text_ends("sudo ");
    reveal_strlit("sudo cat ");
    text_ends("sudo cat ");
    reveal_strlit(" --service ");
    reveal_strlit("--service");
    reveal_strlit(" ");
    reveal_strlit(" --dir ");
    reveal_strlit("--dir");
    reveal_strlit(" --name ");
    reveal_strlit("--name");
    reveal_strlit(" check-config");
    reveal_strlit("check-config");
    reveal_strlit(" -e ");
    reveal_strlit("-e");
    reveal_strlit(" INSTALL_K3S_CHANNEL=");
    reveal_strlit("INSTALL_K3S_CHANNEL=");
    reveal_strlit(" --cluster-reset-restore-path=");
    reveal_strlit("--cluster-reset-restore-path=");
    reveal_strlit(" certificate rotate");
    reveal_strlit(" ctr images ");
    reveal_strlit(" etcd-snapshot ls -o json");
    reveal_strlit(" etcd-snapshot save");
    reveal_strlit(" server --cluster-reset");
    reveal_strlit(" | sed -e ");
    reveal_strlit(" sh -");
    name_reads(" --service ", "--service", true);
    blank_reads(" ");
    name_reads(" --dir ", "--dir", true);
    name_reads(" --name ", "--name", true);
    name_reads(" check-config", "check-config", false);
    name_reads(" -e ", "-e", true);
    name_reads(" INSTALL_K3S_CHANNEL=", "INSTALL_K3S_CHANNEL=", false);
    name_reads(" --cluster-reset-restore-path=", "--cluster-reset-restore-path=", false);
    text_starts(" certificate rotate");
    text_starts(" ctr images ");
    text_starts(" etcd-snapshot ls -o json");
    text_starts(" etcd-snapshot save");
    text_starts(" server --cluster-reset");
    text_starts(" | sed -e ");
    text_starts(" sh -");
}

/// The words of the program: `sudo` and the program that the caller names, or `k3s`.
pub open spec fn k3s_program(bin: Option<String>) -> Seq<Seq<(char, Mark)>> {
    words("sudo "@) + match bin {
        Some(b) => words(b@),
        None => words("k3s"@),
    }
}

proof fn k3s_program_reads(bin: Option<String>)
    requires
        plain_bin(bin),
    ensures
        words(render(k3s_prefix(bin))) == k3s_program(bin),
        plain_pieces(k3s_prefix(bin)),
{
    broadcast use {group_words, group_plain};

    k3s_reads();
    reveal_strlit("k3s");
}

proof fn rules_replace(ip: Seq<char>)
    ensures
        address_rule("127\\.0\\.0\\.1", ip) == "s/127\\.0\\.0\\.1:6443/"@ + ip + ":6443/g"@,
        address_rule("0\\.0\\.0\\.0", ip) == "s/0\\.0\\.0\\.0:6443/"@ + ip + ":6443/g"@,
{
    reveal_strlit("s/");
    reveal_strlit(":6443/");
    reveal_strlit(":6443/g");
    reveal_strlit("127\\.0\\.0\\.1");
    reveal_strlit("0\\.0\\.0\\.0");
    reveal_strlit("s/127\\.0\\.0\\.1:6443/");
    reveal_strlit("s/0\\.0\\.0\\.0:6443/");
    assert("s/"@ + "127\\.0\\.0\\.1"@ + ":6443/"@ =~= "s/127\\.0\\.0\\.1:6443/"@);
    assert("s/"@ + "0\\.0\\.0\\.0"@ + ":6443/"@ =~= "s/0\\.0\\.0\\.0:6443/"@);
}

proof fn installer_reads(version: Seq<char>)
    ensures
        words(render(named(INSTALLER, version))) == words(
            "curl -sfL https://get.k3s.io | sudo"@,
        ).push(word("INSTALL_K3S_VERSION=") + arg(version)),
        plain_pieces(named(INSTALLER, version)),
{
    broadcast use {group_words, group_plain};

    let front = "curl -sfL https://get.k3s.io | sudo"@;
    let pin = "INSTALL_K3S_VERSION="@;
    reveal_strlit("curl -sfL https://get.k3s.io | sudo INSTALL_K3S_VERSION=");
    reveal_strlit("curl -sfL https://get.k3s.io | sudo");
    reveal_strlit("INSTALL_K3S_VERSION=");
    assert(INSTALLER@ =~= front + seq![' '] + pin);
    crate::laws::words::blank_adds_no_word(front);
    clean_adds_a_word(front + seq![' '], pin);
    plain_stays_bare(INSTALLER@);
    quoted_is_one_word(version);
    assert(named(INSTALLER, version) =~= lit(INSTALLER) + seq![Piece::Arg(version)]);
    crate::laws::words::glued_argument(INSTALLER, version);
    let all = words(front).push(word("INSTALL_K3S_VERSION="));
    assert(glued(all, seq![arg(version)]) =~= words(front).push(
        word("INSTALL_K3S_VERSION=") + arg(version),
    ));
}

/// The certificates of the services that are asked for are renewed, all of them where none is
/// named.
pub proof fn rotation_is_told(args: SshK3sCertRotateArgs)
    requires
        plain_bin(args.k3s_bin),
        K3sCertRotateTool::command(args) is Ok,
    ensures
        K3sCertRotateTool::command(args) matches Ok(text)
            && words(text) == k3s_program(args.k3s_bin) + words(" certificate rotate"@) + pairs(
            "--service",
            args.service,
        ),
{
    broadcast use {group_words, group_plain};

    k3s_reads();
    k3s_program_reads(args.k3s_bin);
    pairs_read(" --service ", "--service", args.service);
}

/// The configuration is checked.
pub proof fn config_check_is_told(args: SshK3sCheckConfigArgs)
    requires
        plain_bin(args.k3s_bin),
    ensures
        SshK3sCheckConfigTool::command(args) matches Ok(text)
            && words(text) == k3s_program(args.k3s_bin) + seq![word("check-config")],
{
    broadcast use {group_words, group_plain};

    k3s_reads();
    k3s_program_reads(args.k3s_bin);
}

/// The images are listed, or those of the tarball that is asked for are imported: the tarball is
/// named for an import and for nothing else.
pub proof fn images_are_told(args: SshK3sCtrImagesArgs)
    requires
        plain_bin(args.k3s_bin),
        SshK3sCtrImagesTool::command(args) is Ok,
    ensures
        SshK3sCtrImagesTool::command(args) matches Ok(text)
            && words(text) == k3s_program(args.k3s_bin)
            + words(" ctr images "@).push(arg(args.action@))
            + (if args.action@ == "import"@ {
            list_of(args.tarball)
        } else {
            seq![]
        }),
{
    broadcast use {group_words, group_plain};

    k3s_reads();
    k3s_program_reads(args.k3s_bin);
}

/// The snapshots in the directory that is asked for are listed.
pub proof fn snapshot_list_is_told(args: SshK3sEtcdSnapshotListArgs)
    requires
        plain_bin(args.k3s_bin),
        SshK3sEtcdSnapshotListTool::command(args) is Ok,
    ensures
        SshK3sEtcdSnapshotListTool::command(args) matches Ok(text)
            && words(text) == k3s_program(args.k3s_bin) + words(" etcd-snapshot ls -o json"@)
            + pair(
            "--dir",
            args.dir,
        ),
{
    broadcast use {group_words, group_plain};

    k3s_reads();
    k3s_program_reads(args.k3s_bin);
}

/// The cluster is reset to the snapshot that is asked for.
pub proof fn restore_is_told(args: SshK3sEtcdSnapshotRestoreArgs)
    requires
        plain_bin(args.k3s_bin),
        K3sEtcdSnapshotRestoreTool::command(args) is Ok,
    ensures
        K3sEtcdSnapshotRestoreTool::command(args) matches Ok(text)
            && words(text) == k3s_program(args.k3s_bin) + words(" server --cluster-reset"@) + seq![
            word("--cluster-reset-restore-path=") + arg(args.snapshot_path@),
        ],
{
    broadcast use {group_words, group_plain};

    k3s_reads();
    k3s_program_reads(args.k3s_bin);
}

/// A snapshot is saved under the name and in the directory that are asked for.
pub proof fn snapshot_save_is_told(args: SshK3sEtcdSnapshotSaveArgs)
    requires
        plain_bin(args.k3s_bin),
        SshK3sEtcdSnapshotSaveTool::command(args) is Ok,
    ensures
        SshK3sEtcdSnapshotSaveTool::command(args) matches Ok(text)
            && words(text) == k3s_program(args.k3s_bin) + words(" etcd-snapshot save"@) + pair(
            "--name",
            args.name,
        ) + pair("--dir", args.dir),
{
    broadcast use {group_words, group_plain};

    k3s_reads();
    k3s_program_reads(args.k3s_bin);
}

/// The script that is asked for is run as root, the one of the installer by default.
pub proof fn killall_is_told(args: SshK3sKillallArgs)
    requires
        K3sKillallTool::command(args) is Ok,
    ensures
        K3sKillallTool::command(args) matches Ok(text) && words(text) == words("sudo "@).push(
            arg(
                match args.script_path {
                    Some(p) => p@,
                    None => "/usr/local/bin/k3s-killall.sh"@,
                },
            ),
        ),
{
    broadcast use {group_words, group_plain};

    k3s_reads();
}

/// The configuration that is asked for is shown. Where a server is given, its address stands in
/// place of both local addresses.
pub proof fn kubeconfig_is_told(args: SshK3sKubeconfigGetArgs)
    requires
        SshK3sKubeconfigGetTool::command(args) is Ok,
    ensures
        SshK3sKubeconfigGetTool::command(args) matches Ok(text)
            && words(text) == words("sudo cat "@).push(
            arg(
                match args.path {
                    Some(p) => p@,
                    None => "/etc/rancher/k3s/k3s.yaml"@,
                },
            ),
        ) + match args.server_ip {
            Some(ip) => words(" | sed -e "@).push(
                arg("s/127\\.0\\.0\\.1:6443/"@ + ip@ + ":6443/g"@),
            ) + said("-e", "s/0\\.0\\.0\\.0:6443/"@ + ip@ + ":6443/g"@),
            None => seq![],
        },
{
    broadcast use {group_words, group_plain};

    k3s_reads();
    if let Some(ip) = args.server_ip {
        rules_replace(ip@);
    }
}

/// The script that is asked for is run as root, by default the one of the installer for a server or
/// for an agent.
pub proof fn uninstall_is_told(args: SshK3sUninstallArgs)
    requires
        K3sUninstallTool::command(args) is Ok,
    ensures
        K3sUninstallTool::command(args) matches Ok(text) && words(text) == words("sudo "@).push(
            arg(
                match args.script_path {
                    Some(p) => p@,
                    None => if args.agent {
                        "/usr/local/bin/k3s-agent-uninstall.sh"@
                    } else {
                        "/usr/local/bin/k3s-uninstall.sh"@
                    },
                },
            ),
        ),
{
    broadcast use {group_words, group_plain};

    k3s_reads();
}

/// The installer is run as root for the version that is asked for, which stands in the one word
/// that pins it, and for the channel that is asked for.
pub proof fn upgrade_is_told(args: SshK3sUpgradeArgs)
    requires
        K3sUpgradeTool::command(args) is Ok,
    ensures
        K3sUpgradeTool::command(args) matches Ok(text)
            && words(text) == words("curl -sfL https://get.k3s.io | sudo"@).push(
            word("INSTALL_K3S_VERSION=") + arg(args.version@),
        ) + joint("INSTALL_K3S_CHANNEL=", args.channel) + words(" sh -"@),
{
    broadcast use {group_words, group_plain};

    k3s_reads();
    installer_reads(args.version@);
}

} // verus!
